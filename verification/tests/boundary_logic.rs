use ternary_texture_memory::{BoundaryMode, Ternary};

#[test]
fn test_boundary_clamp() {
    let mode = BoundaryMode::Clamp;
    assert_eq!(mode.apply(-1, 4), 0);
    assert_eq!(mode.apply(0, 4), 0);
    assert_eq!(mode.apply(3, 4), 3);
    assert_eq!(mode.apply(5, 4), 3);
}

#[test]
fn test_boundary_wrap() {
    let mode = BoundaryMode::Wrap;
    assert_eq!(mode.apply(0, 4), 0);
    assert_eq!(mode.apply(4, 4), 0);
    assert_eq!(mode.apply(5, 4), 1);
    assert_eq!(mode.apply(-1, 4), 3);
    assert_eq!(mode.apply(-2, 4), 2);
}

#[test]
fn test_boundary_mirror() {
    let mode = BoundaryMode::Mirror;
    assert_eq!(mode.apply(0, 4), 0);
    assert_eq!(mode.apply(4, 4), 3); // mirror: 4→3
    assert_eq!(mode.apply(5, 4), 2); // mirror: 5→2
    assert_eq!(mode.apply(-1, 4), 0); // mirror: -1→0
    assert_eq!(mode.apply(7, 4), 0); // 7 → period=8, 7 mod 8 = 7, 7>=4 → 2*4-1-7=0
}

#[test]
fn test_ternary_and() {
    assert_eq!(Ternary::True.and(&Ternary::True), Ternary::True);
    assert_eq!(Ternary::True.and(&Ternary::False), Ternary::False);
    assert_eq!(Ternary::False.and(&Ternary::True), Ternary::False);
    assert_eq!(Ternary::False.and(&Ternary::Unknown), Ternary::False);
    assert_eq!(Ternary::Unknown.and(&Ternary::True), Ternary::Unknown);
    assert_eq!(Ternary::Unknown.and(&Ternary::Unknown), Ternary::Unknown);
}

#[test]
fn test_ternary_or() {
    assert_eq!(Ternary::True.or(&Ternary::False), Ternary::True);
    assert_eq!(Ternary::False.or(&Ternary::False), Ternary::False);
    assert_eq!(Ternary::Unknown.or(&Ternary::False), Ternary::Unknown);
    assert_eq!(Ternary::Unknown.or(&Ternary::True), Ternary::True);
}

#[test]
fn test_ternary_display() {
    assert_eq!(Ternary::True.to_string(), "T");
    assert_eq!(Ternary::False.to_string(), "F");
    assert_eq!(Ternary::Unknown.to_string(), "U");
}

const ALL: [Ternary; 3] = [Ternary::True, Ternary::False, Ternary::Unknown];
const MODES: [BoundaryMode; 3] = [BoundaryMode::Clamp, BoundaryMode::Wrap, BoundaryMode::Mirror];

#[test]
fn zero_extent_gives_zero() {
    for mode in MODES {
        assert_eq!(mode.apply(5, 0), 0);
        assert_eq!(mode.apply(-5, 0), 0);
    }
}

#[test]
fn extents_beyond_i64() {
    let big = (i64::MAX as u64) + 1;
    for size in [big, u64::MAX] {
        for mode in MODES {
            // in-range coordinates are kept
            assert_eq!(mode.apply(5, size), 5);
            assert_eq!(mode.apply(i64::MAX, size), i64::MAX as u64);
        }
        assert_eq!(BoundaryMode::Clamp.apply(-5, size), 0);
        assert_eq!(BoundaryMode::Wrap.apply(-5, size), size - 5);
        assert_eq!(BoundaryMode::Mirror.apply(-5, size), 4);
        assert_eq!(BoundaryMode::Wrap.apply(i64::MIN, size), size - big);
        assert_eq!(BoundaryMode::Mirror.apply(i64::MIN, size), i64::MAX as u64);
    }
}

#[test]
fn results_stay_in_range_and_in_range_is_kept() {
    for mode in MODES {
        for size in 1u64..7 {
            for coord in -40i64..40 {
                let r = mode.apply(coord, size);
                assert!(r < size);
                if coord >= 0 && (coord as u64) < size {
                    assert_eq!(r, coord as u64);
                }
                // idempotent
                assert_eq!(mode.apply(r as i64, size), r);
            }
        }
    }
}

#[test]
fn wrap_periodic_mirror_periodic_and_reflecting() {
    for size in 1i64..7 {
        for coord in -30i64..30 {
            let s = size as u64;
            assert_eq!(BoundaryMode::Wrap.apply(coord + size, s), BoundaryMode::Wrap.apply(coord, s));
            assert_eq!(
                BoundaryMode::Mirror.apply(coord + 2 * size, s),
                BoundaryMode::Mirror.apply(coord, s)
            );
            assert_eq!(BoundaryMode::Mirror.apply(-1 - coord, s), BoundaryMode::Mirror.apply(coord, s));
        }
    }
}

#[test]
fn extreme_coordinates() {
    assert_eq!(BoundaryMode::Clamp.apply(i64::MIN, 10), 0);
    assert_eq!(BoundaryMode::Clamp.apply(i64::MAX, 10), 9);
    // i64::MIN = -9223372036854775808; mod 10 is 2
    assert_eq!(BoundaryMode::Wrap.apply(i64::MIN, 10), 2);
    assert_eq!(BoundaryMode::Wrap.apply(i64::MAX, 10), 7);
    // mirror: period 20; i64::MIN mod 20 = 12 -> 19 - 12 = 7
    assert_eq!(BoundaryMode::Mirror.apply(i64::MIN, 10), 7);
    assert_eq!(BoundaryMode::Wrap.apply(-1, i64::MAX as u64), (i64::MAX - 1) as u64);
    assert_eq!(BoundaryMode::Clamp.apply(-1, i64::MAX as u64), 0);
}

#[test]
fn kleene_laws_on_all_values() {
    for a in ALL {
        assert_eq!(a.and(&Ternary::True), a);
        assert_eq!(a.or(&Ternary::False), a);
        assert_eq!(a.and(&Ternary::False), Ternary::False);
        assert_eq!(a.or(&Ternary::True), Ternary::True);
        assert_eq!(a.and(&a), a);
        assert_eq!(a.or(&a), a);
        for b in ALL {
            assert_eq!(a.and(&b), b.and(&a));
            assert_eq!(a.or(&b), b.or(&a));
            assert_eq!(a.and(&a.or(&b)), a);
            assert_eq!(a.or(&a.and(&b)), a);
            for c in ALL {
                assert_eq!(a.and(&b).and(&c), a.and(&b.and(&c)));
                assert_eq!(a.or(&b).or(&c), a.or(&b.or(&c)));
                assert_eq!(a.and(&b.or(&c)), a.and(&b).or(&a.and(&c)));
                assert_eq!(a.or(&b.and(&c)), a.or(&b).and(&a.or(&c)));
            }
        }
    }
    assert_eq!(Ternary::Unknown.and(&Ternary::False), Ternary::False);
    assert_eq!(Ternary::Unknown.or(&Ternary::Unknown), Ternary::Unknown);
}
