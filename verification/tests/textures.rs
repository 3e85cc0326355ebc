use ternary_texture_memory::{
    BoundaryMode, SampleMode, Sampler, Ternary, Texture1D, Texture2D, Texture3D, TextureError,
};

// === 1D Addressing ===

#[test]
fn test_texture_1d_basic() {
    let tex = Texture1D::new(vec![Ternary::True, Ternary::False, Ternary::Unknown, Ternary::True]);
    assert_eq!(tex.width(), 4);

    let sampler = Sampler::nearest_clamp();
    assert_eq!(tex.read(0, &sampler), Ternary::True);
    assert_eq!(tex.read(1, &sampler), Ternary::False);
    assert_eq!(tex.read(2, &sampler), Ternary::Unknown);
    assert_eq!(tex.read(3, &sampler), Ternary::True);
}

#[test]
fn test_texture_1d_write() {
    let mut tex = Texture1D::new(vec![Ternary::False; 4]);
    tex.write(2, Ternary::True).unwrap();
    let sampler = Sampler::nearest_clamp();
    assert_eq!(tex.read(2, &sampler), Ternary::True);
    assert!(tex.write(10, Ternary::True).is_err());
}

#[test]
fn test_texture_1d_constant() {
    let tex = Texture1D::constant(10, Ternary::Unknown);
    assert_eq!(tex.width(), 10);
    let sampler = Sampler::nearest_clamp();
    for i in 0..10 {
        assert_eq!(tex.read(i as i64, &sampler), Ternary::Unknown);
    }
}

// === 2D Addressing ===

#[test]
fn test_texture_2d_basic() {
    let data = vec![Ternary::True, Ternary::False, Ternary::Unknown, Ternary::True];
    let tex = Texture2D::new(data, 2, 2).unwrap();
    assert_eq!(tex.dimensions(), (2, 2));

    let sampler = Sampler::nearest_clamp();
    assert_eq!(tex.read(0, 0, &sampler), Ternary::True);
    assert_eq!(tex.read(1, 0, &sampler), Ternary::False);
    assert_eq!(tex.read(0, 1, &sampler), Ternary::Unknown);
    assert_eq!(tex.read(1, 1, &sampler), Ternary::True);
}

#[test]
fn test_texture_2d_size_mismatch() {
    let data = vec![Ternary::True; 3];
    let result = Texture2D::new(data, 2, 2);
    assert!(matches!(result, Err(TextureError::SizeMismatch { .. })));
}

#[test]
fn test_texture_2d_write() {
    let mut tex = Texture2D::constant(3, 3, Ternary::False);
    tex.write(1, 2, Ternary::True).unwrap();
    let sampler = Sampler::nearest_clamp();
    assert_eq!(tex.read(1, 2, &sampler), Ternary::True);
    assert!(tex.write(5, 0, Ternary::True).is_err());
}

#[test]
fn test_clamp_with_texture() {
    let tex = Texture1D::new(vec![Ternary::True, Ternary::False, Ternary::Unknown]);
    let sampler = Sampler::new(SampleMode::Nearest, BoundaryMode::Clamp);
    assert_eq!(tex.read(-5, &sampler), Ternary::True); // clamps to 0
    assert_eq!(tex.read(100, &sampler), Ternary::Unknown); // clamps to 2
}

#[test]
fn test_wrap_with_texture() {
    let tex = Texture1D::new(vec![Ternary::True, Ternary::False, Ternary::Unknown]);
    let sampler = Sampler::new(SampleMode::Nearest, BoundaryMode::Wrap);
    assert_eq!(tex.read(3, &sampler), Ternary::True); // wraps to 0
    assert_eq!(tex.read(-1, &sampler), Ternary::Unknown); // wraps to 2
}

// === 3D ===

#[test]
fn test_texture_3d_basic() {
    let data = vec![Ternary::True; 8];
    let tex = Texture3D::new(data, 2, 2, 2).unwrap();
    assert_eq!(tex.dimensions(), (2, 2, 2));
    let sampler = Sampler::nearest_clamp();
    assert_eq!(tex.read(0, 0, 0, &sampler), Ternary::True);
    assert_eq!(tex.read(1, 1, 1, &sampler), Ternary::True);
}

#[test]
fn test_texture_3d_write() {
    let mut tex = Texture3D::constant(2, 2, 2, Ternary::False);
    tex.write(1, 1, 1, Ternary::True).unwrap();
    let sampler = Sampler::nearest_clamp();
    assert_eq!(tex.read(1, 1, 1, &sampler), Ternary::True);
}

#[test]
fn test_texture_3d_size_mismatch() {
    let data = vec![Ternary::True; 7];
    let result = Texture3D::new(data, 2, 2, 2);
    assert!(matches!(result, Err(TextureError::SizeMismatch { .. })));
}

#[test]
fn test_error_display() {
    let err = TextureError::SizeMismatch { expected: 4, actual: 3 };
    assert!(err.to_string().contains("expected 4"));
}

#[test]
fn test_sampler_default() {
    let s = Sampler::default();
    assert_eq!(s.mode, SampleMode::Nearest);
    assert_eq!(s.boundary, BoundaryMode::Clamp);
}

// === Further cases ===

#[test]
fn empty_texture_1d_reads_unknown() {
    let tex = Texture1D::new(vec![]);
    for mode in [BoundaryMode::Clamp, BoundaryMode::Wrap, BoundaryMode::Mirror] {
        let sampler = Sampler::new(SampleMode::Nearest, mode);
        assert_eq!(tex.read(0, &sampler), Ternary::Unknown);
        assert_eq!(tex.read(-7, &sampler), Ternary::Unknown);
    }
    assert_eq!(tex.width(), 0);
    assert!(tex.data().is_empty());
}

#[test]
fn empty_textures_2d_3d_read_unknown() {
    let sampler = Sampler::linear_wrap();
    let t2 = Texture2D::constant(0, 5, Ternary::True);
    assert_eq!(t2.read(1, 1, &sampler), Ternary::Unknown);
    let t3 = Texture3D::new(vec![], 3, 0, 2).unwrap();
    assert_eq!(t3.read(1, 1, 1, &sampler), Ternary::Unknown);
}

#[test]
fn write_out_of_bounds_messages() {
    let mut t1 = Texture1D::constant(4, Ternary::False);
    let e1 = t1.write(10, Ternary::True).unwrap_err();
    assert_eq!(
        e1,
        TextureError::OutOfBounds { coord: "x=10".to_string(), size: "width=4".to_string() }
    );
    assert_eq!(e1.to_string(), "coordinate x=10 out of bounds for width=4");
    assert_eq!(t1.data(), &[Ternary::False; 4][..]);

    let mut t2 = Texture2D::constant(3, 3, Ternary::False);
    let e2 = t2.write(5, 0, Ternary::True).unwrap_err();
    assert_eq!(e2.to_string(), "coordinate x=5, y=0 out of bounds for 3x3");
    let e2b = t2.write(0, 3, Ternary::True).unwrap_err();
    assert_eq!(
        e2b,
        TextureError::OutOfBounds { coord: "x=0, y=3".to_string(), size: "3x3".to_string() }
    );
    assert_eq!(t2.data(), &[Ternary::False; 9][..]);

    let mut t3 = Texture3D::constant(2, 3, 4, Ternary::False);
    let e3 = t3.write(1, 1, 4, Ternary::True).unwrap_err();
    assert_eq!(
        e3,
        TextureError::OutOfBounds {
            coord: "x=1, y=1, z=4".to_string(),
            size: "2x3x4".to_string()
        }
    );
    assert_eq!(e3.to_string(), "coordinate x=1, y=1, z=4 out of bounds for 2x3x4");
}

#[test]
fn size_mismatch_values_and_message() {
    let r2 = Texture2D::new(vec![Ternary::True; 3], 2, 2);
    assert_eq!(r2.unwrap_err(), TextureError::SizeMismatch { expected: 4, actual: 3 });
    let r3 = Texture3D::new(vec![Ternary::True; 7], 2, 2, 2);
    let e3 = r3.unwrap_err();
    assert_eq!(e3, TextureError::SizeMismatch { expected: 8, actual: 7 });
    assert_eq!(e3.to_string(), "size mismatch: expected 8 elements, got 7");
    let big = TextureError::SizeMismatch { expected: 1234567890, actual: 0 };
    assert_eq!(big.to_string(), "size mismatch: expected 1234567890 elements, got 0");
}

#[test]
fn write_then_read_every_mode() {
    // What a write stores, a read at the same in-range coordinate gives back,
    // whatever the boundary mode; other texels keep their value.
    for mode in [BoundaryMode::Clamp, BoundaryMode::Wrap, BoundaryMode::Mirror] {
        let s = Sampler::new(SampleMode::Nearest, mode);
        let mut t1 = Texture1D::constant(5, Ternary::Unknown);
        t1.write(3, Ternary::True).unwrap();
        assert_eq!(t1.read(3, &s), Ternary::True);
        assert_eq!(t1.read(2, &s), Ternary::Unknown);

        let mut t2 = Texture2D::constant(4, 3, Ternary::False);
        t2.write(3, 2, Ternary::Unknown).unwrap();
        assert_eq!(t2.read(3, 2, &s), Ternary::Unknown);
        assert_eq!(t2.read(2, 2, &s), Ternary::False);
        assert_eq!(t2.data()[2 * 4 + 3], Ternary::Unknown);

        let mut t3 = Texture3D::constant(2, 3, 4, Ternary::False);
        t3.write(1, 2, 3, Ternary::True).unwrap();
        assert_eq!(t3.read(1, 2, 3, &s), Ternary::True);
        assert_eq!(t3.read(0, 2, 3, &s), Ternary::False);
    }
}

#[test]
fn reads_out_of_range_2d_3d() {
    // Row-major 3x2 grid: row 0 = T F U, row 1 = F U T.
    let data = vec![
        Ternary::True, Ternary::False, Ternary::Unknown,
        Ternary::False, Ternary::Unknown, Ternary::True,
    ];
    let tex = Texture2D::new(data, 3, 2).unwrap();
    let clamp = Sampler::nearest_clamp();
    let wrap = Sampler::new(SampleMode::Nearest, BoundaryMode::Wrap);
    let mirror = Sampler::new(SampleMode::Nearest, BoundaryMode::Mirror);
    assert_eq!(tex.read(-3, 9, &clamp), Ternary::False); // (0, 1)
    assert_eq!(tex.read(4, -1, &wrap), Ternary::Unknown); // (1, 1)
    assert_eq!(tex.read(3, 2, &mirror), Ternary::True); // (2, 1)

    let mut t3 = Texture3D::constant(2, 2, 2, Ternary::False);
    t3.write(0, 1, 1, Ternary::True).unwrap();
    assert_eq!(t3.read(-2, 3, 1, &wrap), Ternary::True); // (0, 1, 1)
    assert_eq!(t3.read(-1, 2, -2, &mirror), Ternary::True); // (0, 1, 1)
    assert_eq!(t3.read(-1, 2, -1, &mirror), Ternary::False); // (0, 1, 0)
}

#[test]
fn constant_textures_read_their_value() {
    let s = Sampler::new(SampleMode::Linear, BoundaryMode::Mirror);
    let t1 = Texture1D::constant(3, Ternary::True);
    assert_eq!(t1.read(-100, &s), Ternary::True);
    let t2 = Texture2D::constant(2, 5, Ternary::Unknown);
    assert_eq!(t2.read(17, -4, &s), Ternary::Unknown);
    assert_eq!(t2.dimensions(), (2, 5));
    let t3 = Texture3D::constant(1, 2, 3, Ternary::False);
    assert_eq!(t3.read(5, 5, 5, &s), Ternary::False);
    assert_eq!(t3.dimensions(), (1, 2, 3));
}

#[test]
fn sampler_constructors() {
    let s = Sampler::linear_wrap();
    assert_eq!(s.mode, SampleMode::Linear);
    assert_eq!(s.boundary, BoundaryMode::Wrap);
    let n = Sampler::new(SampleMode::Linear, BoundaryMode::Mirror);
    assert_eq!(n.mode, SampleMode::Linear);
    assert_eq!(n.boundary, BoundaryMode::Mirror);
}

#[test]
fn texture_2d_boundary_handling_scenario() {
    let mut tex = Texture2D::constant(8, 8, Ternary::Unknown);
    tex.write(3, 3, Ternary::True).unwrap();
    tex.write(4, 3, Ternary::True).unwrap();

    let wrap_sampler = Sampler::new(SampleMode::Nearest, BoundaryMode::Wrap);
    assert_eq!(tex.read(8, 0, &wrap_sampler), Ternary::Unknown); // wraps to (0, 0)
    assert_eq!(tex.read(11, -5, &wrap_sampler), Ternary::True); // wraps to (3, 3)

    let mirror_sampler = Sampler::new(SampleMode::Nearest, BoundaryMode::Mirror);
    assert_eq!(tex.read(-1, 0, &mirror_sampler), Ternary::Unknown); // reflects to (0, 0)
    assert_eq!(tex.read(-5, 3, &mirror_sampler), Ternary::True); // reflects to (4, 3)
    assert_eq!(BoundaryMode::Mirror.apply(-1, 8), 0);
}
