# ternary_texture_memory

Texture memory access for ternary (True / False / Unknown) data, verified with Verus.

- `src/` — the verified library:
  - `boundary.rs` — clamp / wrap / mirror addressing (`BoundaryMode::apply`) and its laws
    (results stay in range, in-range coordinates are kept, idempotence, periodicity, reflection).
  - `ternary.rs` — ternary values, Kleene AND / OR and their algebraic laws.
  - `sampler.rs` — sampler configuration.
  - `texture1d.rs`, `texture2d.rs`, `texture3d.rs` — textures with boundary-handled reads,
    checked writes, and read-after-write laws.
  - `coherence.rs` — neighbor-pair and value counts behind coherence analysis.
  - `error.rs`, `decimal.rs` — error values and their messages.
- `app/` — the floating-point side: interpolated sampling, coherence ratios and entropy,
  and `Display` forms.
- `tests/` — executable tests.
