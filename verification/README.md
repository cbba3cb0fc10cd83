# scirs2-core (SIMD layer)

SIMD-accelerated numerical operations on `ndarray` arrays, split in two:

- `src/` — the verified library (Verus):
  - `transpose`: a row-major `Matrix<T>` with its well-formedness predicate,
    the cache-blocked transpose `simd_transpose_blocked` (proved to produce
    the transpose, on both the direct and the tiled path), the block-size
    rule `calculate_block_size` (an integer square root clamped to `[8, 64]`),
    and the proof that transposing twice gives the matrix back.
  - `detect`: the CPU feature record built from the raw probe answers, the
    kernel selections of the feature-dispatched operations, and the proof
    that a selected vector kernel only uses extensions the probes reported.
  - `traits`: the `SimdOps` bound.
- `app/` — the floating-point operations themselves (element-wise
  arithmetic, reductions, norms, distances, similarity, activations,
  transcendental functions, normalisation), the runtime probes and their
  process-wide cache, the vector kernels, and the `ndarray` front end of the
  transpose.
- `tests/` — tests of the library.
