# dft_numint

Shape logic, density-type flags and cache bookkeeping of a DFT grid-integration
library, verified with Verus, and the tensor routines around them.

- `src/` — the verified library:
  - `flags` — density types (`RHO`, `SIGMA`, `TAU`, `LAPL`) and the density
    variables and AO components each needs;
  - `error` — the error type and the two shape checks every routine is built from;
  - `checks`, `lists` — ordered sequences of checks over tensors and lists of matrices;
  - `eval_rho`, `xcpot` — the checks that each density and XC potential routine
    makes before it computes, with their exact errors;
  - `plans` — output shapes and scratch sizes of the drivers;
  - `ao_cache` — cache keys of AO tensors and what a cache request does;
  - `batches` — grid batches and chunks;
  - `transpose` — in-place transposition of a column-major block;
  - `xc` — the density type and input plan of a libxc functional, and the checks
    of the reference XC drivers.
- `app/` — the floating-point tensor routines (rstsr, libcint, libxc, rayon)
  that call the verified checks and plans.
- `tests/` — tests of the library.
