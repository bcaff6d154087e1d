# cuda_oxide

The verified core of a pipeline that compiles Rust kernels to PTX: derivation of
parameter attributes and external declarations, import and lowering of device
intrinsics, textual export of LLVM IR and NVVM IR, the steps of the pipeline, and the
selection, building and caching of the artifacts that the host loads.

- `src/` is the library. Verus proves every function in it against its contract. The
  few items that Verus believes without proof wrap functions of pliron, rustc-hash and
  the standard library, and each says what it claims of them.
- `tests/` runs the library.
- `app/` is ordinary Rust around the library: files, the environment, the NVIDIA tools
  behind a trait, and the functions that device code calls.
