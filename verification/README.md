# rk3588_rs

Verified building blocks for programming the RK3588 NPU directly.

The library (`src/`, verified with Verus) holds:

- `hw`: register offsets of the PC, CNA, CORE and DPU units, the CBUF
  geometry, and the 64-bit register-command encoding (`npuop`).
- `cna`, `dpu`: the unit descriptors a task programs.
- `task`: the register list of one matrix-multiplication task, as a
  sequence of register commands over the descriptors.
- `matmul`: the FP16 and INT8 task generators, which fail exactly when the
  feature data or one kernel's weights do not fit the CBUF; the feature and
  weight layouts (`feature_data`, `weight_fp16`, `weight_int8`) with proofs
  that they are injective and bounded; index tables for whole matrices.
- `job`: the task and submit descriptors of a one-task job.
- `ioctl`: the driver's flags, action numbers and ioctl argument structures.
- `interface`: the descriptor of an allocation, bounded writes into its
  mapping, and the set of allocations a device must release.
- `drm`: DRM ioctl request numbers, the DRM version-query step and the
  hardware version fields.
- `rknn`: the RKNN runtime's result codes and error type.

`app/` is the program around it: opening `/dev/dri/card1`, the ioctls, `mmap`,
the FP16 conversions of the test matrices, and the matrix-multiplication test
that runs a 4x36 * 36x16 product on the NPU.

Not here: the RKNN runtime bindings (model loading, queries, inputs, runs,
outputs) and the image-classification example built on them. They call the
vendor's `librknnrt` through generated bindings, and neither the library, its
header-derived bindings nor the model files are available to this build; only
their plain decisions (`RknnError`, `is_quantized`, `tensor_shape`) are in
`rknn`.
