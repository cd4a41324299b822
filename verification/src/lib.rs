//! Register-command generation, data layout and driver bookkeeping for the
//! RK3588 NPU.
pub mod hw;
pub mod cna;
pub mod dpu;
pub mod task;
pub mod matmul;
pub mod job;
pub mod ioctl;
pub mod interface;
pub mod drm;
pub mod rknn;

pub use cna::{NpuCnaDesc, NpuCoreDesc};
pub use dpu::NpuDpuDesc;
pub use hw::{npuop, ConvMode, Precision};
pub use interface::{AllocationSet, NpuMemory};
pub use ioctl::{
    RknpuAction, RknpuActionStruct, RknpuMemCreate, RknpuMemDestroy, RknpuMemMap, RknpuMemSync,
    RknpuSubcoreTask, RknpuSubmit, RknpuTask,
};
pub use matmul::{
    feature_data, gen_matmul_fp16, gen_matmul_int8, gen_matmul_task, weight_fp16, weight_int8,
    MatmulParams,
};
pub use rknn::RknnError;
