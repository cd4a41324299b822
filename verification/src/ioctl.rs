//! The RKNPU kernel driver interface: register offsets, memory, job and
//! action flags, ioctl command numbers, and the argument structures of the
//! driver's ioctls.
use vstd::prelude::*;

verus! {

// Register offsets
pub const RKNPU_OFFSET_VERSION: u32 = 0x0;

pub const RKNPU_OFFSET_VERSION_NUM: u32 = 0x4;

pub const RKNPU_OFFSET_PC_OP_EN: u32 = 0x8;

pub const RKNPU_OFFSET_PC_DATA_ADDR: u32 = 0x10;

pub const RKNPU_OFFSET_PC_DATA_AMOUNT: u32 = 0x14;

pub const RKNPU_OFFSET_PC_TASK_CONTROL: u32 = 0x30;

pub const RKNPU_OFFSET_PC_DMA_BASE_ADDR: u32 = 0x34;

pub const RKNPU_OFFSET_PC_TASK_STATUS: u32 = 0x3c;

pub const RKNPU_OFFSET_INT_MASK: u32 = 0x20;

pub const RKNPU_OFFSET_INT_CLEAR: u32 = 0x24;

pub const RKNPU_OFFSET_INT_STATUS: u32 = 0x28;

pub const RKNPU_OFFSET_INT_RAW_STATUS: u32 = 0x2c;

pub const RKNPU_OFFSET_CLR_ALL_RW_AMOUNT: u32 = 0x8010;

pub const RKNPU_OFFSET_DT_WR_AMOUNT: u32 = 0x8034;

pub const RKNPU_OFFSET_DT_RD_AMOUNT: u32 = 0x8038;

pub const RKNPU_OFFSET_WT_RD_AMOUNT: u32 = 0x803c;

pub const RKNPU_OFFSET_ENABLE_MASK: u32 = 0xf008;

pub const RKNPU_INT_CLEAR: u32 = 0x1ffff;

pub const RKNPU_PC_DATA_EXTRA_AMOUNT: u32 = 4;

// Memory type flags
pub const RKNPU_MEM_CONTIGUOUS: u32 = 0 << 0;

pub const RKNPU_MEM_NON_CONTIGUOUS: u32 = 1 << 0;

pub const RKNPU_MEM_NON_CACHEABLE: u32 = 0 << 1;

pub const RKNPU_MEM_CACHEABLE: u32 = 1 << 1;

pub const RKNPU_MEM_WRITE_COMBINE: u32 = 1 << 2;

pub const RKNPU_MEM_KERNEL_MAPPING: u32 = 1 << 3;

pub const RKNPU_MEM_IOMMU: u32 = 1 << 4;

pub const RKNPU_MEM_ZEROING: u32 = 1 << 5;

pub const RKNPU_MEM_SECURE: u32 = 1 << 6;

pub const RKNPU_MEM_NON_DMA32: u32 = 1 << 7;

pub const RKNPU_MEM_TRY_ALLOC_SRAM: u32 = 1 << 8;

pub const RKNPU_MEM_MASK: u32 = RKNPU_MEM_NON_CONTIGUOUS | RKNPU_MEM_CACHEABLE
    | RKNPU_MEM_WRITE_COMBINE | RKNPU_MEM_KERNEL_MAPPING | RKNPU_MEM_IOMMU | RKNPU_MEM_ZEROING
    | RKNPU_MEM_SECURE | RKNPU_MEM_NON_DMA32 | RKNPU_MEM_TRY_ALLOC_SRAM;

// Sync mode flags
pub const RKNPU_MEM_SYNC_TO_DEVICE: u32 = 1 << 0;

pub const RKNPU_MEM_SYNC_FROM_DEVICE: u32 = 1 << 1;

pub const RKNPU_MEM_SYNC_MASK: u32 = RKNPU_MEM_SYNC_TO_DEVICE | RKNPU_MEM_SYNC_FROM_DEVICE;

// Job mode flags
pub const RKNPU_JOB_SLAVE: u32 = 0 << 0;

pub const RKNPU_JOB_PC: u32 = 1 << 0;

pub const RKNPU_JOB_BLOCK: u32 = 0 << 1;

pub const RKNPU_JOB_NONBLOCK: u32 = 1 << 1;

pub const RKNPU_JOB_PINGPONG: u32 = 1 << 2;

pub const RKNPU_JOB_FENCE_IN: u32 = 1 << 3;

pub const RKNPU_JOB_FENCE_OUT: u32 = 1 << 4;

pub const RKNPU_JOB_MASK: u32 = RKNPU_JOB_PC | RKNPU_JOB_NONBLOCK | RKNPU_JOB_PINGPONG
    | RKNPU_JOB_FENCE_IN | RKNPU_JOB_FENCE_OUT;

/// Actions of the RKNPU action ioctl (GET, SET or ACT).
#[derive(Debug, Clone, Copy, PartialEq, Eq, Structural)]
pub enum RknpuAction {
    GetHwVersion,
    GetDrvVersion,
    GetFreq,
    SetFreq,
    GetVolt,
    SetVolt,
    ActReset,
    GetBwPriority,
    SetBwPriority,
    GetBwExpect,
    SetBwExpect,
    GetBwTw,
    SetBwTw,
    ActClrTotalRwAmount,
    GetDtWrAmount,
    GetDtRdAmount,
    GetWtRdAmount,
    GetTotalRwAmount,
    GetIommuEn,
    SetProcNice,
    PowerOn,
    PowerOff,
    GetTotalSramSize,
    GetFreeSramSize,
}

/// The driver's number for an action: the actions are numbered from `0` in
/// the order of their declaration.
pub open spec fn action_code(a: RknpuAction) -> u32 {
    match a {
        RknpuAction::GetHwVersion => 0,
        RknpuAction::GetDrvVersion => 1,
        RknpuAction::GetFreq => 2,
        RknpuAction::SetFreq => 3,
        RknpuAction::GetVolt => 4,
        RknpuAction::SetVolt => 5,
        RknpuAction::ActReset => 6,
        RknpuAction::GetBwPriority => 7,
        RknpuAction::SetBwPriority => 8,
        RknpuAction::GetBwExpect => 9,
        RknpuAction::SetBwExpect => 10,
        RknpuAction::GetBwTw => 11,
        RknpuAction::SetBwTw => 12,
        RknpuAction::ActClrTotalRwAmount => 13,
        RknpuAction::GetDtWrAmount => 14,
        RknpuAction::GetDtRdAmount => 15,
        RknpuAction::GetWtRdAmount => 16,
        RknpuAction::GetTotalRwAmount => 17,
        RknpuAction::GetIommuEn => 18,
        RknpuAction::SetProcNice => 19,
        RknpuAction::PowerOn => 20,
        RknpuAction::PowerOff => 21,
        RknpuAction::GetTotalSramSize => 22,
        RknpuAction::GetFreeSramSize => 23,
    }
}

impl RknpuAction {
    /// The driver's number for this action (the `flags` of an action ioctl).
    pub fn code(self) -> (c: u32)
        ensures
            c == action_code(self),
    {
        match self {
            RknpuAction::GetHwVersion => 0,
            RknpuAction::GetDrvVersion => 1,
            RknpuAction::GetFreq => 2,
            RknpuAction::SetFreq => 3,
            RknpuAction::GetVolt => 4,
            RknpuAction::SetVolt => 5,
            RknpuAction::ActReset => 6,
            RknpuAction::GetBwPriority => 7,
            RknpuAction::SetBwPriority => 8,
            RknpuAction::GetBwExpect => 9,
            RknpuAction::SetBwExpect => 10,
            RknpuAction::GetBwTw => 11,
            RknpuAction::SetBwTw => 12,
            RknpuAction::ActClrTotalRwAmount => 13,
            RknpuAction::GetDtWrAmount => 14,
            RknpuAction::GetDtRdAmount => 15,
            RknpuAction::GetWtRdAmount => 16,
            RknpuAction::GetTotalRwAmount => 17,
            RknpuAction::GetIommuEn => 18,
            RknpuAction::SetProcNice => 19,
            RknpuAction::PowerOn => 20,
            RknpuAction::PowerOff => 21,
            RknpuAction::GetTotalSramSize => 22,
            RknpuAction::GetFreeSramSize => 23,
        }
    }
}

/// Law of the action numbers as the driver defines them: the hardware and
/// driver versions are 0 and 1, a setting that is read and written has the
/// number that reads it followed by the one that writes it (frequency 2 and
/// 3, voltage 4 and 5, the bandwidth settings 7 to 12), reset is 6, the amount counters are 13 to 17, power on and off are 20
/// and 21, and the SRAM sizes 22 and 23.
pub proof fn lemma_action_codes()
    ensures
        action_code(RknpuAction::GetHwVersion) == 0,
        action_code(RknpuAction::GetDrvVersion) == 1,
        action_code(RknpuAction::GetFreq) == 2,
        action_code(RknpuAction::SetFreq) == 3,
        action_code(RknpuAction::GetVolt) == 4,
        action_code(RknpuAction::SetVolt) == 5,
        action_code(RknpuAction::ActReset) == 6,
        action_code(RknpuAction::GetBwPriority) == 7,
        action_code(RknpuAction::SetBwPriority) == 8,
        action_code(RknpuAction::GetBwExpect) == 9,
        action_code(RknpuAction::SetBwExpect) == 10,
        action_code(RknpuAction::GetBwTw) == 11,
        action_code(RknpuAction::SetBwTw) == 12,
        action_code(RknpuAction::ActClrTotalRwAmount) == 13,
        action_code(RknpuAction::GetDtWrAmount) == 14,
        action_code(RknpuAction::GetDtRdAmount) == 15,
        action_code(RknpuAction::GetWtRdAmount) == 16,
        action_code(RknpuAction::GetTotalRwAmount) == 17,
        action_code(RknpuAction::GetIommuEn) == 18,
        action_code(RknpuAction::SetProcNice) == 19,
        action_code(RknpuAction::PowerOn) == 20,
        action_code(RknpuAction::PowerOff) == 21,
        action_code(RknpuAction::GetTotalSramSize) == 22,
        action_code(RknpuAction::GetFreeSramSize) == 23,
{
}

/// Law of the action numbers: different actions have different numbers.
pub proof fn lemma_action_code_injective(a: RknpuAction, b: RknpuAction)
    ensures
        action_code(a) == action_code(b) ==> a == b,
{
}

/// User-desired buffer creation information structure.
#[derive(Debug, Clone, Copy)]
pub struct RknpuMemCreate {
    pub handle: u32,
    pub flags: u32,
    pub size: u64,
    pub obj_addr: u64,
    pub dma_addr: u64,
    pub sram_size: u64,
}

/// A structure for getting a fake-offset that can be used with mmap.
#[derive(Debug, Clone, Copy)]
pub struct RknpuMemMap {
    pub handle: u32,
    pub reserved: u32,
    pub offset: u64,
}

/// For destroying DMA buffer.
#[derive(Debug, Clone, Copy)]
pub struct RknpuMemDestroy {
    pub handle: u32,
    pub reserved: u32,
    pub obj_addr: u64,
}

/// For synchronizing DMA buffer.
#[derive(Debug, Clone, Copy)]
pub struct RknpuMemSync {
    pub flags: u32,
    pub reserved: u32,
    pub obj_addr: u64,
    pub offset: u64,
    pub size: u64,
}

/// Task information.
#[derive(Debug, Clone, Copy)]
pub struct RknpuTask {
    pub flags: u32,
    pub op_idx: u32,
    pub enable_mask: u32,
    pub int_mask: u32,
    pub int_clear: u32,
    pub int_status: u32,
    pub regcfg_amount: u32,
    pub regcfg_offset: u32,
    pub regcmd_addr: u64,
}

/// Subcore task index.
#[derive(Debug, Clone, Copy)]
pub struct RknpuSubcoreTask {
    pub task_start: u32,
    pub task_number: u32,
}

/// Job submit.
#[derive(Debug, Clone, Copy)]
pub struct RknpuSubmit {
    pub flags: u32,
    pub timeout: u32,
    pub task_start: u32,
    pub task_number: u32,
    pub task_counter: u32,
    pub priority: i32,
    pub task_obj_addr: u64,
    pub regcfg_obj_addr: u64,
    pub task_base_addr: u64,
    pub user_data: u64,
    pub core_mask: u32,
    pub fence_fd: i32,
    pub subcore_task: [RknpuSubcoreTask; 5],
}

/// Action (GET, SET or ACT).
#[derive(Debug, Clone, Copy)]
pub struct RknpuActionStruct {
    pub flags: u32,
    pub value: u32,
}

/// The memory-create request for `size` bytes with the caller's `flags`,
/// always non-cacheable; the driver fills in handle and addresses.
pub fn mem_create_request(size: usize, flags: u32) -> (r: RknpuMemCreate)
    ensures
        r.handle == 0,
        r.flags == flags | RKNPU_MEM_NON_CACHEABLE,
        r.size == size as u64,
        r.obj_addr == 0,
        r.dma_addr == 0,
        r.sram_size == 0,
{
    RknpuMemCreate {
        handle: 0,
        flags: flags | RKNPU_MEM_NON_CACHEABLE,
        size: size as u64,
        obj_addr: 0,
        dma_addr: 0,
        sram_size: 0,
    }
}

/// The request for the mmap offset of the buffer `handle`.
pub fn mem_map_request(handle: u32) -> (r: RknpuMemMap)
    ensures
        r.handle == handle,
        r.reserved == 0,
        r.offset == 0,
{
    RknpuMemMap { handle, reserved: 0, offset: 0 }
}

/// The request that destroys the buffer `handle` at `obj_addr`.
pub fn mem_destroy_request(handle: u32, obj_addr: u64) -> (r: RknpuMemDestroy)
    ensures
        r.handle == handle,
        r.reserved == 0,
        r.obj_addr == obj_addr,
{
    RknpuMemDestroy { handle, reserved: 0, obj_addr }
}

/// The action request that resets the NPU.
pub fn reset_action() -> (r: RknpuActionStruct)
    ensures
        r.flags == action_code(RknpuAction::ActReset),
        r.value == 0,
{
    RknpuActionStruct { flags: RknpuAction::ActReset.code(), value: 0 }
}

// IOCTL command numbers
pub const RKNPU_ACTION: u32 = 0x00;

pub const RKNPU_SUBMIT: u32 = 0x01;

pub const RKNPU_MEM_CREATE: u32 = 0x02;

pub const RKNPU_MEM_MAP: u32 = 0x03;

pub const RKNPU_MEM_DESTROY: u32 = 0x04;

pub const RKNPU_MEM_SYNC: u32 = 0x05;

/// DRM command base (from libdrm/drm.h).
pub const DRM_COMMAND_BASE: u32 = 0x40;

/// IOCTL magic for DRM (`b'd'`).
pub const DRM_IOCTL_BASE: u8 = 0x64;

} // verus!
