//! The task and job descriptors that hand a generated register list to the
//! driver as one PC-mode job on one core.
use vstd::prelude::*;
use crate::hw::{regcmd_value, PC_ENABLE, PC_ENABLE_CNA, PC_ENABLE_DPU};
use crate::cna::{NpuCnaDesc, NpuCoreDesc};
use crate::dpu::NpuDpuDesc;
use crate::task::task_regcmds;
use crate::matmul::lemma_task_ends_with_enable;
use crate::ioctl::{
    RknpuSubcoreTask, RknpuSubmit, RknpuTask, RKNPU_INT_CLEAR, RKNPU_JOB_BLOCK, RKNPU_JOB_NONBLOCK,
    RKNPU_JOB_PC, RKNPU_JOB_PINGPONG, RKNPU_PC_DATA_EXTRA_AMOUNT,
};

verus! {

/// Interrupt mask that signals the end of a task when the DPU has finished.
pub const DPU_DONE_INT_MASK: u32 = 0x300;

/// Timeout of a job in milliseconds.
pub const JOB_TIMEOUT_MS: u32 = 6000;

/// The task descriptor of a matrix-multiplication task whose register list
/// of `regcmd_len` words lies at DMA address `regcmd_addr`: the PC fetches
/// all but the closing `RKNPU_PC_DATA_EXTRA_AMOUNT + 4` words as register
/// configuration, the task starts the PC, CNA and DPU, and it completes when
/// the DPU does.
pub open spec fn matmul_task_spec(regcmd_addr: u64, regcmd_len: u32) -> RknpuTask {
    RknpuTask {
        flags: 0,
        op_idx: 0,
        enable_mask: PC_ENABLE_DPU | PC_ENABLE_CNA | PC_ENABLE,
        int_mask: DPU_DONE_INT_MASK,
        int_clear: RKNPU_INT_CLEAR,
        int_status: 0,
        regcfg_amount: (regcmd_len - (RKNPU_PC_DATA_EXTRA_AMOUNT + 4)) as u32,
        regcfg_offset: 0,
        regcmd_addr: regcmd_addr,
    }
}

/// Build the task descriptor of a matrix-multiplication task (see
/// `matmul_task_spec`).
pub fn matmul_task(regcmd_addr: u64, regcmd_len: u32) -> (t: RknpuTask)
    requires
        regcmd_len >= RKNPU_PC_DATA_EXTRA_AMOUNT + 4,
    ensures
        t == matmul_task_spec(regcmd_addr, regcmd_len),
{
    RknpuTask {
        flags: 0,
        op_idx: 0,
        enable_mask: PC_ENABLE_DPU | PC_ENABLE_CNA | PC_ENABLE,
        int_mask: DPU_DONE_INT_MASK,
        int_clear: RKNPU_INT_CLEAR,
        int_status: 0,
        regcfg_amount: regcmd_len - (RKNPU_PC_DATA_EXTRA_AMOUNT + 4),
        regcfg_offset: 0,
        regcmd_addr: regcmd_addr,
    }
}

/// The submission of a blocking PC-mode job of one task, taken from the task
/// object at `task_obj_addr`, run on core 0 alone.
pub open spec fn single_task_submit_spec(task_obj_addr: u64) -> RknpuSubmit {
    RknpuSubmit {
        flags: RKNPU_JOB_PC | RKNPU_JOB_BLOCK | RKNPU_JOB_PINGPONG,
        timeout: JOB_TIMEOUT_MS,
        task_start: 0,
        task_number: 1,
        task_counter: 0,
        priority: 0,
        task_obj_addr: task_obj_addr,
        regcfg_obj_addr: 0,
        task_base_addr: 0,
        user_data: 0,
        core_mask: 1,
        fence_fd: -1i32,
        subcore_task: [
            RknpuSubcoreTask { task_start: 0, task_number: 1 },
            RknpuSubcoreTask { task_start: 1, task_number: 0 },
            RknpuSubcoreTask { task_start: 2, task_number: 0 },
            RknpuSubcoreTask { task_start: 0, task_number: 0 },
            RknpuSubcoreTask { task_start: 0, task_number: 0 },
        ],
    }
}

/// Build the submission of a one-task job (see `single_task_submit_spec`).
pub fn single_task_submit(task_obj_addr: u64) -> (s: RknpuSubmit)
    ensures
        s == single_task_submit_spec(task_obj_addr),
{
    RknpuSubmit {
        flags: RKNPU_JOB_PC | RKNPU_JOB_BLOCK | RKNPU_JOB_PINGPONG,
        timeout: JOB_TIMEOUT_MS,
        task_start: 0,
        task_number: 1,
        task_counter: 0,
        priority: 0,
        task_obj_addr: task_obj_addr,
        regcfg_obj_addr: 0,
        task_base_addr: 0,
        user_data: 0,
        core_mask: 1,
        fence_fd: -1,
        subcore_task: [
            RknpuSubcoreTask { task_start: 0, task_number: 1 },
            RknpuSubcoreTask { task_start: 1, task_number: 0 },
            RknpuSubcoreTask { task_start: 2, task_number: 0 },
            RknpuSubcoreTask { task_start: 0, task_number: 0 },
            RknpuSubcoreTask { task_start: 0, task_number: 0 },
        ],
    }
}

/// Law of a task and its register list: the units that the task descriptor
/// enables are exactly those that the list's closing command starts, and the
/// register configuration that the PC fetches plus the closing words make up
/// the whole list.
pub proof fn lemma_task_matches_register_list(
    c: NpuCnaDesc,
    k: NpuCoreDesc,
    d: NpuDpuDesc,
    regcmd_addr: u64,
    regcmd_len: u32,
)
    requires
        regcmd_len >= RKNPU_PC_DATA_EXTRA_AMOUNT + 4,
    ensures
        regcmd_value(task_regcmds(c, k, d)[107]) == matmul_task_spec(regcmd_addr, regcmd_len).enable_mask,
        matmul_task_spec(regcmd_addr, regcmd_len).regcfg_amount + RKNPU_PC_DATA_EXTRA_AMOUNT + 4
            == regcmd_len,
{
    lemma_task_ends_with_enable(c, k, d);
}

/// Law of a job submission: whatever the address of the task object, the
/// submission names exactly that object (all 64 bits of it), asks for one
/// task starting at task 0, runs it on core 0 alone in PC mode and blocks
/// until it completes.
pub proof fn lemma_single_task_submit(task_obj_addr: u64)
    ensures
        single_task_submit_spec(task_obj_addr).task_obj_addr == task_obj_addr,
        single_task_submit_spec(task_obj_addr).task_start == 0,
        single_task_submit_spec(task_obj_addr).task_number == 1,
        single_task_submit_spec(task_obj_addr).core_mask == 1,
        single_task_submit_spec(task_obj_addr).subcore_task@[0].task_start == 0,
        single_task_submit_spec(task_obj_addr).subcore_task@[0].task_number == 1,
        forall|i: int|
            1 <= i < 5 ==> #[trigger] single_task_submit_spec(task_obj_addr).subcore_task@[i].task_number
                == 0,
        single_task_submit_spec(task_obj_addr).flags & RKNPU_JOB_PC == RKNPU_JOB_PC,
        single_task_submit_spec(task_obj_addr).flags & RKNPU_JOB_NONBLOCK == 0,
        single_task_submit_spec(task_obj_addr).timeout == JOB_TIMEOUT_MS,
{
    assert(((1u32 << 0u32) | (0u32 << 1u32) | (1u32 << 2u32)) & (1u32 << 0u32) == (1u32 << 0u32)
        && ((1u32 << 0u32) | (0u32 << 1u32) | (1u32 << 2u32)) & (1u32 << 1u32) == 0u32)
        by (bit_vector);
}

/// Law of two submissions: submissions built for different task objects
/// differ, so no two task objects share a submission.
pub proof fn lemma_single_task_submit_injective(a: u64, b: u64)
    ensures
        single_task_submit_spec(a) == single_task_submit_spec(b) <==> a == b,
{
    if single_task_submit_spec(a) == single_task_submit_spec(b) {
        assert(single_task_submit_spec(a).task_obj_addr == single_task_submit_spec(b).task_obj_addr);
    }
}

/// Law of a task descriptor: it points the PC at exactly the register list
/// it is given (all 64 bits of its address), starts at the list's first
/// word, enables the PC, CNA and DPU, and fetches all but the closing
/// `RKNPU_PC_DATA_EXTRA_AMOUNT + 4` words.
pub proof fn lemma_matmul_task(regcmd_addr: u64, regcmd_len: u32)
    requires
        regcmd_len >= RKNPU_PC_DATA_EXTRA_AMOUNT + 4,
    ensures
        matmul_task_spec(regcmd_addr, regcmd_len).regcmd_addr == regcmd_addr,
        matmul_task_spec(regcmd_addr, regcmd_len).regcfg_offset == 0,
        matmul_task_spec(regcmd_addr, regcmd_len).regcfg_amount == regcmd_len
            - RKNPU_PC_DATA_EXTRA_AMOUNT - 4,
        matmul_task_spec(regcmd_addr, regcmd_len).enable_mask == PC_ENABLE_DPU | PC_ENABLE_CNA
            | PC_ENABLE,
        matmul_task_spec(regcmd_addr, regcmd_len).int_mask == DPU_DONE_INT_MASK,
{
}

} // verus!
