use rk3588_rs::job::{matmul_task, single_task_submit};
use rk3588_rs::ioctl::{RKNPU_JOB_PC, RKNPU_JOB_PINGPONG, RKNPU_PC_DATA_EXTRA_AMOUNT};
use rk3588_rs::matmul::{gen_matmul_fp16, MatmulParams};

#[test]
fn task_descriptor_of_a_register_list() {
    let t = matmul_task(0x1234_5000, 112);
    assert_eq!(t.flags, 0);
    assert_eq!(t.op_idx, 0);
    assert_eq!(t.enable_mask, 0xd);
    assert_eq!(t.int_mask, 0x300);
    assert_eq!(t.int_clear, 0x1ffff);
    assert_eq!(t.int_status, 0);
    assert_eq!(t.regcfg_amount, 104);
    assert_eq!(t.regcfg_offset, 0);
    assert_eq!(t.regcmd_addr, 0x1234_5000);
}

#[test]
fn task_enables_what_its_list_starts() {
    let mut p = MatmulParams {
        m: 4,
        k: 64,
        n: 16,
        input_dma: 0,
        weights_dma: 0,
        output_dma: 0,
        tasks: vec![0; 112],
        fp32tofp16: 0,
    };
    gen_matmul_fp16(&mut p).unwrap();
    let t = matmul_task(0, p.tasks.len() as u32);
    assert_eq!((p.tasks[107] >> 16) & 0xffff_ffff, t.enable_mask as u64);
    assert_eq!(t.regcfg_amount + RKNPU_PC_DATA_EXTRA_AMOUNT + 4, p.tasks.len() as u32);
    // the smallest list the descriptor accepts has no register configuration
    assert_eq!(matmul_task(0, 8).regcfg_amount, 0);
}

#[test]
fn one_task_submit() {
    let s = single_task_submit(0xabcd);
    assert_eq!(s.flags, RKNPU_JOB_PC | RKNPU_JOB_PINGPONG);
    assert_eq!(s.flags, 5);
    assert_eq!(s.timeout, 6000);
    assert_eq!(s.task_start, 0);
    assert_eq!(s.task_number, 1);
    assert_eq!(s.task_counter, 0);
    assert_eq!(s.priority, 0);
    assert_eq!(s.task_obj_addr, 0xabcd);
    assert_eq!(s.regcfg_obj_addr, 0);
    assert_eq!(s.task_base_addr, 0);
    assert_eq!(s.user_data, 0);
    assert_eq!(s.core_mask, 1);
    assert_eq!(s.fence_fd, -1);
    let starts: Vec<(u32, u32)> =
        s.subcore_task.iter().map(|t| (t.task_start, t.task_number)).collect();
    assert_eq!(starts, vec![(0, 1), (1, 0), (2, 0), (0, 0), (0, 0)]);
}
