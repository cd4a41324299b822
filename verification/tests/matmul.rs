use rk3588_rs::hw::{npuop, NPU_CBUF_BANKS, OP_REG_CNA, CNA_CONV_CON1};
use rk3588_rs::matmul::{
    feature_data, gen_matmul_fp16, gen_matmul_int8, gen_matmul_task, weight_fp16, weight_int8,
    MatmulParams,
};
use rk3588_rs::cna::{NpuCnaDesc, NpuCoreDesc};
use rk3588_rs::dpu::NpuDpuDesc;
use rk3588_rs::task::{TASK_BUFFER_LEN, TASK_REGCMD_COUNT};

fn params(m: u16, k: u16, n: u16, fp32tofp16: u8) -> MatmulParams {
    MatmulParams {
        m,
        k,
        n,
        input_dma: 0x1000_0000,
        weights_dma: 0x2000_0000,
        output_dma: 0x3000_0000,
        tasks: vec![0xdead_beef_u64; TASK_BUFFER_LEN],
        fp32tofp16,
    }
}

fn cmd(op: u64, value: u64, reg: u64) -> u64 {
    (op << 48) | (value << 16) | reg
}

#[test]
fn fp16_matmul_4_64_16_register_list() {
    let mut p = params(4, 64, 16, 0);
    assert_eq!(gen_matmul_fp16(&mut p), Ok(()));
    let t = &p.tasks;
    // DPU status pointer first
    assert_eq!(t[0], cmd(0x1001, 0xE, 0x4004));
    // CONV_CON1: proc precision fp16 (2) << 7 | in precision fp16 (2) << 4 | direct convolution
    assert_eq!(t[1], cmd(0x0201, (2 << 7) | (2 << 4), 0x100c));
    // CONV_CON2: feature grains m + 1
    assert_eq!(t[2], cmd(0x0201, 5 << 4, 0x1010));
    // DATA_SIZE0: width 1, height m
    assert_eq!(t[4], cmd(0x0201, (1 << 16) | 4, 0x1020));
    // DATA_SIZE1: channel - 1 and channel
    assert_eq!(t[5], cmd(0x0201, (63 << 16) | 64, 0x1024));
    // WEIGHT_SIZE0: weight bytes 64 * 2 * 16, WEIGHT_SIZE1: bytes per kernel
    assert_eq!(t[8], cmd(0x0201, 2048, 0x1030));
    assert_eq!(t[9], cmd(0x0201, 128, 0x1034));
    // CBUF_CON0: 512 feature bytes take one bank, the other eleven hold weights
    assert_eq!(t[11], cmd(0x0201, (11 << 4) | 1, 0x1040));
    // CBUF_CON1: data entries ceil(64 / 32)
    assert_eq!(t[12], cmd(0x0201, 2, 0x1044));
    // DMA_CON2: surface stride 4 * (4 / 4 - 1) = 0
    assert_eq!(t[25], cmd(0x0201, 0, 0x1080));
    assert_eq!(t[21], cmd(0x0201, 0x1000_0000, 0x1070));
    assert_eq!(t[30], cmd(0x0201, 0x2000_0000, 0x1110));
    // CORE: misc cfg fp16 with qd_en, output size m - 1
    assert_eq!(t[49], cmd(0x0801, (2 << 8) | 1, 0x3010));
    assert_eq!(t[50], cmd(0x0801, 3 << 16, 0x3014));
    assert_eq!(t[51], cmd(0x0801, 15, 0x3018));
    // DPU data format: out fp32 (5), in fp16, proc fp16
    assert_eq!(t[55], cmd(0x1001, (5 << 29) | (2 << 26) | 2, 0x4010));
    assert_eq!(t[57], cmd(0x1001, 0x3000_0000, 0x4020));
    assert_eq!(t[58], cmd(0x1001, 4 << 4, 0x4024));
    // BS_OW_CFG: size_e 3 everywhere, od bypass
    assert_eq!(t[67], cmd(0x1001, (3 << 8) | (3 << 5) | (3 << 2) | 2, 0x4050));
    // SURFACE_ADD: m * 4 bytes per element, shifted by 4
    assert_eq!(t[90], cmd(0x1001, 16 << 4, 0x40c0));
    // closing commands
    assert_eq!(t[104], 0);
    assert_eq!(t[105], cmd(0x0081, 0, 0x0014));
    assert_eq!(t[106], cmd(0x0041, 0, 0));
    assert_eq!(t[107], cmd(0x0081, 0xd, 0x0008));
    // words after the register list are left alone
    for i in TASK_REGCMD_COUNT..TASK_BUFFER_LEN {
        assert_eq!(t[i], 0xdead_beef);
    }
}

#[test]
fn fp16_matmul_fp16_output() {
    let mut p = params(8, 32, 32, 1);
    assert_eq!(gen_matmul_fp16(&mut p), Ok(()));
    let t = &p.tasks;
    assert_eq!(t[55], cmd(0x1001, (2 << 29) | (2 << 26) | 2, 0x4010));
    assert_eq!(t[67], cmd(0x1001, (1 << 8) | (1 << 5) | (1 << 2) | 2, 0x4050));
    assert_eq!(t[80], cmd(0x1001, (1 << 16) | 1, 0x4084));
    assert_eq!(t[90], cmd(0x1001, 16 << 4, 0x40c0));
    // m = 8: surface stride 4 * (8 / 4 - 1)
    assert_eq!(t[25], cmd(0x0201, 4, 0x1080));
}

#[test]
fn fp16_matmul_small_m_negative_surface_stride() {
    let mut p = params(2, 32, 16, 0);
    assert_eq!(gen_matmul_fp16(&mut p), Ok(()));
    // 4 * (2 / 4 - 1) = -4, raised by one to -3, masked to 28 bits
    assert_eq!(p.tasks[25], cmd(0x0201, (-3i32 as u32 & 0xFFFFFFF) as u64, 0x1080));
}

#[test]
fn fp16_matmul_feature_data_exceeds_cbuf() {
    let mut p = params(1000, 500, 16, 0);
    assert_eq!(gen_matmul_fp16(&mut p), Err(-1));
    assert!(p.tasks.iter().all(|&w| w == 0xdead_beef));
}

#[test]
fn fp16_matmul_kernel_weights_exceed_bank() {
    let mut p = params(1, 20000, 2, 0);
    assert_eq!(gen_matmul_fp16(&mut p), Err(-2));
    assert!(p.tasks.iter().all(|&w| w == 0xdead_beef));
}

#[test]
fn fp16_matmul_uses_all_but_one_bank() {
    // 11 banks of feature data: 11 * 32768 bytes exactly
    let mut p = params(176, 1024, 1, 0);
    assert_eq!(gen_matmul_fp16(&mut p), Ok(()));
    assert_eq!(p.tasks[11], cmd(0x0201, (1 << 4) | 11, 0x1040));
    // one byte more needs a twelfth bank
    let mut q = params(177, 1024, 1, 0);
    assert_eq!(gen_matmul_fp16(&mut q), Err(-1));
    assert_eq!(NPU_CBUF_BANKS, 12);
}

#[test]
fn int8_matmul_register_list() {
    let mut p = params(4, 100, 40, 0);
    assert_eq!(gen_matmul_int8(&mut p), Ok(()));
    let t = &p.tasks;
    assert_eq!(t[1], cmd(0x0201, 0, 0x100c));
    assert_eq!(t[8], cmd(0x0201, 4000, 0x1030));
    assert_eq!(t[9], cmd(0x0201, 100, 0x1034));
    // 400 feature bytes: one bank; data entries ceil(100 / 64)
    assert_eq!(t[11], cmd(0x0201, (11 << 4) | 1, 0x1040));
    assert_eq!(t[12], cmd(0x0201, 2, 0x1044));
    assert_eq!(t[49], cmd(0x0801, 0, 0x3010));
    assert_eq!(t[55], cmd(0x1001, 4 << 29, 0x4010));
    assert_eq!(t[67], cmd(0x1001, (7 << 8) | (7 << 5) | (7 << 2) | 2, 0x4050));
    assert_eq!(t[90], cmd(0x1001, 32 << 4, 0x40c0));
}

#[test]
fn int8_matmul_errors() {
    let mut p = params(2000, 300, 16, 0);
    assert_eq!(gen_matmul_int8(&mut p), Err(-1));
    let mut q = params(1, 40000, 16, 0);
    assert_eq!(gen_matmul_int8(&mut q), Err(-2));
}

#[test]
fn task_list_from_descriptors() {
    let mut ops = vec![7u64; 112];
    let cna = NpuCnaDesc { proc_precision: 2, in_precision: 2, ..Default::default() };
    let core = NpuCoreDesc::default();
    let dpu = NpuDpuDesc::default();
    gen_matmul_task(&mut ops, &cna, &core, &dpu);
    assert_eq!(ops[1], npuop(OP_REG_CNA, (2 << 7) | (2 << 4), CNA_CONV_CON1));
    // a zero channel count wraps to 0xFFFF in DATA_SIZE1
    assert_eq!(ops[5], cmd(0x0201, 0xFFFF << 16, 0x1024));
    assert_eq!(ops[77], cmd(0x1001, 1, 0x4078));
    assert_eq!(&ops[108..], &[7, 7, 7, 7]);
}

#[test]
fn weight_fp16_positions() {
    assert_eq!(weight_fp16(64, 1, 1), 0);
    assert_eq!(weight_fp16(64, 1, 2), 1);
    assert_eq!(weight_fp16(64, 2, 1), 32);
    assert_eq!(weight_fp16(64, 1, 33), 512);
    assert_eq!(weight_fp16(64, 17, 1), 1024);
    assert_eq!(weight_fp16(64, 16, 64), 15 * 32 + 512 + 31);
}

#[test]
fn weight_int8_positions() {
    assert_eq!(weight_int8(64, 1, 1), 0);
    assert_eq!(weight_int8(64, 2, 1), 32);
    assert_eq!(weight_int8(64, 1, 33), 1024);
    assert_eq!(weight_int8(64, 33, 1), 2048);
}

#[test]
fn weight_fp16_layout_is_a_permutation() {
    let (c, kernels) = (64, 32);
    let mut seen = vec![false; (c * kernels) as usize];
    for k in 1..=kernels {
        for cv in 1..=c {
            let pos = weight_fp16(c, k, cv);
            assert!(pos >= 0 && pos < c * kernels);
            assert!(!seen[pos as usize]);
            seen[pos as usize] = true;
        }
    }
    assert!(seen.iter().all(|&s| s));
}

#[test]
fn weight_int8_layout_is_a_permutation() {
    let (c, kernels) = (96, 64);
    let mut seen = vec![false; (c * kernels) as usize];
    for k in 1..=kernels {
        for cv in 1..=c {
            let pos = weight_int8(c, k, cv);
            assert!(pos >= 0 && pos < c * kernels);
            assert!(!seen[pos as usize]);
            seen[pos as usize] = true;
        }
    }
    assert!(seen.iter().all(|&s| s));
}

#[test]
fn feature_data_positions() {
    assert_eq!(feature_data(64, 4, 1, 8, 1, 1, 1), 0);
    assert_eq!(feature_data(64, 4, 1, 8, 2, 1, 1), 1);
    assert_eq!(feature_data(64, 4, 1, 8, 1, 2, 1), 8);
    assert_eq!(feature_data(64, 4, 1, 8, 9, 1, 1), 32);
    assert_eq!(feature_data(16, 4, 1, 4, 5, 3, 1), 16 + 8);
    // channel 0 lies before the plane: truncating division and remainder
    assert_eq!(feature_data(64, 4, 1, 8, 0, 1, 1), -1);
    assert_eq!(feature_data(64, 4, 1, 8, -8, 1, 1), -32 - 1);
}

#[test]
fn feature_layout_is_injective() {
    let (c, h, w, c2) = (20, 3, 5, 8);
    let planes = (c + c2 - 1) / c2;
    let mut seen = vec![false; (planes * h * w * c2) as usize];
    for cv in 1..=c {
        for hv in 1..=h {
            for wv in 1..=w {
                let pos = feature_data(c, h, w, c2, cv, hv, wv);
                assert!(pos >= 0 && pos < planes * h * w * c2);
                assert!(!seen[pos as usize]);
                seen[pos as usize] = true;
            }
        }
    }
}

#[test]
fn weight_index_table_matches_weight_fp16() {
    let (c, kernels, channels) = (64, 16, 36);
    let table = rk3588_rs::matmul::weight_fp16_indices(c, kernels, channels);
    assert_eq!(table.len(), (kernels * channels) as usize);
    for n in 1..=kernels {
        for k in 1..=channels {
            let i = ((n - 1) * channels + (k - 1)) as usize;
            assert_eq!(table[i], weight_fp16(c, n, k) as usize);
        }
    }
    let mut sorted = table.clone();
    sorted.sort();
    sorted.dedup();
    assert_eq!(sorted.len(), table.len());
}

#[test]
fn feature_index_table_matches_feature_data() {
    let (rows, cols, c2) = (4, 36, 8);
    let table = rk3588_rs::matmul::matrix_feature_indices(rows, cols, c2);
    assert_eq!(table.len(), (rows * cols) as usize);
    for m in 1..=rows {
        for k in 1..=cols {
            let i = ((m - 1) * cols + (k - 1)) as usize;
            assert_eq!(table[i], feature_data(64, rows, 1, c2, k, m, 1) as usize);
        }
    }
    assert!(rk3588_rs::matmul::matrix_feature_indices(0, 5, 4).is_empty());
    assert!(rk3588_rs::matmul::matrix_feature_indices(5, 0, 4).is_empty());
}
