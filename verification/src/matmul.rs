//! Matrix multiplication on the NPU: the task register list, the FP16 and
//! INT8 task generators, and the positions of elements in the NPU's feature
//! and weight layouts.
use vstd::prelude::*;
use crate::hw::{
    CNA_CBUF_CON0, CNA_CBUF_CON1, CNA_CONV_CON1, CNA_CONV_CON2, CNA_CONV_CON3, CNA_CVT_CON0,
    CNA_CVT_CON1, CNA_CVT_CON2, CNA_CVT_CON3, CNA_CVT_CON4, CNA_CVT_CON5, CNA_DATA_SIZE0,
    CNA_DATA_SIZE1, CNA_DATA_SIZE2, CNA_DATA_SIZE3, CNA_DCOMP_ADDR0, CNA_DCOMP_AMOUNT,
    CNA_DCOMP_AMOUNT1, CNA_DCOMP_AMOUNT10, CNA_DCOMP_AMOUNT11, CNA_DCOMP_AMOUNT12,
    CNA_DCOMP_AMOUNT13, CNA_DCOMP_AMOUNT14, CNA_DCOMP_AMOUNT15, CNA_DCOMP_AMOUNT2,
    CNA_DCOMP_AMOUNT3, CNA_DCOMP_AMOUNT4, CNA_DCOMP_AMOUNT5, CNA_DCOMP_AMOUNT6, CNA_DCOMP_AMOUNT7,
    CNA_DCOMP_AMOUNT8, CNA_DCOMP_AMOUNT9, CNA_DCOMP_CTRL, CNA_DCOMP_REGNUM, CNA_DMA_CON0,
    CNA_DMA_CON1, CNA_DMA_CON2, CNA_FC_CON0, CNA_FC_CON1, CNA_FC_CON2, CNA_FC_DATA_SIZE0,
    CNA_FC_DATA_SIZE1, CNA_FEATURE_DATA_ADDR, CNA_PAD_CON0, CNA_PAD_CON1, CNA_WEIGHT_SIZE0,
    CNA_WEIGHT_SIZE1, CNA_WEIGHT_SIZE2, CORE_3030, CORE_CLIP_TRUNCATE, CORE_DATAOUT_SIZE_0,
    CORE_DATAOUT_SIZE_1, CORE_MISC_CFG, ConvMode, DPU_40C4, DPU_BN_ALU_CFG, DPU_BN_CFG,
    DPU_BN_MUL_CFG, DPU_BN_RELUX_CMP_VALUE, DPU_BS_ALU_CFG, DPU_BS_CFG, DPU_BS_MUL_CFG,
    DPU_BS_OW_CFG, DPU_BS_OW_OP, DPU_BS_RELUX_CMP_VALUE, DPU_DATA_CUBE_CHANNEL,
    DPU_DATA_CUBE_HEIGHT, DPU_DATA_CUBE_NOTCH_ADDR, DPU_DATA_CUBE_WIDTH, DPU_DATA_FORMAT,
    DPU_DST_BASE_ADD, DPU_DST_SURF_STRIDE, DPU_EW_CFG, DPU_EW_CVT_OFFSET_VALUE,
    DPU_EW_CVT_SCALE_VALUE, DPU_EW_OP_VALUE_0, DPU_EW_OP_VALUE_1, DPU_EW_OP_VALUE_2,
    DPU_EW_OP_VALUE_3, DPU_EW_OP_VALUE_4, DPU_EW_OP_VALUE_5, DPU_EW_OP_VALUE_6, DPU_EW_OP_VALUE_7,
    DPU_EW_RELUX_CMP_VALUE, DPU_FEATURE_MODE_CFG, DPU_LUT_ACCESS_CFG, DPU_LUT_ACCESS_DATA,
    DPU_LUT_CFG, DPU_LUT_INFO, DPU_LUT_LE_END, DPU_LUT_LE_SLOPE_SCALE, DPU_LUT_LE_SLOPE_SHIFT,
    DPU_LUT_LE_START, DPU_LUT_LO_END, DPU_LUT_LO_SLOPE_SCALE, DPU_LUT_LO_SLOPE_SHIFT,
    DPU_LUT_LO_START, DPU_OFFSET_PEND, DPU_OUT_CVT_OFFSET, DPU_OUT_CVT_SCALE, DPU_OUT_CVT_SHIFT,
    DPU_SURFACE_ADD, DPU_S_POINTER, DPU_WDMA_SIZE_0, DPU_WDMA_SIZE_1, NPU_CBUF_BANKS,
    NPU_CBUF_BANK_SIZE, OP_40, OP_ENABLE, OP_NONE, OP_REG_CNA, OP_REG_CORE, OP_REG_DPU, OP_REG_PC,
    PC_ENABLE, PC_ENABLE_CNA, PC_ENABLE_DPU, PC_OPERATION_ENABLE, PC_REGISTER_AMOUNTS, Precision,
    conv_mode_code, lemma_regcmd_fields, npuop, precision_code, regcmd_op, regcmd_reg,
    regcmd_value,
};
use crate::cna::{NpuCnaDesc, NpuCoreDesc};
use crate::dpu::NpuDpuDesc;
use crate::task::{
    TASK_BUFFER_LEN, TASK_REGCMD_COUNT, lemma_task_cna_dma_registers, lemma_task_cna_registers,
    lemma_task_core_registers, lemma_task_dpu_output_registers, lemma_task_dpu_registers,
    task_regcmds,
};

verus! {

/// Parameters of a matrix multiplication `C = A * B` with `A` of `m` rows and
/// `k` columns, `B` of `k` rows and `n` columns.
///
/// `tasks` is the task memory that receives the register list; it must hold
/// at least `TASK_BUFFER_LEN` words.
#[derive(Debug)]
pub struct MatmulParams {
    pub m: u16,
    pub k: u16,
    pub n: u16,
    pub input_dma: u32,
    pub weights_dma: u32,
    pub output_dma: u32,
    pub tasks: Vec<u64>,
    pub fp32tofp16: u8,
}

/// `a / b` rounded up.
pub open spec fn ceil_div(a: int, b: int) -> int {
    (a + b - 1) / b
}

/// Number of bytes of the feature data (the `m` x `k` input matrix) with
/// elements of `elem_bytes` bytes.
pub open spec fn feature_bytes(m: int, k: int, elem_bytes: int) -> int {
    m * k * elem_bytes
}

/// Number of CBUF banks that the feature data takes.
pub open spec fn feature_banks(m: int, k: int, elem_bytes: int) -> int {
    ceil_div(feature_bytes(m, k, elem_bytes), NPU_CBUF_BANK_SIZE as int)
}

/// A single task can hold the multiplication: the feature data leaves at
/// least one CBUF bank free for the weights, and the weights of one kernel
/// (one column of `B`) fit in one bank.
pub open spec fn fits_in_cbuf(m: int, k: int, elem_bytes: int) -> bool {
    &&& feature_banks(m, k, elem_bytes) <= NPU_CBUF_BANKS as int - 1
    &&& k * elem_bytes <= NPU_CBUF_BANK_SIZE as int
}

/// The error that the task generators return for `m`, `k`, or `None` when the
/// multiplication fits: `-1` when the feature data exceeds the CBUF, `-2` when
/// the weights of one kernel exceed a bank.
pub open spec fn cbuf_error(m: int, k: int, elem_bytes: int) -> Option<i32> {
    if feature_banks(m, k, elem_bytes) > NPU_CBUF_BANKS as int - 1 {
        Some(-1i32)
    } else if k * elem_bytes > NPU_CBUF_BANK_SIZE as int {
        Some(-2i32)
    } else {
        None
    }
}

/// Surface stride of the feature data: `line_stride * (height / 4 - 1)`,
/// raised by one when negative.
pub open spec fn feature_surf_stride(line_stride: int, height: int) -> int {
    let s = line_stride * (height / 4 - 1);
    if s < 0 {
        s + 1
    } else {
        s
    }
}

/// CNA set-up of a matrix multiplication whose elements have `elem_bytes`
/// bytes, in precision `prec`, with `entry_elems` elements per CBUF entry.
pub open spec fn matmul_cna_desc(p: MatmulParams, prec: u8, elem_bytes: int, entry_elems: int) -> NpuCnaDesc {
    NpuCnaDesc {
        conv_mode: conv_mode_code(ConvMode::DirectConvolution),
        in_precision: prec,
        proc_precision: prec,
        kernel_groups: 0,
        feature_grains: (p.m + 1) as u16,
        conv_y_stride: 1,
        conv_x_stride: 1,
        datain_width: 1,
        datain_height: p.m,
        datain_channel: p.k,
        dataout_width: 1,
        dataout_height: p.m,
        dataout_atomics: p.m as u32,
        weight_bytes: (p.k * elem_bytes * p.n) as u32,
        weight_bytes_per_kernel: (p.k * elem_bytes) as u32,
        weight_width: 1,
        weight_height: 1,
        weight_kernels: p.n,
        weight_bank: (NPU_CBUF_BANKS - feature_banks(p.m as int, p.k as int, elem_bytes)) as u8,
        data_bank: feature_banks(p.m as int, p.k as int, elem_bytes) as u8,
        data_entries: ceil_div(p.k as int, entry_elems) as u16,
        data_sign: 1,
        cvt_type: 1,
        cvt_bypass: 1,
        cvt_scale0: 1,
        cvt_scale1: 1,
        cvt_scale2: 1,
        cvt_scale3: 1,
        fc_skip_en: 0,
        data_offset: 0,
        pad_left: 0,
        pad_top: 0,
        feature_base_addr: p.input_dma,
        weight_offset: 0,
        weight_burst_len: 0xf,
        data_burst_len: 0xf,
        line_stride: 4,
        surf_stride: feature_surf_stride(4, p.m as int) as i32,
        dma_width: 1,
        dma_height: p.m,
        dma_channel: p.k,
        decompress_addr0: p.weights_dma,
    }
}

/// CORE set-up of a matrix multiplication in precision `prec`.
pub open spec fn matmul_core_desc(p: MatmulParams, prec: u8, qd_en: u8) -> NpuCoreDesc {
    NpuCoreDesc {
        proc_precision: prec,
        qd_en: qd_en,
        dataout_height: (p.m - 1) as u16,
        dataout_width: 0,
        dataout_channel: (p.n - 1) as u16,
    }
}

/// DPU set-up of a matrix multiplication: input and processing in `prec`,
/// output in `out_prec` with `size_e` in the output-width fields and a surface
/// of `out_bytes` bytes per element.
pub open spec fn matmul_dpu_desc(
    p: MatmulParams,
    prec: u8,
    out_prec: u8,
    fp32tofp16_en: u8,
    size_e: u8,
    out_bytes: int,
) -> NpuDpuDesc {
    NpuDpuDesc {
        burst_len: 0xf,
        conv_mode: conv_mode_code(ConvMode::DirectConvolution),
        output_mode: 0x2,
        flying_mode: 0x0,
        out_precision: out_prec,
        in_precision: prec,
        proc_precision: prec,
        dst_base_addr: p.output_dma,
        dst_surf_stride: p.m as u32,
        width: 0,
        height: (p.m - 1) as u16,
        channel: (p.n - 1) as u16,
        bs_bypass: 1,
        bs_alu_bypass: 1,
        bs_mul_bypass: 1,
        bs_relu_bypass: 1,
        od_bypass: 1,
        size_e_0: size_e,
        size_e_1: size_e,
        size_e_2: size_e,
        channel_wdma: (p.n - 1) as u16,
        height_wdma: (p.m - 1) as u16,
        width_wdma: 0,
        bn_bypass: 1,
        bn_alu_bypass: 1,
        bn_mul_bypass: 1,
        bn_relu_bypass: 1,
        ew_bypass: 1,
        ew_op_bypass: 1,
        ew_lut_bypass: 1,
        ew_op_cvt_bypass: 1,
        ew_relu_bypass: 1,
        fp32tofp16_en: fp32tofp16_en,
        out_cvt_scale: 1,
        surf_add: (p.m * out_bytes) as u32,
    }
}

/// The CNA, CORE and DPU set-up of an FP16 multiplication: two-byte elements,
/// 32 per CBUF entry, output in FP32 or, when `fp32tofp16` is set, in FP16.
pub open spec fn fp16_descs(p: MatmulParams) -> (NpuCnaDesc, NpuCoreDesc, NpuDpuDesc) {
    let half_prec = precision_code(Precision::Float16);
    let to_f16 = p.fp32tofp16 != 0;
    (
        matmul_cna_desc(p, half_prec, 2, 32),
        matmul_core_desc(p, half_prec, 1),
        matmul_dpu_desc(
            p,
            half_prec,
            if to_f16 { half_prec } else { precision_code(Precision::Float32) },
            p.fp32tofp16 & 1,
            if to_f16 { 1 } else { 3 },
            if to_f16 { 2 } else { 4 },
        ),
    )
}

/// The CNA, CORE and DPU set-up of an INT8 multiplication: one-byte elements,
/// 64 per CBUF entry, output in INT32.
pub open spec fn int8_descs(p: MatmulParams) -> (NpuCnaDesc, NpuCoreDesc, NpuDpuDesc) {
    let int8_prec = precision_code(Precision::Int8);
    (
        matmul_cna_desc(p, int8_prec, 1, 64),
        matmul_core_desc(p, int8_prec, 0),
        matmul_dpu_desc(p, int8_prec, precision_code(Precision::Int32), 0, 7, 8),
    )
}

/// The register list of the FP16 multiplication task of `p`.
pub open spec fn fp16_regcmds(p: MatmulParams) -> Seq<u64> {
    let (c, k, d) = fp16_descs(p);
    task_regcmds(c, k, d)
}

/// The register list of the INT8 multiplication task of `p`.
pub open spec fn int8_regcmds(p: MatmulParams) -> Seq<u64> {
    let (c, k, d) = int8_descs(p);
    task_regcmds(c, k, d)
}

/// The inputs on which the FP16 generator computes without overflow: `m + 1`
/// and the weight size `2 * k * n` are representable, and when the task fits
/// the matrices are not empty; and the task memory holds a whole task.
pub open spec fn fp16_params_valid(p: MatmulParams) -> bool {
    &&& p.m < u16::MAX
    &&& p.k * 2 * p.n <= u32::MAX
    &&& fits_in_cbuf(p.m as int, p.k as int, 2) ==> p.m >= 1 && p.n >= 1
    &&& p.tasks@.len() >= TASK_BUFFER_LEN
}

/// The inputs on which the INT8 generator computes without overflow: `m + 1`
/// is representable, and when the task fits the matrices are not empty; and
/// the task memory holds a whole task.
pub open spec fn int8_params_valid(p: MatmulParams) -> bool {
    &&& p.m < u16::MAX
    &&& fits_in_cbuf(p.m as int, p.k as int, 1) ==> p.m >= 1 && p.n >= 1
    &&& p.tasks@.len() >= TASK_BUFFER_LEN
}

/// What a task generator leaves in `params`: on success the register list in
/// the first words of the task memory and everything else unchanged; on
/// failure `params` unchanged.
pub open spec fn generated(old_p: MatmulParams, new_p: MatmulParams, cmds: Seq<u64>) -> bool {
    &&& new_p.m == old_p.m
    &&& new_p.k == old_p.k
    &&& new_p.n == old_p.n
    &&& new_p.input_dma == old_p.input_dma
    &&& new_p.weights_dma == old_p.weights_dma
    &&& new_p.output_dma == old_p.output_dma
    &&& new_p.fp32tofp16 == old_p.fp32tofp16
    &&& new_p.tasks@.len() == old_p.tasks@.len()
    &&& new_p.tasks@.subrange(0, TASK_REGCMD_COUNT as int) == cmds
    &&& new_p.tasks@.subrange(TASK_REGCMD_COUNT as int, new_p.tasks@.len() as int)
        == old_p.tasks@.subrange(TASK_REGCMD_COUNT as int, old_p.tasks@.len() as int)
}

/// Generate the register list of a matrix-multiplication task into the first
/// `TASK_REGCMD_COUNT` words of `ops`; the words after them are left as they
/// were.
///
/// Only the CNA and CORE are used; the DPU writes the result to memory.
pub fn gen_matmul_task(
    ops: &mut [u64],
    cna_desc: &NpuCnaDesc,
    core_desc: &NpuCoreDesc,
    dpu_desc: &NpuDpuDesc,
)
    requires
        old(ops)@.len() >= TASK_REGCMD_COUNT,
    ensures
        final(ops)@.len() == old(ops)@.len(),
        final(ops)@.subrange(0, TASK_REGCMD_COUNT as int) == task_regcmds(
            *cna_desc,
            *core_desc,
            *dpu_desc,
        ),
        final(ops)@.subrange(TASK_REGCMD_COUNT as int, final(ops)@.len() as int) == old(
            ops,
        )@.subrange(TASK_REGCMD_COUNT as int, old(ops)@.len() as int),
{
    let cmds: [u64; 108] = [
        // 0..1: status pointer of the DPU
        npuop(OP_REG_DPU, 0xE, DPU_S_POINTER),
        // 1..49: CNA: convolution, data, weight, CBUF, conversion, padding and DMA set-up, decompression off
        npuop(
            OP_REG_CNA,
            ((cna_desc.proc_precision as u32 & 0x7) << 7) | ((cna_desc.in_precision as u32 & 0x7) << 4) | (
            cna_desc.conv_mode as u32 & 0xf),
            CNA_CONV_CON1,
        ),
        npuop(
            OP_REG_CNA,
            ((cna_desc.kernel_groups as u32 & 0xFF) << 16) | ((cna_desc.feature_grains as u32 & 0x3FF) << 4),
            CNA_CONV_CON2,
        ),
        npuop(
            OP_REG_CNA,
            ((cna_desc.conv_y_stride as u32 & 0x7) << 3) | (cna_desc.conv_x_stride as u32 & 0x7),
            CNA_CONV_CON3,
        ),
        npuop(
            OP_REG_CNA,
            ((cna_desc.datain_width as u32 & 0x7FF) << 16) | (cna_desc.datain_height as u32 & 0x7FF),
            CNA_DATA_SIZE0,
        ),
        npuop(
            OP_REG_CNA,
            ((cna_desc.datain_channel.wrapping_sub(1) as u32 & 0xFFFF) << 16) | (cna_desc.datain_channel as u32
                & 0xFFFF),
            CNA_DATA_SIZE1,
        ),
        npuop(OP_REG_CNA, cna_desc.dataout_width as u32 & 0x7FF, CNA_DATA_SIZE2),
        npuop(OP_REG_CNA, cna_desc.dataout_atomics & 0x3FFFF, CNA_DATA_SIZE3),
        npuop(OP_REG_CNA, cna_desc.weight_bytes, CNA_WEIGHT_SIZE0),
        npuop(OP_REG_CNA, cna_desc.weight_bytes_per_kernel & 0x7FFFF, CNA_WEIGHT_SIZE1),
        npuop(
            OP_REG_CNA,
            ((cna_desc.weight_width as u32 & 0x1F) << 24) | ((cna_desc.weight_height as u32 & 0x1F) << 16) | (
            cna_desc.weight_kernels as u32 & 0x3FFF),
            CNA_WEIGHT_SIZE2,
        ),
        npuop(
            OP_REG_CNA,
            ((cna_desc.weight_bank as u32 & 0xF) << 4) | (cna_desc.data_bank as u32 & 0xF),
            CNA_CBUF_CON0,
        ),
        npuop(OP_REG_CNA, cna_desc.data_entries as u32 & 0x1FFF, CNA_CBUF_CON1),
        npuop(
            OP_REG_CNA,
            ((cna_desc.data_sign as u32 & 0x1) << 3) | ((cna_desc.cvt_type as u32 & 0x1) << 1) | (
            cna_desc.cvt_bypass as u32 & 0x1),
            CNA_CVT_CON0,
        ),
        npuop(OP_REG_CNA, ((cna_desc.cvt_scale0 as u32 & 0xFFFF) << 16) | 0x0, CNA_CVT_CON1),
        npuop(OP_REG_CNA, ((cna_desc.cvt_scale1 as u32 & 0xFFFF) << 16) | 0x0, CNA_CVT_CON2),
        npuop(OP_REG_CNA, ((cna_desc.cvt_scale2 as u32 & 0xFFFF) << 16) | 0x0, CNA_CVT_CON3),
        npuop(OP_REG_CNA, ((cna_desc.cvt_scale3 as u32 & 0xFFFF) << 16) | 0x0, CNA_CVT_CON4),
        npuop(OP_REG_CNA, cna_desc.fc_skip_en as u32 & 0x1, CNA_FC_CON0),
        npuop(OP_REG_CNA, cna_desc.data_offset as u32 & 0x1FFFF, CNA_FC_CON1),
        npuop(
            OP_REG_CNA,
            ((cna_desc.pad_left as u32 & 0xF) << 4) | (cna_desc.pad_top as u32 & 0xF),
            CNA_PAD_CON0,
        ),
        npuop(OP_REG_CNA, cna_desc.feature_base_addr, CNA_FEATURE_DATA_ADDR),
        npuop(OP_REG_CNA, cna_desc.weight_offset as u32 & 0x1FFFF, CNA_FC_CON2),
        npuop(
            OP_REG_CNA,
            ((cna_desc.weight_burst_len as u32 & 0xF) << 16) | (cna_desc.data_burst_len as u32 & 0xF),
            CNA_DMA_CON0,
        ),
        npuop(OP_REG_CNA, cna_desc.line_stride & 0xFFFFFFF, CNA_DMA_CON1),
        npuop(OP_REG_CNA, cna_desc.surf_stride as u32 & 0xFFFFFFF, CNA_DMA_CON2),
        npuop(
            OP_REG_CNA,
            ((cna_desc.dma_width as u32 & 0x7FF) << 16) | (cna_desc.dma_height as u32 & 0x7FF),
            CNA_FC_DATA_SIZE0,
        ),
        npuop(OP_REG_CNA, cna_desc.dma_channel as u32 & 0xFFFF, CNA_FC_DATA_SIZE1),
        npuop(OP_REG_CNA, 0x0, CNA_DCOMP_CTRL),
        npuop(OP_REG_CNA, 0x0, CNA_DCOMP_REGNUM),
        npuop(OP_REG_CNA, cna_desc.decompress_addr0, CNA_DCOMP_ADDR0),
        npuop(OP_REG_CNA, 0x0, CNA_DCOMP_AMOUNT),
        npuop(OP_REG_CNA, 0x0, CNA_DCOMP_AMOUNT1),
        npuop(OP_REG_CNA, 0x0, CNA_DCOMP_AMOUNT2),
        npuop(OP_REG_CNA, 0x0, CNA_DCOMP_AMOUNT3),
        npuop(OP_REG_CNA, 0x0, CNA_DCOMP_AMOUNT4),
        npuop(OP_REG_CNA, 0x0, CNA_DCOMP_AMOUNT5),
        npuop(OP_REG_CNA, 0x0, CNA_DCOMP_AMOUNT6),
        npuop(OP_REG_CNA, 0x0, CNA_DCOMP_AMOUNT7),
        npuop(OP_REG_CNA, 0x0, CNA_DCOMP_AMOUNT8),
        npuop(OP_REG_CNA, 0x0, CNA_DCOMP_AMOUNT9),
        npuop(OP_REG_CNA, 0x0, CNA_DCOMP_AMOUNT10),
        npuop(OP_REG_CNA, 0x0, CNA_DCOMP_AMOUNT11),
        npuop(OP_REG_CNA, 0x0, CNA_DCOMP_AMOUNT12),
        npuop(OP_REG_CNA, 0x0, CNA_DCOMP_AMOUNT13),
        npuop(OP_REG_CNA, 0x0, CNA_DCOMP_AMOUNT14),
        npuop(OP_REG_CNA, 0x0, CNA_DCOMP_AMOUNT15),
        npuop(OP_REG_CNA, 0x0, CNA_CVT_CON5),
        npuop(OP_REG_CNA, 0x0, CNA_PAD_CON1),
        // 49..54: CORE: MAC array set-up
        npuop(
            OP_REG_CORE,
            ((core_desc.proc_precision as u32 & 0x7) << 8) | (core_desc.qd_en as u32 & 0x1),
            CORE_MISC_CFG,
        ),
        npuop(
            OP_REG_CORE,
            ((core_desc.dataout_height as u32 & 0xFFFF) << 16) | (core_desc.dataout_width as u32 & 0xFFFF),
            CORE_DATAOUT_SIZE_0,
        ),
        npuop(OP_REG_CORE, core_desc.dataout_channel as u32 & 0xFFFF, CORE_DATAOUT_SIZE_1),
        npuop(OP_REG_CORE, 0x0, CORE_CLIP_TRUNCATE),
        npuop(OP_REG_CORE, 0x0, CORE_3030),
        // 54..104: DPU: output format and address, bypassed BS/BN/EW stages, write DMA, LUT off
        npuop(
            OP_REG_DPU,
            ((dpu_desc.burst_len as u32 & 0xF) << 5) | ((dpu_desc.conv_mode as u32 & 0x3) << 3) | ((
            dpu_desc.output_mode as u32 & 0x3) << 1) | (dpu_desc.flying_mode as u32 & 0x1),
            DPU_FEATURE_MODE_CFG,
        ),
        npuop(
            OP_REG_DPU,
            ((dpu_desc.out_precision as u32 & 0x7) << 29) | ((dpu_desc.in_precision as u32 & 0x7) << 26) | (
            dpu_desc.proc_precision as u32 & 0x7),
            DPU_DATA_FORMAT,
        ),
        npuop(OP_REG_DPU, 0x0, DPU_OFFSET_PEND),
        npuop(OP_REG_DPU, dpu_desc.dst_base_addr, DPU_DST_BASE_ADD),
        npuop(OP_REG_DPU, (dpu_desc.dst_surf_stride & 0xFFFFFFF) << 4, DPU_DST_SURF_STRIDE),
        npuop(OP_REG_DPU, dpu_desc.width as u32 & 0x1FFF, DPU_DATA_CUBE_WIDTH),
        npuop(OP_REG_DPU, dpu_desc.height as u32 & 0x1FFF, DPU_DATA_CUBE_HEIGHT),
        npuop(OP_REG_DPU, 0x0, DPU_DATA_CUBE_NOTCH_ADDR),
        npuop(
            OP_REG_DPU,
            ((dpu_desc.channel as u32 & 0x1FFF) << 16) | (dpu_desc.channel as u32 & 0x1FFF),
            DPU_DATA_CUBE_CHANNEL,
        ),
        npuop(
            OP_REG_DPU,
            ((dpu_desc.bs_relu_bypass as u32 & 0x1) << 6) | ((dpu_desc.bs_mul_bypass as u32 & 0x1) << 4) | ((
            dpu_desc.bs_alu_bypass as u32 & 0x1) << 1) | (dpu_desc.bs_bypass as u32 & 0x1),
            DPU_BS_CFG,
        ),
        npuop(OP_REG_DPU, 0x0, DPU_BS_ALU_CFG),
        npuop(OP_REG_DPU, 0x0, DPU_BS_MUL_CFG),
        npuop(OP_REG_DPU, 0x0, DPU_BS_RELUX_CMP_VALUE),
        npuop(
            OP_REG_DPU,
            ((dpu_desc.size_e_2 as u32 & 0x7) << 8) | ((dpu_desc.size_e_1 as u32 & 0x7) << 5) | ((
            dpu_desc.size_e_0 as u32 & 0x7) << 2) | ((dpu_desc.od_bypass as u32 & 0x1) << 1),
            DPU_BS_OW_CFG,
        ),
        npuop(OP_REG_DPU, 0x0, DPU_BS_OW_OP),
        npuop(OP_REG_DPU, dpu_desc.channel_wdma as u32 & 0x1FFF, DPU_WDMA_SIZE_0),
        npuop(
            OP_REG_DPU,
            ((dpu_desc.height_wdma as u32 & 0x1FFF) << 16) | (dpu_desc.width_wdma as u32 & 0x1FFF),
            DPU_WDMA_SIZE_1,
        ),
        npuop(
            OP_REG_DPU,
            ((dpu_desc.bn_relu_bypass as u32 & 0x1) << 6) | ((dpu_desc.bn_mul_bypass as u32 & 0x1) << 4) | ((
            dpu_desc.bn_alu_bypass as u32 & 0x1) << 1) | (dpu_desc.bn_bypass as u32 & 0x1),
            DPU_BN_CFG,
        ),
        npuop(OP_REG_DPU, 0x0, DPU_BN_ALU_CFG),
        npuop(OP_REG_DPU, 0x0, DPU_BN_MUL_CFG),
        npuop(OP_REG_DPU, 0x0, DPU_BN_RELUX_CMP_VALUE),
        npuop(
            OP_REG_DPU,
            ((dpu_desc.ew_relu_bypass as u32 & 0x1) << 9) | ((dpu_desc.ew_op_cvt_bypass as u32 & 0x1) << 8)
                | ((dpu_desc.ew_lut_bypass as u32 & 0x1) << 7) | ((dpu_desc.ew_op_bypass as u32 & 0x1) << 1)
                | (dpu_desc.ew_bypass as u32 & 0x1),
            DPU_EW_CFG,
        ),
        npuop(OP_REG_DPU, 0x0, DPU_EW_CVT_OFFSET_VALUE),
        npuop(OP_REG_DPU, 0x1, DPU_EW_CVT_SCALE_VALUE),
        npuop(OP_REG_DPU, 0x0, DPU_EW_RELUX_CMP_VALUE),
        npuop(OP_REG_DPU, 0x0, DPU_OUT_CVT_OFFSET),
        npuop(
            OP_REG_DPU,
            ((dpu_desc.fp32tofp16_en as u32 & 0x1) << 16) | (dpu_desc.out_cvt_scale as u32 & 0xFFFF),
            DPU_OUT_CVT_SCALE,
        ),
        npuop(OP_REG_DPU, 0x0, DPU_OUT_CVT_SHIFT),
        npuop(OP_REG_DPU, 0x0, DPU_EW_OP_VALUE_0),
        npuop(OP_REG_DPU, 0x0, DPU_EW_OP_VALUE_1),
        npuop(OP_REG_DPU, 0x0, DPU_EW_OP_VALUE_2),
        npuop(OP_REG_DPU, 0x0, DPU_EW_OP_VALUE_3),
        npuop(OP_REG_DPU, 0x0, DPU_EW_OP_VALUE_4),
        npuop(OP_REG_DPU, 0x0, DPU_EW_OP_VALUE_5),
        npuop(OP_REG_DPU, 0x0, DPU_EW_OP_VALUE_6),
        npuop(OP_REG_DPU, 0x0, DPU_EW_OP_VALUE_7),
        npuop(OP_REG_DPU, (dpu_desc.surf_add & 0xFFFFFFF) << 4, DPU_SURFACE_ADD),
        npuop(OP_REG_DPU, 0x0, DPU_40C4),
        npuop(OP_REG_DPU, 0x0, DPU_LUT_ACCESS_CFG),
        npuop(OP_REG_DPU, 0x0, DPU_LUT_ACCESS_DATA),
        npuop(OP_REG_DPU, 0x0, DPU_LUT_CFG),
        npuop(OP_REG_DPU, 0x0, DPU_LUT_INFO),
        npuop(OP_REG_DPU, 0x0, DPU_LUT_LE_START),
        npuop(OP_REG_DPU, 0x0, DPU_LUT_LE_END),
        npuop(OP_REG_DPU, 0x0, DPU_LUT_LO_START),
        npuop(OP_REG_DPU, 0x0, DPU_LUT_LO_END),
        npuop(OP_REG_DPU, 0x0, DPU_LUT_LE_SLOPE_SCALE),
        npuop(OP_REG_DPU, 0x0, DPU_LUT_LE_SLOPE_SHIFT),
        npuop(OP_REG_DPU, 0x0, DPU_LUT_LO_SLOPE_SCALE),
        npuop(OP_REG_DPU, 0x0, DPU_LUT_LO_SLOPE_SHIFT),
        // 104..108: PC: end of list and start of the CNA and DPU
        npuop(OP_NONE, 0x0, 0x0),
        npuop(OP_REG_PC, 0x0, PC_REGISTER_AMOUNTS),
        npuop(OP_40, 0x0, 0x0),
        npuop(OP_ENABLE, PC_ENABLE_DPU | PC_ENABLE_CNA | PC_ENABLE, PC_OPERATION_ENABLE),
    ];
    assert(cmds@ == task_regcmds(*cna_desc, *core_desc, *dpu_desc));
    let ghost before = ops@;
    let mut i: usize = 0;
    while i < TASK_REGCMD_COUNT
        invariant
            i <= TASK_REGCMD_COUNT,
            ops@.len() == before.len(),
            before.len() >= TASK_REGCMD_COUNT,
            cmds@ == task_regcmds(*cna_desc, *core_desc, *dpu_desc),
            forall|j: int| 0 <= j < i ==> ops@[j] == cmds@[j],
            forall|j: int| i <= j < ops@.len() ==> ops@[j] == before[j],
        decreases TASK_REGCMD_COUNT - i,
    {
        ops[i] = cmds[i];
        i = i + 1;
    }
    assert(ops@.subrange(0, TASK_REGCMD_COUNT as int) =~= task_regcmds(*cna_desc, *core_desc,
        *dpu_desc));
    assert(ops@.subrange(TASK_REGCMD_COUNT as int, ops@.len() as int) =~= before.subrange(
        TASK_REGCMD_COUNT as int,
        before.len() as int,
    ));
}

/// Number of CBUF banks that `bytes` bytes take.
fn banks_for(bytes: u64) -> (banks: u64)
    requires
        bytes <= u32::MAX as u64 * 4,
    ensures
        banks == ceil_div(bytes as int, NPU_CBUF_BANK_SIZE as int),
{
    let mut banks = bytes / NPU_CBUF_BANK_SIZE as u64;
    banks = if (bytes % NPU_CBUF_BANK_SIZE as u64) == 0 {
        banks
    } else {
        banks + 1
    };
    proof {
        lemma_ceil_div(bytes as int, NPU_CBUF_BANK_SIZE as int);
    }
    banks
}

/// `a / b` rounded up, for a count of elements and the elements per entry.
fn ceil_div_u32(a: u32, b: u32) -> (r: u32)
    requires
        b > 0,
    ensures
        r == ceil_div(a as int, b as int),
{
    let q = a / b;
    assert(a % b != 0 ==> q < u32::MAX) by (nonlinear_arith)
        requires
            b > 0,
            q == a / b,
    {
        vstd::arithmetic::div_mod::lemma_fundamental_div_mod(a as int, b as int);
    }
    let r = if a % b == 0 {
        q
    } else {
        q + 1
    };
    proof {
        lemma_ceil_div(a as int, b as int);
    }
    r
}

/// The surface stride of feature data of `height` lines of `line_stride`.
fn surf_stride_for(line_stride: u32, height: u16) -> (s: i32)
    requires
        line_stride <= 4,
    ensures
        s == feature_surf_stride(line_stride as int, height as int),
{
    assert(-4 <= line_stride as i32 * ((height / 4) as i32 - 1) <= 4 * 16384) by (nonlinear_arith)
        requires
            line_stride <= 4,
            -1 <= (height / 4) as i32 - 1 <= 16384,
    ;
    let mut surf_stride = line_stride as i32 * ((height / 4) as i32 - 1);
    surf_stride = if surf_stride < 0 {
        surf_stride + 1
    } else {
        surf_stride
    };
    surf_stride
}

/// Rounding up a quotient is the quotient, plus one when there is a
/// remainder.
#[verifier::spinoff_prover]
pub proof fn lemma_ceil_div(a: int, b: int)
    requires
        a >= 0,
        b > 0,
    ensures
        ceil_div(a, b) == if a % b == 0 { a / b } else { a / b + 1 },
        ceil_div(a, b) * b >= a,
        ceil_div(a, b) >= 0,
        a > 0 ==> (ceil_div(a, b) - 1) * b < a,
{
    assert(ceil_div(a, b) == if a % b == 0 { a / b } else { a / b + 1 }) by (nonlinear_arith)
        requires
            a >= 0,
            b > 0,
    {
        vstd::arithmetic::div_mod::lemma_fundamental_div_mod(a, b);
        vstd::arithmetic::div_mod::lemma_fundamental_div_mod(a + b - 1, b);
    }
    assert(ceil_div(a, b) * b >= a && (a > 0 ==> (ceil_div(a, b) - 1) * b < a)) by (nonlinear_arith)
        requires
            a >= 0,
            b > 0,
            ceil_div(a, b) == if a % b == 0 { a / b } else { a / b + 1 },
    {
        vstd::arithmetic::div_mod::lemma_fundamental_div_mod(a, b);
    }
}

/// The CBUF banks that the feature data of an `m` x `k` matrix with
/// `elem_bytes`-byte elements takes, or the generators' error when a single
/// task cannot hold the multiplication.
fn cbuf_data_banks(m: u16, k: u16, elem_bytes: u64) -> (r: Result<u64, i32>)
    requires
        elem_bytes == 1 || elem_bytes == 2,
    ensures
        match cbuf_error(m as int, k as int, elem_bytes as int) {
            Some(e) => r == Err::<u64, i32>(e),
            None => r == Ok::<u64, i32>(feature_banks(m as int, k as int, elem_bytes as int) as u64),
        },
{
    assert(m as u64 * k as u64 * elem_bytes == feature_bytes(m as int, k as int, elem_bytes as int)
        && feature_bytes(m as int, k as int, elem_bytes as int) <= 0xffff * 0xffff * 2) by (nonlinear_arith)
        requires
            elem_bytes == 1 || elem_bytes == 2,
    ;
    let fd_bytes: u64 = m as u64 * k as u64 * elem_bytes;
    let fd_banks = banks_for(fd_bytes);
    if fd_banks > NPU_CBUF_BANKS as u64 - 1 {
        Err(-1)
    } else if k as u64 * elem_bytes <= NPU_CBUF_BANK_SIZE as u64 {
        Ok(fd_banks)
    } else {
        Err(-2)
    }
}

/// Build the CNA descriptor of a matrix multiplication (see
/// `matmul_cna_desc`).
fn matmul_cna(
    params: &MatmulParams,
    precision: Precision,
    elem_bytes: u32,
    entry_elems: u32,
    fd_banks: u64,
) -> (c: NpuCnaDesc)
    requires
        elem_bytes == 1 || elem_bytes == 2,
        entry_elems > 0,
        params.m < u16::MAX,
        params.k * elem_bytes * params.n <= u32::MAX,
        fits_in_cbuf(params.m as int, params.k as int, elem_bytes as int),
        fd_banks == feature_banks(params.m as int, params.k as int, elem_bytes as int),
    ensures
        c == matmul_cna_desc(*params, precision_code(precision), elem_bytes as int, entry_elems as int),
{
    let weight_bytes_per_kernel: u32 = params.k as u32 * elem_bytes;
    assert(weight_bytes_per_kernel * params.n as int == params.k * elem_bytes * params.n)
        by (nonlinear_arith)
        requires
            weight_bytes_per_kernel == params.k * elem_bytes,
    ;
    let weight_bytes: u32 = weight_bytes_per_kernel * params.n as u32;
    proof {
        lemma_ceil_div(feature_bytes(params.m as int, params.k as int, elem_bytes as int),
            NPU_CBUF_BANK_SIZE as int);
    }
    let prec = precision.code();
    NpuCnaDesc {
        conv_mode: ConvMode::DirectConvolution.code(),
        in_precision: prec,
        proc_precision: prec,
        kernel_groups: 0,
        feature_grains: params.m + 1,
        conv_y_stride: 1,
        conv_x_stride: 1,
        datain_width: 1,
        datain_height: params.m,
        datain_channel: params.k,
        dataout_width: 1,
        dataout_height: params.m,
        dataout_atomics: params.m as u32,
        weight_bytes: weight_bytes,
        weight_bytes_per_kernel: weight_bytes_per_kernel,
        weight_width: 1,
        weight_height: 1,
        weight_kernels: params.n,
        weight_bank: (NPU_CBUF_BANKS as u64 - fd_banks) as u8,
        data_bank: fd_banks as u8,
        data_entries: ceil_div_u32(params.k as u32, entry_elems) as u16,
        data_sign: 0x1,
        cvt_type: 0x1,
        cvt_bypass: 0x1,
        cvt_scale0: 0x1,
        cvt_scale1: 0x1,
        cvt_scale2: 0x1,
        cvt_scale3: 0x1,
        fc_skip_en: 0,
        data_offset: 0x0,
        pad_left: 0,
        pad_top: 0,
        feature_base_addr: params.input_dma,
        weight_offset: 0,
        weight_burst_len: 0xf,
        data_burst_len: 0xf,
        line_stride: 4,
        surf_stride: surf_stride_for(4, params.m),
        dma_width: 1,
        dma_height: params.m,
        dma_channel: params.k,
        decompress_addr0: params.weights_dma,
    }
}

/// Build the CORE descriptor of a matrix multiplication (see
/// `matmul_core_desc`).
fn matmul_core(params: &MatmulParams, precision: Precision, qd_en: u8) -> (k: NpuCoreDesc)
    requires
        params.m >= 1,
        params.n >= 1,
    ensures
        k == matmul_core_desc(*params, precision_code(precision), qd_en),
{
    NpuCoreDesc {
        proc_precision: precision.code(),
        qd_en: qd_en,
        dataout_height: params.m - 1,
        dataout_width: 0,
        dataout_channel: params.n - 1,
    }
}

/// Build the DPU descriptor of a matrix multiplication (see
/// `matmul_dpu_desc`).
fn matmul_dpu(
    params: &MatmulParams,
    precision: Precision,
    out_precision: Precision,
    fp32tofp16_en: u8,
    size_e: u8,
    out_bytes: u32,
) -> (d: NpuDpuDesc)
    requires
        params.m >= 1,
        params.n >= 1,
        out_bytes <= 8,
    ensures
        d == matmul_dpu_desc(
            *params,
            precision_code(precision),
            precision_code(out_precision),
            fp32tofp16_en,
            size_e,
            out_bytes as int,
        ),
{
    assert(params.m as u32 * out_bytes <= 0xffff * 8) by (nonlinear_arith)
        requires
            out_bytes <= 8,
            params.m <= 0xffff,
    ;
    let prec = precision.code();
    let height = params.m - 1;
    let channel = params.n - 1;
    NpuDpuDesc {
        burst_len: 0xf,
        conv_mode: ConvMode::DirectConvolution.code(),
        output_mode: 0x2,
        flying_mode: 0x0,
        out_precision: out_precision.code(),
        in_precision: prec,
        proc_precision: prec,
        dst_base_addr: params.output_dma,
        dst_surf_stride: params.m as u32,
        width: 0,
        height: height,
        channel: channel,
        bs_bypass: 1,
        bs_alu_bypass: 1,
        bs_mul_bypass: 1,
        bs_relu_bypass: 1,
        od_bypass: 1,
        size_e_0: size_e,
        size_e_1: size_e,
        size_e_2: size_e,
        channel_wdma: channel,
        height_wdma: height,
        width_wdma: 0,
        bn_bypass: 1,
        bn_alu_bypass: 1,
        bn_mul_bypass: 1,
        bn_relu_bypass: 1,
        ew_bypass: 1,
        ew_op_bypass: 1,
        ew_lut_bypass: 1,
        ew_op_cvt_bypass: 1,
        ew_relu_bypass: 1,
        fp32tofp16_en: fp32tofp16_en,
        out_cvt_scale: 1,
        surf_add: params.m as u32 * out_bytes,
    }
}

/// Generate an FP16 matrix multiplication task into `params.tasks`.
///
/// Simplified version of matrix multiplication: it fails when the CBUF
/// storage is exceeded (`m`, `k`, `n` too large), and so it only ever
/// generates a single task. Returns `Err(-1)` when the feature data needs
/// more than all but one CBUF bank and `Err(-2)` when the weights of one
/// kernel exceed a bank. The task memory must hold at least
/// `TASK_BUFFER_LEN` values.
pub fn gen_matmul_fp16(params: &mut MatmulParams) -> (r: Result<(), i32>)
    requires
        fp16_params_valid(*old(params)),
    ensures
        match cbuf_error(old(params).m as int, old(params).k as int, 2) {
            Some(e) => r == Err::<(), i32>(e) && *final(params) == *old(params),
            None => r is Ok && generated(*old(params), *final(params), fp16_regcmds(*old(params))),
        },
{
    let fd_banks = match cbuf_data_banks(params.m, params.k, 2) {
        Ok(banks) => banks,
        Err(e) => return Err(e),
    };
    let to_fp16 = params.fp32tofp16 != 0;
    let cna_desc = matmul_cna(params, Precision::Float16, 2, 32, fd_banks);
    let core_desc = matmul_core(params, Precision::Float16, 1);
    let dpu_desc = matmul_dpu(
        params,
        Precision::Float16,
        if to_fp16 { Precision::Float16 } else { Precision::Float32 },
        params.fp32tofp16 & 0x1,
        if to_fp16 { 1 } else { 3 },
        if to_fp16 { 2 } else { 4 },
    );
    gen_matmul_task(params.tasks.as_mut_slice(), &cna_desc, &core_desc, &dpu_desc);
    Ok(())
}

/// Generate an INT8 matrix multiplication task into `params.tasks`.
///
/// Simplified version of matrix multiplication: it fails when the CBUF
/// storage is exceeded (`m`, `k`, `n` too large), and so it only ever
/// generates a single task. Returns `Err(-1)` when the feature data needs
/// more than all but one CBUF bank and `Err(-2)` when the weights of one
/// kernel exceed a bank. The task memory must hold at least
/// `TASK_BUFFER_LEN` values.
pub fn gen_matmul_int8(params: &mut MatmulParams) -> (r: Result<(), i32>)
    requires
        int8_params_valid(*old(params)),
    ensures
        match cbuf_error(old(params).m as int, old(params).k as int, 1) {
            Some(e) => r == Err::<(), i32>(e) && *final(params) == *old(params),
            None => r is Ok && generated(*old(params), *final(params), int8_regcmds(*old(params))),
        },
{
    let fd_banks = match cbuf_data_banks(params.m, params.k, 1) {
        Ok(banks) => banks,
        Err(e) => return Err(e),
    };
    assert(params.k * 1 * params.n <= u32::MAX) by (nonlinear_arith)
        requires
            params.k <= 0xffff,
            params.n <= 0xffff,
    ;
    let cna_desc = matmul_cna(params, Precision::Int8, 1, 64, fd_banks);
    let core_desc = matmul_core(params, Precision::Int8, 0);
    let dpu_desc = matmul_dpu(params, Precision::Int8, Precision::Int32, 0, 7, 8);
    gen_matmul_task(params.tasks.as_mut_slice(), &cna_desc, &core_desc, &dpu_desc);
    Ok(())
}

/// Law of the generators' errors: a multiplication of an `m` x `k` matrix by
/// a `k` x `n` matrix with `elem_bytes`-byte elements is refused with `-1`
/// exactly when its feature data take more than 11 banks of 32 KiB (one
/// bank at least stays for the weights), with `-2` exactly when they fit
/// but the weights of one kernel take more than one bank, and is accepted
/// otherwise.
pub proof fn lemma_cbuf_error_bounds(m: int, k: int, elem_bytes: int)
    requires
        m >= 0,
        k >= 0,
        elem_bytes >= 1,
    ensures
        cbuf_error(m, k, elem_bytes) == Some(-1i32) <==> m * k * elem_bytes > 11 * 0x8000,
        cbuf_error(m, k, elem_bytes) == Some(-2i32) <==> m * k * elem_bytes <= 11 * 0x8000 && k
            * elem_bytes > 0x8000,
        cbuf_error(m, k, elem_bytes) is None <==> m * k * elem_bytes <= 11 * 0x8000 && k
            * elem_bytes <= 0x8000,
{
    let fd = m * k * elem_bytes;
    assert(fd >= 0) by (nonlinear_arith)
        requires
            fd == m * k * elem_bytes,
            m >= 0,
            k >= 0,
            elem_bytes >= 1,
    ;
    lemma_ceil_div(fd, 0x8000);
    let b = ceil_div(fd, 0x8000);
    if fd == 0 {
        assert(b == 0);
    }
    assert(b <= 11 <==> fd <= 11 * 0x8000);
}

/// Law of the CBUF split: when a multiplication fits, its task gives the
/// feature data exactly the banks it needs (enough for all its bytes, and one
/// bank fewer would not do), gives every other bank to the weights, holds the
/// weights of one kernel within a bank, and programs that split into the CBUF
/// register as `weight_bank << 4 | data_bank`.
pub proof fn lemma_matmul_cbuf_split(p: MatmulParams, prec: u8, elem_bytes: int, entry_elems: int)
    requires
        elem_bytes == 1 || elem_bytes == 2,
        fits_in_cbuf(p.m as int, p.k as int, elem_bytes),
    ensures
        ({
            let c = matmul_cna_desc(p, prec, elem_bytes, entry_elems);
            let fd = feature_bytes(p.m as int, p.k as int, elem_bytes);
            &&& c.data_bank + c.weight_bank == NPU_CBUF_BANKS
            &&& c.data_bank * NPU_CBUF_BANK_SIZE >= fd
            &&& fd > 0 ==> (c.data_bank - 1) * NPU_CBUF_BANK_SIZE < fd
            &&& c.weight_bytes_per_kernel <= NPU_CBUF_BANK_SIZE
            &&& ((c.weight_bank as u32 & 0xF) << 4u32) | (c.data_bank as u32 & 0xF) == c.weight_bank
                * 16 + c.data_bank
        }),
{
    let fd = feature_bytes(p.m as int, p.k as int, elem_bytes);
    assert(fd >= 0) by (nonlinear_arith)
        requires
            fd == p.m * p.k * elem_bytes,
            elem_bytes >= 1,
    ;
    lemma_ceil_div(fd, NPU_CBUF_BANK_SIZE as int);
    let c = matmul_cna_desc(p, prec, elem_bytes, entry_elems);
    let wb = c.weight_bank;
    let db = c.data_bank;
    assert(wb < 16 && db < 16);
    assert(((wb as u32 & 0xF) << 4u32) | (db as u32 & 0xF) == wb * 16 + db) by (bit_vector)
        requires
            wb < 16,
            db < 16,
    ;
}

/// Law of the FP16 task's buffers: its register list reads the feature data
/// from `input_dma`, the weights from `weights_dma`, and has the DPU write
/// the result to `output_dma`.
pub proof fn lemma_fp16_buffers(p: MatmulParams)
    ensures
        regcmd_reg(fp16_regcmds(p)[21]) == CNA_FEATURE_DATA_ADDR,
        regcmd_value(fp16_regcmds(p)[21]) == p.input_dma,
        regcmd_reg(fp16_regcmds(p)[30]) == CNA_DCOMP_ADDR0,
        regcmd_value(fp16_regcmds(p)[30]) == p.weights_dma,
        regcmd_reg(fp16_regcmds(p)[57]) == DPU_DST_BASE_ADD,
        regcmd_value(fp16_regcmds(p)[57]) == p.output_dma,
{
    lemma_regcmd_fields(OP_REG_CNA, p.input_dma, CNA_FEATURE_DATA_ADDR);
    lemma_regcmd_fields(OP_REG_CNA, p.weights_dma, CNA_DCOMP_ADDR0);
    lemma_regcmd_fields(OP_REG_DPU, p.output_dma, DPU_DST_BASE_ADD);
}

/// Law of the INT8 task's buffers: its register list reads the feature data
/// from `input_dma`, the weights from `weights_dma`, and has the DPU write
/// the result to `output_dma`.
pub proof fn lemma_int8_buffers(p: MatmulParams)
    ensures
        regcmd_reg(int8_regcmds(p)[21]) == CNA_FEATURE_DATA_ADDR,
        regcmd_value(int8_regcmds(p)[21]) == p.input_dma,
        regcmd_reg(int8_regcmds(p)[30]) == CNA_DCOMP_ADDR0,
        regcmd_value(int8_regcmds(p)[30]) == p.weights_dma,
        regcmd_reg(int8_regcmds(p)[57]) == DPU_DST_BASE_ADD,
        regcmd_value(int8_regcmds(p)[57]) == p.output_dma,
{
    lemma_regcmd_fields(OP_REG_CNA, p.input_dma, CNA_FEATURE_DATA_ADDR);
    lemma_regcmd_fields(OP_REG_CNA, p.weights_dma, CNA_DCOMP_ADDR0);
    lemma_regcmd_fields(OP_REG_DPU, p.output_dma, DPU_DST_BASE_ADD);
}

/// Law of the FP16 output format: the DPU writes FP32 results unless
/// `fp32tofp16` is set, and FP16 results when it is; the conversion bit of
/// the output-conversion register follows the low bit of `fp32tofp16`.
pub proof fn lemma_fp16_output_precision(p: MatmulParams)
    ensures
        (regcmd_value(fp16_regcmds(p)[55]) >> 29u64) & 7 == if p.fp32tofp16 == 0 {
            precision_code(Precision::Float32)
        } else {
            precision_code(Precision::Float16)
        },
        (regcmd_value(fp16_regcmds(p)[80]) >> 16u64) & 1 == p.fp32tofp16 & 1,
{
    let d = fp16_descs(p).2;
    let out = d.out_precision;
    let inp = d.in_precision;
    let pro = d.proc_precision;
    let v55 = ((out as u32 & 0x7) << 29u32) | ((inp as u32 & 0x7) << 26u32) | (pro as u32 & 0x7);
    lemma_regcmd_fields(OP_REG_DPU, v55, DPU_DATA_FORMAT);
    assert((v55 as u64 >> 29u64) & 7 == (out as u64 & 7)) by (bit_vector)
        requires
            v55 == ((out as u32 & 0x7) << 29u32) | ((inp as u32 & 0x7) << 26u32) | (pro as u32 & 0x7),
    ;
    assert(out < 8 ==> out as u64 & 7 == out as u64) by (bit_vector);
    let en = d.fp32tofp16_en;
    let sc = d.out_cvt_scale;
    let f = p.fp32tofp16;
    let v80 = ((en as u32 & 0x1) << 16u32) | (sc as u32 & 0xFFFF);
    lemma_regcmd_fields(OP_REG_DPU, v80, DPU_OUT_CVT_SCALE);
    assert((v80 as u64 >> 16u64) & 1 == (en as u64 & 1)) by (bit_vector)
        requires
            v80 == ((en as u32 & 0x1) << 16u32) | (sc as u32 & 0xFFFF),
    ;
    assert(en & 1 == f & 1) by (bit_vector)
        requires
            en == f & 1,
    ;
}

/// The surface-stride register of the feature data of `m` rows, as the
/// task generators program it: `4 * (m / 4 - 1)` when it is not negative,
/// and otherwise `-3` in 28 bits of two's complement.
proof fn lemma_surf_stride_register(m: u16)
    ensures
        (feature_surf_stride(4, m as int) as i32 as u32) % 0x1000_0000 == if m >= 4 {
            4 * (m / 4) - 4
        } else {
            0xFFF_FFFD
        },
{
    if m < 4 {
        assert(feature_surf_stride(4, m as int) == -3);
        let x: i32 = -3i32;
        assert(x as u32 == 0xFFFF_FFFDu32) by (bit_vector)
            requires
                x == -3i32,
        ;
    }
}

/// Law of the FP16 task's CNA set-up, for every multiplication of an `m` x
/// `k` matrix by a `k` x `n` matrix that fits: the feature data is a cube
/// of height `m`, width 1 and `k` channels (`m + 1` grains), read as `m`
/// rows of `k` two-byte elements; the weights are `n` kernels (cut to 14
/// bits) of width and height 1, `2 * k` bytes each and `2 * k * n` in all;
/// the CBUF gives the feature data the banks it needs, in entries of 32
/// elements, and the rest to the weights. The fixed settings: a direct
/// convolution in FP16 with strides of 1, the input conversion bypassed with
/// scales of 1, no padding or offsets, DMA burst lengths of 15 and a line stride of
/// 4.
pub proof fn lemma_fp16_cna_registers(p: MatmulParams)
    requires
        fp16_params_valid(p),
        fits_in_cbuf(p.m as int, p.k as int, 2),
    ensures
        regcmd_reg(fp16_regcmds(p)[1]) == CNA_CONV_CON1,
        regcmd_value(fp16_regcmds(p)[1]) == precision_code(Precision::Float16) * 0x90,
        regcmd_reg(fp16_regcmds(p)[3]) == CNA_CONV_CON3,
        regcmd_value(fp16_regcmds(p)[3]) == 9,
        regcmd_reg(fp16_regcmds(p)[13]) == CNA_CVT_CON0,
        regcmd_value(fp16_regcmds(p)[13]) == 0xB,
        regcmd_reg(fp16_regcmds(p)[14]) == CNA_CVT_CON1,
        regcmd_value(fp16_regcmds(p)[14]) == 0x10000,
        regcmd_reg(fp16_regcmds(p)[15]) == CNA_CVT_CON2,
        regcmd_value(fp16_regcmds(p)[15]) == 0x10000,
        regcmd_reg(fp16_regcmds(p)[16]) == CNA_CVT_CON3,
        regcmd_value(fp16_regcmds(p)[16]) == 0x10000,
        regcmd_reg(fp16_regcmds(p)[17]) == CNA_CVT_CON4,
        regcmd_value(fp16_regcmds(p)[17]) == 0x10000,
        regcmd_reg(fp16_regcmds(p)[18]) == CNA_FC_CON0,
        regcmd_value(fp16_regcmds(p)[18]) == 0,
        regcmd_reg(fp16_regcmds(p)[19]) == CNA_FC_CON1,
        regcmd_value(fp16_regcmds(p)[19]) == 0,
        regcmd_reg(fp16_regcmds(p)[20]) == CNA_PAD_CON0,
        regcmd_value(fp16_regcmds(p)[20]) == 0,
        regcmd_reg(fp16_regcmds(p)[22]) == CNA_FC_CON2,
        regcmd_value(fp16_regcmds(p)[22]) == 0,
        regcmd_reg(fp16_regcmds(p)[23]) == CNA_DMA_CON0,
        regcmd_value(fp16_regcmds(p)[23]) == 0xF_000F,
        regcmd_reg(fp16_regcmds(p)[24]) == CNA_DMA_CON1,
        regcmd_value(fp16_regcmds(p)[24]) == 4,
        regcmd_reg(fp16_regcmds(p)[2]) == CNA_CONV_CON2,
        regcmd_value(fp16_regcmds(p)[2]) == ((p.m + 1) % 0x400) * 0x10,
        regcmd_reg(fp16_regcmds(p)[4]) == CNA_DATA_SIZE0,
        regcmd_value(fp16_regcmds(p)[4]) == 0x10000 + p.m % 0x800,
        regcmd_reg(fp16_regcmds(p)[5]) == CNA_DATA_SIZE1,
        regcmd_value(fp16_regcmds(p)[5]) == ((p.k - 1) % 0x10000) * 0x10000 + p.k,
        regcmd_reg(fp16_regcmds(p)[6]) == CNA_DATA_SIZE2,
        regcmd_value(fp16_regcmds(p)[6]) == 1,
        regcmd_reg(fp16_regcmds(p)[7]) == CNA_DATA_SIZE3,
        regcmd_value(fp16_regcmds(p)[7]) == p.m,
        regcmd_reg(fp16_regcmds(p)[8]) == CNA_WEIGHT_SIZE0,
        regcmd_value(fp16_regcmds(p)[8]) == p.k * 2 * p.n,
        regcmd_reg(fp16_regcmds(p)[9]) == CNA_WEIGHT_SIZE1,
        regcmd_value(fp16_regcmds(p)[9]) == p.k * 2,
        regcmd_reg(fp16_regcmds(p)[10]) == CNA_WEIGHT_SIZE2,
        regcmd_value(fp16_regcmds(p)[10]) == 0x0101_0000 + p.n % 0x4000,
        regcmd_reg(fp16_regcmds(p)[11]) == CNA_CBUF_CON0,
        regcmd_value(fp16_regcmds(p)[11]) == (NPU_CBUF_BANKS - feature_banks(p.m as int,
            p.k as int, 2)) * 0x10 + feature_banks(p.m as int, p.k as int, 2),
        regcmd_reg(fp16_regcmds(p)[12]) == CNA_CBUF_CON1,
        regcmd_value(fp16_regcmds(p)[12]) == (p.k + 31) / 32,
        regcmd_reg(fp16_regcmds(p)[25]) == CNA_DMA_CON2,
        regcmd_value(fp16_regcmds(p)[25]) == if p.m >= 4 { 4 * (p.m / 4) - 4 } else { 0xFFF_FFFD },
        regcmd_reg(fp16_regcmds(p)[26]) == CNA_FC_DATA_SIZE0,
        regcmd_value(fp16_regcmds(p)[26]) == 0x10000 + p.m % 0x800,
        regcmd_reg(fp16_regcmds(p)[27]) == CNA_FC_DATA_SIZE1,
        regcmd_value(fp16_regcmds(p)[27]) == p.k,
{
    let (c, k, d) = fp16_descs(p);
    lemma_task_cna_registers(c, k, d);
    lemma_surf_stride_register(p.m);
    lemma_task_cna_dma_registers(c, k, d);
    lemma_ceil_div(p.k as int, 32);
}

/// Law of the INT8 task's CNA set-up, for every multiplication of an `m` x
/// `k` matrix by a `k` x `n` matrix that fits: the feature data is a cube
/// of height `m`, width 1 and `k` channels (`m + 1` grains), read as `m`
/// rows of `k` one-byte elements; the weights are `n` kernels (cut to 14
/// bits) of width and height 1, `k` bytes each and `k * n` in all; the CBUF
/// gives the feature data the banks it needs, in entries of 64 elements,
/// and the rest to the weights. The fixed settings: a direct convolution in
/// INT8 with strides of 1, the input conversion bypassed with scales of 1,
/// no padding or offsets, DMA burst lengths of 15 and a line stride of 4.
pub proof fn lemma_int8_cna_registers(p: MatmulParams)
    requires
        int8_params_valid(p),
        fits_in_cbuf(p.m as int, p.k as int, 1),
    ensures
        regcmd_reg(int8_regcmds(p)[1]) == CNA_CONV_CON1,
        regcmd_value(int8_regcmds(p)[1]) == precision_code(Precision::Int8) * 0x90,
        regcmd_reg(int8_regcmds(p)[3]) == CNA_CONV_CON3,
        regcmd_value(int8_regcmds(p)[3]) == 9,
        regcmd_reg(int8_regcmds(p)[13]) == CNA_CVT_CON0,
        regcmd_value(int8_regcmds(p)[13]) == 0xB,
        regcmd_reg(int8_regcmds(p)[14]) == CNA_CVT_CON1,
        regcmd_value(int8_regcmds(p)[14]) == 0x10000,
        regcmd_reg(int8_regcmds(p)[15]) == CNA_CVT_CON2,
        regcmd_value(int8_regcmds(p)[15]) == 0x10000,
        regcmd_reg(int8_regcmds(p)[16]) == CNA_CVT_CON3,
        regcmd_value(int8_regcmds(p)[16]) == 0x10000,
        regcmd_reg(int8_regcmds(p)[17]) == CNA_CVT_CON4,
        regcmd_value(int8_regcmds(p)[17]) == 0x10000,
        regcmd_reg(int8_regcmds(p)[18]) == CNA_FC_CON0,
        regcmd_value(int8_regcmds(p)[18]) == 0,
        regcmd_reg(int8_regcmds(p)[19]) == CNA_FC_CON1,
        regcmd_value(int8_regcmds(p)[19]) == 0,
        regcmd_reg(int8_regcmds(p)[20]) == CNA_PAD_CON0,
        regcmd_value(int8_regcmds(p)[20]) == 0,
        regcmd_reg(int8_regcmds(p)[22]) == CNA_FC_CON2,
        regcmd_value(int8_regcmds(p)[22]) == 0,
        regcmd_reg(int8_regcmds(p)[23]) == CNA_DMA_CON0,
        regcmd_value(int8_regcmds(p)[23]) == 0xF_000F,
        regcmd_reg(int8_regcmds(p)[24]) == CNA_DMA_CON1,
        regcmd_value(int8_regcmds(p)[24]) == 4,
        regcmd_reg(int8_regcmds(p)[2]) == CNA_CONV_CON2,
        regcmd_value(int8_regcmds(p)[2]) == ((p.m + 1) % 0x400) * 0x10,
        regcmd_reg(int8_regcmds(p)[4]) == CNA_DATA_SIZE0,
        regcmd_value(int8_regcmds(p)[4]) == 0x10000 + p.m % 0x800,
        regcmd_reg(int8_regcmds(p)[5]) == CNA_DATA_SIZE1,
        regcmd_value(int8_regcmds(p)[5]) == ((p.k - 1) % 0x10000) * 0x10000 + p.k,
        regcmd_reg(int8_regcmds(p)[6]) == CNA_DATA_SIZE2,
        regcmd_value(int8_regcmds(p)[6]) == 1,
        regcmd_reg(int8_regcmds(p)[7]) == CNA_DATA_SIZE3,
        regcmd_value(int8_regcmds(p)[7]) == p.m,
        regcmd_reg(int8_regcmds(p)[8]) == CNA_WEIGHT_SIZE0,
        regcmd_value(int8_regcmds(p)[8]) == p.k * p.n,
        regcmd_reg(int8_regcmds(p)[9]) == CNA_WEIGHT_SIZE1,
        regcmd_value(int8_regcmds(p)[9]) == p.k,
        regcmd_reg(int8_regcmds(p)[10]) == CNA_WEIGHT_SIZE2,
        regcmd_value(int8_regcmds(p)[10]) == 0x0101_0000 + p.n % 0x4000,
        regcmd_reg(int8_regcmds(p)[11]) == CNA_CBUF_CON0,
        regcmd_value(int8_regcmds(p)[11]) == (NPU_CBUF_BANKS - feature_banks(p.m as int,
            p.k as int, 1)) * 0x10 + feature_banks(p.m as int, p.k as int, 1),
        regcmd_reg(int8_regcmds(p)[12]) == CNA_CBUF_CON1,
        regcmd_value(int8_regcmds(p)[12]) == (p.k + 63) / 64,
        regcmd_reg(int8_regcmds(p)[25]) == CNA_DMA_CON2,
        regcmd_value(int8_regcmds(p)[25]) == if p.m >= 4 { 4 * (p.m / 4) - 4 } else { 0xFFF_FFFD },
        regcmd_reg(int8_regcmds(p)[26]) == CNA_FC_DATA_SIZE0,
        regcmd_value(int8_regcmds(p)[26]) == 0x10000 + p.m % 0x800,
        regcmd_reg(int8_regcmds(p)[27]) == CNA_FC_DATA_SIZE1,
        regcmd_value(int8_regcmds(p)[27]) == p.k,
{
    let (c, k, d) = int8_descs(p);
    lemma_task_cna_registers(c, k, d);
    lemma_surf_stride_register(p.m);
    lemma_task_cna_dma_registers(c, k, d);
    lemma_ceil_div(p.k as int, 64);
    assert(p.k * 1 * p.n <= u32::MAX) by (nonlinear_arith)
        requires
            p.k <= 0xffff,
            p.n <= 0xffff,
    ;
}

/// Law of the FP16 task's CORE and DPU set-up, for every multiplication that
/// fits: the CORE works in FP16 with quantisation on and produces `m` rows
/// (height `m - 1`) of `n` channels (count `n - 1`); the DPU takes the same
/// cube, writes it through a write DMA of height `m - 1` and width 0, in
/// FP32 with a surface step of `4 * m` unless `fp32tofp16` is set, and in
/// FP16 with a surface step of `2 * m` when it is; the conversion bit of
/// the output scale is the low bit of `fp32tofp16` and the scale is 1. The
/// DPU writes to memory with burst length 15, and its BS, BN and EW stages are
/// bypassed.
pub proof fn lemma_fp16_output_registers(p: MatmulParams)
    requires
        fp16_params_valid(p),
        fits_in_cbuf(p.m as int, p.k as int, 2),
    ensures
        regcmd_reg(fp16_regcmds(p)[54]) == DPU_FEATURE_MODE_CFG,
        regcmd_value(fp16_regcmds(p)[54]) == 0x1E4,
        regcmd_reg(fp16_regcmds(p)[63]) == DPU_BS_CFG,
        regcmd_value(fp16_regcmds(p)[63]) == 0x53,
        regcmd_reg(fp16_regcmds(p)[71]) == DPU_BN_CFG,
        regcmd_value(fp16_regcmds(p)[71]) == 0x53,
        regcmd_reg(fp16_regcmds(p)[75]) == DPU_EW_CFG,
        regcmd_value(fp16_regcmds(p)[75]) == 0x383,
        regcmd_reg(fp16_regcmds(p)[49]) == CORE_MISC_CFG,
        regcmd_value(fp16_regcmds(p)[49]) == precision_code(Precision::Float16) * 0x100 + 1,
        regcmd_reg(fp16_regcmds(p)[50]) == CORE_DATAOUT_SIZE_0,
        regcmd_value(fp16_regcmds(p)[50]) == (p.m - 1) * 0x10000,
        regcmd_reg(fp16_regcmds(p)[51]) == CORE_DATAOUT_SIZE_1,
        regcmd_value(fp16_regcmds(p)[51]) == p.n - 1,
        regcmd_reg(fp16_regcmds(p)[55]) == DPU_DATA_FORMAT,
        regcmd_value(fp16_regcmds(p)[55]) == (if p.fp32tofp16 == 0 {
            precision_code(Precision::Float32)
        } else {
            precision_code(Precision::Float16)
        }) as int * 0x2000_0000 + precision_code(Precision::Float16) * 0x400_0001,
        regcmd_reg(fp16_regcmds(p)[58]) == DPU_DST_SURF_STRIDE,
        regcmd_value(fp16_regcmds(p)[58]) == p.m * 0x10,
        regcmd_reg(fp16_regcmds(p)[59]) == DPU_DATA_CUBE_WIDTH,
        regcmd_value(fp16_regcmds(p)[59]) == 0,
        regcmd_reg(fp16_regcmds(p)[60]) == DPU_DATA_CUBE_HEIGHT,
        regcmd_value(fp16_regcmds(p)[60]) == (p.m - 1) % 0x2000,
        regcmd_reg(fp16_regcmds(p)[62]) == DPU_DATA_CUBE_CHANNEL,
        regcmd_value(fp16_regcmds(p)[62]) == ((p.n - 1) % 0x2000) * 0x10001,
        regcmd_reg(fp16_regcmds(p)[67]) == DPU_BS_OW_CFG,
        regcmd_value(fp16_regcmds(p)[67]) == (if p.fp32tofp16 == 0 { 3int } else { 1 }) * 0x124 + 2,
        regcmd_reg(fp16_regcmds(p)[69]) == DPU_WDMA_SIZE_0,
        regcmd_value(fp16_regcmds(p)[69]) == (p.n - 1) % 0x2000,
        regcmd_reg(fp16_regcmds(p)[70]) == DPU_WDMA_SIZE_1,
        regcmd_value(fp16_regcmds(p)[70]) == ((p.m - 1) % 0x2000) * 0x10000,
        regcmd_reg(fp16_regcmds(p)[80]) == DPU_OUT_CVT_SCALE,
        regcmd_value(fp16_regcmds(p)[80]) == (p.fp32tofp16 % 2) * 0x10000 + 1,
        regcmd_reg(fp16_regcmds(p)[90]) == DPU_SURFACE_ADD,
        regcmd_value(fp16_regcmds(p)[90]) == p.m * (if p.fp32tofp16 == 0 { 0x40int } else { 0x20 }),
{
    let (c, k, d) = fp16_descs(p);
    let f = p.fp32tofp16;
    assert(f & 1 == f % 2) by (bit_vector);
    lemma_task_core_registers(c, k, d);
    lemma_task_dpu_registers(c, k, d);
    lemma_task_dpu_output_registers(c, k, d);
}

/// Law of the INT8 task's CORE and DPU set-up, for every multiplication that
/// fits: the CORE works in INT8 with quantisation off and produces `m` rows
/// (height `m - 1`) of `n` channels (count `n - 1`); the DPU takes the same
/// cube, writes it through a write DMA of height `m - 1` and width 0, in
/// INT32 with a surface step of `8 * m`, and the output scale is
/// 1 with the FP32-to-FP16 conversion off. The DPU writes to memory with
/// burst length 15, and its BS, BN and EW stages are bypassed.
pub proof fn lemma_int8_output_registers(p: MatmulParams)
    requires
        int8_params_valid(p),
        fits_in_cbuf(p.m as int, p.k as int, 1),
    ensures
        regcmd_reg(int8_regcmds(p)[54]) == DPU_FEATURE_MODE_CFG,
        regcmd_value(int8_regcmds(p)[54]) == 0x1E4,
        regcmd_reg(int8_regcmds(p)[63]) == DPU_BS_CFG,
        regcmd_value(int8_regcmds(p)[63]) == 0x53,
        regcmd_reg(int8_regcmds(p)[71]) == DPU_BN_CFG,
        regcmd_value(int8_regcmds(p)[71]) == 0x53,
        regcmd_reg(int8_regcmds(p)[75]) == DPU_EW_CFG,
        regcmd_value(int8_regcmds(p)[75]) == 0x383,
        regcmd_reg(int8_regcmds(p)[49]) == CORE_MISC_CFG,
        regcmd_value(int8_regcmds(p)[49]) == precision_code(Precision::Int8) * 0x100,
        regcmd_reg(int8_regcmds(p)[50]) == CORE_DATAOUT_SIZE_0,
        regcmd_value(int8_regcmds(p)[50]) == (p.m - 1) * 0x10000,
        regcmd_reg(int8_regcmds(p)[51]) == CORE_DATAOUT_SIZE_1,
        regcmd_value(int8_regcmds(p)[51]) == p.n - 1,
        regcmd_reg(int8_regcmds(p)[55]) == DPU_DATA_FORMAT,
        regcmd_value(int8_regcmds(p)[55]) == precision_code(Precision::Int32) * 0x2000_0000
            + precision_code(Precision::Int8) * 0x400_0001,
        regcmd_reg(int8_regcmds(p)[58]) == DPU_DST_SURF_STRIDE,
        regcmd_value(int8_regcmds(p)[58]) == p.m * 0x10,
        regcmd_reg(int8_regcmds(p)[59]) == DPU_DATA_CUBE_WIDTH,
        regcmd_value(int8_regcmds(p)[59]) == 0,
        regcmd_reg(int8_regcmds(p)[60]) == DPU_DATA_CUBE_HEIGHT,
        regcmd_value(int8_regcmds(p)[60]) == (p.m - 1) % 0x2000,
        regcmd_reg(int8_regcmds(p)[62]) == DPU_DATA_CUBE_CHANNEL,
        regcmd_value(int8_regcmds(p)[62]) == ((p.n - 1) % 0x2000) * 0x10001,
        regcmd_reg(int8_regcmds(p)[67]) == DPU_BS_OW_CFG,
        regcmd_value(int8_regcmds(p)[67]) == 7 * 0x124 + 2,
        regcmd_reg(int8_regcmds(p)[69]) == DPU_WDMA_SIZE_0,
        regcmd_value(int8_regcmds(p)[69]) == (p.n - 1) % 0x2000,
        regcmd_reg(int8_regcmds(p)[70]) == DPU_WDMA_SIZE_1,
        regcmd_value(int8_regcmds(p)[70]) == ((p.m - 1) % 0x2000) * 0x10000,
        regcmd_reg(int8_regcmds(p)[80]) == DPU_OUT_CVT_SCALE,
        regcmd_value(int8_regcmds(p)[80]) == 1,
        regcmd_reg(int8_regcmds(p)[90]) == DPU_SURFACE_ADD,
        regcmd_value(int8_regcmds(p)[90]) == p.m * 0x80,
{
    let (c, k, d) = int8_descs(p);
    lemma_task_core_registers(c, k, d);
    lemma_task_dpu_registers(c, k, d);
    lemma_task_dpu_output_registers(c, k, d);
}

/// Law of the INT8 output format: whatever the parameters, the DPU writes
/// INT32 results, and the conversion bit of the output-conversion register
/// is clear, so the INT32 results are not converted to FP16.
pub proof fn lemma_int8_output_precision(p: MatmulParams)
    ensures
        (regcmd_value(int8_regcmds(p)[55]) >> 29u64) & 7 == precision_code(Precision::Int32),
        (regcmd_value(int8_regcmds(p)[80]) >> 16u64) & 1 == 0,
{
    let (c, k, d) = int8_descs(p);
    lemma_task_dpu_registers(c, k, d);
    lemma_task_dpu_output_registers(c, k, d);
    let v55 = regcmd_value(int8_regcmds(p)[55]);
    let v80 = regcmd_value(int8_regcmds(p)[80]);
    assert((v55 >> 29u64) & 7 == 4 && (v80 >> 16u64) & 1 == 0) by (bit_vector)
        requires
            v55 == 0x8000_0000u64,
            v80 == 1u64,
    ;
}

/// Law of the end of a task: every register list closes by handing the
/// register count to the PC and then starting the PC, CNA and DPU.
pub proof fn lemma_task_ends_with_enable(c: NpuCnaDesc, k: NpuCoreDesc, d: NpuDpuDesc)
    ensures
        regcmd_reg(task_regcmds(c, k, d)[105]) == PC_REGISTER_AMOUNTS,
        regcmd_op(task_regcmds(c, k, d)[107]) == OP_ENABLE,
        regcmd_reg(task_regcmds(c, k, d)[107]) == PC_OPERATION_ENABLE,
        regcmd_value(task_regcmds(c, k, d)[107]) == PC_ENABLE_DPU | PC_ENABLE_CNA | PC_ENABLE,
{
    lemma_regcmd_fields(OP_REG_PC, 0, PC_REGISTER_AMOUNTS);
    lemma_regcmd_fields(OP_ENABLE, PC_ENABLE_DPU | PC_ENABLE_CNA | PC_ENABLE, PC_OPERATION_ENABLE);
}

/// Quotient of `a / b` rounded toward zero, as integer division does (spec
/// `/` on the non-negative dividend is Euclidean division).
pub open spec fn tdiv(a: int, b: int) -> int {
    if a >= 0 {
        a / b
    } else {
        -((-a) / b)
    }
}

/// Remainder of `a / b` with the quotient rounded toward zero; it takes the
/// sign of `a`.
pub open spec fn trem(a: int, b: int) -> int {
    if a >= 0 {
        a % b
    } else {
        -((-a) % b)
    }
}

/// A quotient rounded toward zero is no larger in magnitude than the
/// dividend, and at most half of it when the divisor is not `1` or `-1`; so
/// it is an `i32` whenever the division of `i32`s does not overflow.
#[verifier::spinoff_prover]
pub proof fn lemma_tdiv_bounded(a: int, b: int)
    requires
        b != 0,
    ensures
        vstd::math::abs(tdiv(a, b)) <= vstd::math::abs(a),
        vstd::math::abs(b) >= 2 ==> 2 * vstd::math::abs(tdiv(a, b)) <= vstd::math::abs(a),
        in_i32(a) && !(a == i32::MIN && b == -1) ==> in_i32(tdiv(a, b)),
{
    let x = if a >= 0 { a } else { -a };
    let q = x / b;
    vstd::arithmetic::div_mod::lemma_fundamental_div_mod(x, b);
    assert(-x <= q <= x) by (nonlinear_arith)
        requires
            x >= 0,
            b != 0,
            x == b * q + x % b,
            0 <= x % b < vstd::math::abs(b),
    ;
    assert(vstd::math::abs(b) >= 2 ==> -x <= 2 * q <= x) by (nonlinear_arith)
        requires
            x >= 0,
            b != 0,
            x == b * q + x % b,
            0 <= x % b < vstd::math::abs(b),
    ;
    if b == -1 {
        assert(q == -x) by (nonlinear_arith)
            requires
                b == -1,
                x == b * q + x % b,
                0 <= x % b < 1,
        ;
    }
}

/// `x` is representable as an `i32`.
pub open spec fn in_i32(x: int) -> bool {
    i32::MIN <= x <= i32::MAX
}

/// Position of feature element (`c_val`, `h_val`, `w_val`) (counted from 1)
/// in the NPU feature layout of a `h` x `w` plane with channels grouped
/// `c2` at a time: whole groups of channels are stored one after the other,
/// and inside a group the `c2` channels of each pixel are contiguous.
pub open spec fn feature_data_pos(h: int, w: int, c2: int, c_val: int, h_val: int, w_val: int) -> int {
    let plane = tdiv(c_val - 1, c2);
    let offset = trem(c_val - 1, c2);
    plane * h * w * c2 + c2 * ((h_val - 1) * w + (w_val - 1)) + offset
}

/// `feature_data` computes without overflow or division by zero.
pub open spec fn feature_data_defined(h: int, w: int, c2: int, c_val: int, h_val: int, w_val: int) -> bool {
    let plane = tdiv(c_val - 1, c2);
    let offset = trem(c_val - 1, c2);
    let src = plane * h * w * c2;
    let pix = (h_val - 1) * w + (w_val - 1);
    &&& c2 != 0
    &&& in_i32(c_val - 1)
    &&& !(c_val - 1 == i32::MIN && c2 == -1)
    &&& in_i32(plane * h)
    &&& in_i32(plane * h * w)
    &&& in_i32(src)
    &&& in_i32(h_val - 1)
    &&& in_i32((h_val - 1) * w)
    &&& in_i32(w_val - 1)
    &&& in_i32(pix)
    &&& in_i32(c2 * pix)
    &&& in_i32(src + c2 * pix)
    &&& in_i32(src + c2 * pix + offset)
}

/// Calculate feature data position: the index of feature element
/// (`c_val`, `h_val`, `w_val`), counted from 1, in the NPU feature layout
/// of `h` x `w` planes with channels grouped `c2` at a time.
pub fn feature_data(_c: i32, h: i32, w: i32, c2: i32, c_val: i32, h_val: i32, w_val: i32) -> (pos: i32)
    requires
        feature_data_defined(h as int, w as int, c2 as int, c_val as int, h_val as int, w_val as int),
    ensures
        pos == feature_data_pos(h as int, w as int, c2 as int, c_val as int, h_val as int, w_val as int),
{
    proof {
        lemma_tdiv_bounded(c_val - 1, c2 as int);
    }
    let plane = (c_val - 1) / c2;
    assert(plane == tdiv(c_val - 1, c2 as int));
    let src = plane * h * w * c2;
    let offset = (c_val - 1) % c2;
    assert(offset == trem(c_val - 1, c2 as int));
    let pos = src + c2 * ((h_val - 1) * w + (w_val - 1)) + offset;
    pos
}

/// Position of weight (`k`, `c_val`) (output kernel `k`, input channel
/// `c_val`, both counted from 1) in the NPU weight layout for `c` input
/// channels, with kernels grouped `kgroup` at a time and channels 32 at a
/// time: each kernel group takes `kgroup * c` elements, inside it each block
/// of 32 channels takes `32 * kgroup` elements, and inside a block the 32
/// channels of one kernel are contiguous.
pub open spec fn weight_pos(c: int, k: int, c_val: int, kgroup: int) -> int {
    let kpg = tdiv(k - 1, kgroup);
    let cpg = tdiv(c_val - 1, 32);
    (cpg * 32) * kgroup + kpg * kgroup * c + trem(c_val - 1, 32) + trem(k - 1, kgroup) * 32
}

/// The weight position computes without overflow.
pub open spec fn weight_pos_defined(c: int, k: int, c_val: int, kgroup: int) -> bool {
    let kpg = tdiv(k - 1, kgroup);
    let cpg = tdiv(c_val - 1, 32);
    let base = (cpg * 32) * kgroup + kpg * kgroup * c;
    &&& in_i32(k - 1)
    &&& in_i32(c_val - 1)
    &&& in_i32(cpg * 32)
    &&& in_i32((cpg * 32) * kgroup)
    &&& in_i32(kpg * kgroup)
    &&& in_i32(kpg * kgroup * c)
    &&& in_i32(base)
    &&& in_i32(base + trem(c_val - 1, 32))
    &&& in_i32(trem(k - 1, kgroup) * 32)
    &&& in_i32(base + trem(c_val - 1, 32) + trem(k - 1, kgroup) * 32)
}

/// Calculate weight position for FP16: the index of weight (`k`, `c_val`),
/// counted from 1, in the FP16 weight layout for `c` input channels
/// (kernels grouped 16 at a time).
pub fn weight_fp16(c: i32, k: i32, c_val: i32) -> (dst: i32)
    requires
        weight_pos_defined(c as int, k as int, c_val as int, 16),
    ensures
        dst == weight_pos(c as int, k as int, c_val as int, 16),
{
    proof {
        lemma_tdiv_bounded(k - 1, 16);
        lemma_tdiv_bounded(c_val - 1, 32);
    }
    let kpg = (k - 1) / 16;
    let cpg = (c_val - 1) / 32;
    let mut dst = (cpg * 32) * 16 + kpg * 16 * c;
    dst = dst + ((c_val - 1) % 32) + (((k - 1) % 16) * 32);
    dst
}

/// Calculate weight position for INT8: the index of weight (`k`, `c_val`),
/// counted from 1, in the INT8 weight layout for `c` input channels
/// (kernels grouped 32 at a time).
pub fn weight_int8(c: i32, k: i32, c_val: i32) -> (dst: i32)
    requires
        weight_pos_defined(c as int, k as int, c_val as int, 32),
    ensures
        dst == weight_pos(c as int, k as int, c_val as int, 32),
{
    proof {
        lemma_tdiv_bounded(k - 1, 32);
        lemma_tdiv_bounded(c_val - 1, 32);
    }
    let kpg = (k - 1) / 32;
    let cpg = (c_val - 1) / 32;
    let mut dst = (cpg * 32) * 32 + kpg * 32 * c;
    dst = dst + ((c_val - 1) % 32) + (((k - 1) % 32) * 32);
    dst
}

/// A weight position, for kernel and channel numbers counted from 1, is
/// `kernel_group * (kgroup * c) + channel_block * (32 * kgroup)
/// + kernel_in_group * 32 + channel_in_block`.
proof fn lemma_weight_pos_parts(c: int, k: int, c_val: int, kgroup: int)
    requires
        kgroup == 16 || kgroup == 32,
        k >= 1,
        c_val >= 1,
    ensures
        weight_pos(c, k, c_val, kgroup) == ((k - 1) / kgroup) * (kgroup * c) + ((c_val - 1) / 32) * (32
            * kgroup) + ((k - 1) % kgroup) * 32 + (c_val - 1) % 32,
{
    let q1 = (k - 1) / kgroup;
    let q2 = (c_val - 1) / 32;
    assert((q2 * 32) * kgroup + q1 * kgroup * c == q1 * (kgroup * c) + q2 * (32 * kgroup))
        by (nonlinear_arith);
}

/// Law of the weight order: the first weight (kernel 1, channel 1) comes
/// first; the next channel of the same block of 32 channels comes next; the
/// next kernel of the same group of `kgroup` kernels comes 32 later; after
/// the last channel of a block, the next channel starts a new block
/// `32 * kgroup` further on; after the last kernel of a group, the next
/// kernel starts a new group `kgroup * c` further on.
pub proof fn lemma_weight_order(c: int, k: int, c_val: int, kgroup: int)
    requires
        kgroup == 16 || kgroup == 32,
        k >= 1,
        c_val >= 1,
    ensures
        weight_pos(c, 1, 1, kgroup) == 0,
        c_val % 32 != 0 ==> weight_pos(c, k, c_val + 1, kgroup) == weight_pos(c, k, c_val, kgroup)
            + 1,
        k % kgroup != 0 ==> weight_pos(c, k + 1, c_val, kgroup) == weight_pos(c, k, c_val, kgroup)
            + 32,
        c_val % 32 == 0 ==> weight_pos(c, k, c_val + 1, kgroup) == weight_pos(c, k, c_val, kgroup)
            - 31 + 32 * kgroup,
        k % kgroup == 0 ==> weight_pos(c, k + 1, c_val, kgroup) == weight_pos(c, k, c_val, kgroup)
            - 32 * (kgroup - 1) + kgroup * c,
{
    lemma_weight_pos_parts(c, 1, 1, kgroup);
    lemma_weight_pos_parts(c, k, c_val, kgroup);
    lemma_weight_pos_parts(c, k + 1, c_val, kgroup);
    lemma_weight_pos_parts(c, k, c_val + 1, kgroup);
    lemma_next_quotient(c_val - 1, 32);
    lemma_next_quotient(k - 1, kgroup);
    let kq = (k - 1) / kgroup;
    assert((kq + 1) * (kgroup * c) == kq * (kgroup * c) + kgroup * c) by (nonlinear_arith);
    let cq = (c_val - 1) / 32;
    assert((cq + 1) * (32 * kgroup) == cq * (32 * kgroup) + 32 * kgroup) by (nonlinear_arith);
}

/// How quotient and remainder by `b` move from `a` to `a + 1`: the
/// remainder grows by one, unless `a + 1` is a multiple of `b`, where the
/// quotient grows by one and the remainder falls back to zero.
proof fn lemma_next_quotient(a: int, b: int)
    requires
        a >= 0,
        b > 0,
    ensures
        (a + 1) % b != 0 ==> (a + 1) / b == a / b && (a + 1) % b == a % b + 1,
        (a + 1) % b == 0 ==> (a + 1) / b == a / b + 1 && a % b == b - 1,
{
    vstd::arithmetic::div_mod::lemma_fundamental_div_mod(a, b);
    let q = a / b;
    let r = a % b;
    assert(b * q == q * b) by (nonlinear_arith);
    vstd::arithmetic::div_mod::lemma_mod_bound(a, b);
    if r + 1 < b {
        vstd::arithmetic::div_mod::lemma_fundamental_div_mod_converse(a + 1, b, q, r + 1);
    } else {
        assert(a + 1 == (q + 1) * b + 0) by (nonlinear_arith)
            requires
                a == b * q + r,
                r + 1 == b,
        ;
        vstd::arithmetic::div_mod::lemma_fundamental_div_mod_converse(a + 1, b, q + 1, 0);
    }
}

/// Law of the feature order: the first element (channel 1 at row 1, column
/// 1) comes first; the next channel of the same group of `c2` comes next;
/// the next column comes `c2` later and the next row `w * c2` later; after
/// the last channel of a group, the next channel starts a new plane
/// `h * w * c2` further on, at the same row and column.
pub proof fn lemma_feature_order(h: int, w: int, c2: int, c_val: int, h_val: int, w_val: int)
    requires
        c2 > 0,
        c_val >= 1,
    ensures
        feature_data_pos(h, w, c2, 1, 1, 1) == 0,
        c_val % c2 != 0 ==> feature_data_pos(h, w, c2, c_val + 1, h_val, w_val) == feature_data_pos(
            h,
            w,
            c2,
            c_val,
            h_val,
            w_val,
        ) + 1,
        feature_data_pos(h, w, c2, c_val, h_val, w_val + 1) == feature_data_pos(
            h,
            w,
            c2,
            c_val,
            h_val,
            w_val,
        ) + c2,
        feature_data_pos(h, w, c2, c_val, h_val + 1, w_val) == feature_data_pos(
            h,
            w,
            c2,
            c_val,
            h_val,
            w_val,
        ) + w * c2,
        c_val % c2 == 0 ==> feature_data_pos(h, w, c2, c_val + 1, h_val, w_val) == feature_data_pos(
            h,
            w,
            c2,
            c_val,
            h_val,
            w_val,
        ) - (c2 - 1) + h * w * c2,
{
    lemma_feature_pos_parts(h, w, c2, 1, 1, 1);
    lemma_feature_pos_parts(h, w, c2, c_val, h_val, w_val);
    lemma_feature_pos_parts(h, w, c2, c_val + 1, h_val, w_val);
    lemma_feature_pos_parts(h, w, c2, c_val, h_val, w_val + 1);
    lemma_feature_pos_parts(h, w, c2, c_val, h_val + 1, w_val);
    lemma_next_quotient(c_val - 1, c2);
    let q = (c_val - 1) / c2;
    let pix = (h_val - 1) * w + (w_val - 1);
    vstd::arithmetic::div_mod::lemma_fundamental_div_mod_converse(0, c2, 0, 0);
    assert(h_val * w + (w_val - 1) == pix + w) by (nonlinear_arith)
        requires
            pix == (h_val - 1) * w + (w_val - 1),
    ;
    assert((q * (h * w) + pix + 1) * c2 == (q * (h * w) + pix) * c2 + c2) by (nonlinear_arith);
    assert((q * (h * w) + pix + w) * c2 == (q * (h * w) + pix) * c2 + w * c2) by (nonlinear_arith);
    assert(((q + 1) * (h * w) + pix) * c2 == (q * (h * w) + pix) * c2 + h * w * c2)
        by (nonlinear_arith);
}

/// Law of the weight layout: for `c` input channels (a multiple of 32) and
/// `kernels` output kernels (a multiple of the kernel group), every weight
/// (`k`, `c_val`) with `1 <= k <= kernels` and `1 <= c_val <= c` lands in
/// `0 .. c * kernels`, and two different weights never share a position.
pub proof fn lemma_weight_layout(
    c: int,
    kernels: int,
    kgroup: int,
    k1: int,
    c_val1: int,
    k2: int,
    c_val2: int,
)
    requires
        kgroup == 16 || kgroup == 32,
        c > 0,
        c % 32 == 0,
        kernels > 0,
        kernels % kgroup == 0,
        1 <= k1 <= kernels,
        1 <= k2 <= kernels,
        1 <= c_val1 <= c,
        1 <= c_val2 <= c,
    ensures
        0 <= weight_pos(c, k1, c_val1, kgroup) < c * kernels,
        weight_pos(c, k1, c_val1, kgroup) == weight_pos(c, k2, c_val2, kgroup) ==> k1 == k2 && c_val1
            == c_val2,
{
    lemma_weight_pos_decomposes(c, kernels, kgroup, k1, c_val1);
    lemma_weight_pos_decomposes(c, kernels, kgroup, k2, c_val2);
}

/// A weight position determines the weight: kernel group, channel block,
/// kernel in group and channel in block are read back from it by division.
#[verifier::spinoff_prover]
proof fn lemma_weight_pos_decomposes(c: int, kernels: int, kgroup: int, k: int, c_val: int)
    requires
        kgroup == 16 || kgroup == 32,
        c > 0,
        c % 32 == 0,
        kernels > 0,
        kernels % kgroup == 0,
        1 <= k <= kernels,
        1 <= c_val <= c,
    ensures
        ({
            let pos = weight_pos(c, k, c_val, kgroup);
            let mid = pos % (kgroup * c);
            let inner = mid % (32 * kgroup);
            &&& 0 <= pos < c * kernels
            &&& k - 1 == (pos / (kgroup * c)) * kgroup + inner / 32
            &&& c_val - 1 == (mid / (32 * kgroup)) * 32 + inner % 32
        }),
{
    lemma_weight_pos_parts(c, k, c_val, kgroup);
    let a = k - 1;
    let b = c_val - 1;
    let q1 = a / kgroup;
    let r1 = a % kgroup;
    let q2 = b / 32;
    let r2 = b % 32;
    vstd::arithmetic::div_mod::lemma_fundamental_div_mod(a, kgroup);
    vstd::arithmetic::div_mod::lemma_fundamental_div_mod(b, 32);
    vstd::arithmetic::div_mod::lemma_fundamental_div_mod(c, 32);
    vstd::arithmetic::div_mod::lemma_fundamental_div_mod(kernels, kgroup);
    let inner = r1 * 32 + r2;
    let mid = q2 * (32 * kgroup) + inner;
    let pos = weight_pos(c, k, c_val, kgroup);
    assert(pos == q1 * (kgroup * c) + mid);
    assert(0 <= inner < 32 * kgroup) by (nonlinear_arith)
        requires
            0 <= r1 < kgroup,
            0 <= r2 < 32,
            inner == r1 * 32 + r2,
    ;
    assert(0 <= q2 < c / 32) by (nonlinear_arith)
        requires
            0 <= b < c,
            b == 32 * q2 + r2,
            0 <= r2 < 32,
            c == 32 * (c / 32) + c % 32,
            c % 32 == 0,
    ;
    assert(0 <= q1 < kernels / kgroup) by (nonlinear_arith)
        requires
            0 <= a < kernels,
            a == kgroup * q1 + r1,
            0 <= r1 < kgroup,
            kernels == kgroup * (kernels / kgroup) + kernels % kgroup,
            kernels % kgroup == 0,
            kgroup > 0,
    ;
    assert(0 <= mid < kgroup * c) by (nonlinear_arith)
        requires
            0 <= q2 < c / 32,
            0 <= inner < 32 * kgroup,
            mid == q2 * (32 * kgroup) + inner,
            c == 32 * (c / 32),
            kgroup > 0,
    ;
    assert(0 <= pos < c * kernels) by (nonlinear_arith)
        requires
            0 <= q1 < kernels / kgroup,
            0 <= mid < kgroup * c,
            pos == q1 * (kgroup * c) + mid,
            kernels == kgroup * (kernels / kgroup),
            kgroup > 0,
            c > 0,
    ;
    vstd::arithmetic::div_mod::lemma_fundamental_div_mod_converse(pos, kgroup * c, q1, mid);
    vstd::arithmetic::div_mod::lemma_fundamental_div_mod_converse(mid, 32 * kgroup, q2, inner);
    vstd::arithmetic::div_mod::lemma_fundamental_div_mod_converse(inner, 32, r1, r2);
}

/// A feature position, for numbers counted from 1, is
/// `((plane * h * w) + pixel) * c2 + channel_in_group` with
/// `pixel = (h_val - 1) * w + (w_val - 1)`.
proof fn lemma_feature_pos_parts(h: int, w: int, c2: int, c_val: int, h_val: int, w_val: int)
    requires
        c2 > 0,
        c_val >= 1,
    ensures
        feature_data_pos(h, w, c2, c_val, h_val, w_val) == (((c_val - 1) / c2) * (h * w) + ((h_val - 1)
            * w + (w_val - 1))) * c2 + (c_val - 1) % c2,
{
    let q = (c_val - 1) / c2;
    let pix = (h_val - 1) * w + (w_val - 1);
    assert(q * h * w * c2 + c2 * pix == (q * (h * w) + pix) * c2) by (nonlinear_arith);
}

/// A feature position determines the element: channel in group, pixel and
/// channel group are read back from it by division.
#[verifier::spinoff_prover]
proof fn lemma_feature_pos_decomposes(
    c: int,
    h: int,
    w: int,
    c2: int,
    c_val: int,
    h_val: int,
    w_val: int,
)
    requires
        c2 > 0,
        h > 0,
        w > 0,
        1 <= c_val <= c,
        1 <= h_val <= h,
        1 <= w_val <= w,
    ensures
        ({
            let pos = feature_data_pos(h, w, c2, c_val, h_val, w_val);
            let cell = pos / c2;
            let pix = cell % (h * w);
            &&& 0 <= pos < ((c - 1) / c2 + 1) * h * w * c2
            &&& c_val - 1 == (cell / (h * w)) * c2 + pos % c2
            &&& h_val - 1 == pix / w
            &&& w_val - 1 == pix % w
        }),
{
    lemma_feature_pos_parts(h, w, c2, c_val, h_val, w_val);
    let a = c_val - 1;
    let plane = a / c2;
    let off = a % c2;
    vstd::arithmetic::div_mod::lemma_fundamental_div_mod(a, c2);
    let pix = (h_val - 1) * w + (w_val - 1);
    let cell = plane * (h * w) + pix;
    let pos = feature_data_pos(h, w, c2, c_val, h_val, w_val);
    assert(pos == cell * c2 + off);
    assert(0 <= pix < h * w) by (nonlinear_arith)
        requires
            1 <= h_val <= h,
            1 <= w_val <= w,
            pix == (h_val - 1) * w + (w_val - 1),
    ;
    assert(0 <= plane <= (c - 1) / c2) by (nonlinear_arith)
        requires
            0 <= a <= c - 1,
            c2 > 0,
            plane == a / c2,
    {
        vstd::arithmetic::div_mod::lemma_div_is_ordered(a, c - 1, c2);
        vstd::arithmetic::div_mod::lemma_div_pos_is_pos(a, c2);
    }
    assert(0 <= cell < ((c - 1) / c2 + 1) * (h * w)) by (nonlinear_arith)
        requires
            0 <= plane <= (c - 1) / c2,
            0 <= pix < h * w,
            cell == plane * (h * w) + pix,
    ;
    assert(0 <= pos < ((c - 1) / c2 + 1) * h * w * c2) by (nonlinear_arith)
        requires
            0 <= cell < ((c - 1) / c2 + 1) * (h * w),
            0 <= off < c2,
            pos == cell * c2 + off,
    ;
    vstd::arithmetic::div_mod::lemma_fundamental_div_mod_converse(pos, c2, cell, off);
    vstd::arithmetic::div_mod::lemma_fundamental_div_mod_converse(cell, h * w, plane, pix);
    vstd::arithmetic::div_mod::lemma_fundamental_div_mod_converse(pix, w, h_val - 1, w_val - 1);
}

/// Law of the feature layout: for `c` channels grouped `c2` at a time over an
/// `h` x `w` plane, every element (`c_val`, `h_val`, `w_val`) within those
/// bounds lands in `0 .. ceil(c / c2) * h * w * c2`, and two different
/// elements never share a position.
pub proof fn lemma_feature_layout(
    c: int,
    h: int,
    w: int,
    c2: int,
    c_val1: int,
    h_val1: int,
    w_val1: int,
    c_val2: int,
    h_val2: int,
    w_val2: int,
)
    requires
        c2 > 0,
        h > 0,
        w > 0,
        1 <= c_val1 <= c,
        1 <= h_val1 <= h,
        1 <= w_val1 <= w,
        1 <= c_val2 <= c,
        1 <= h_val2 <= h,
        1 <= w_val2 <= w,
    ensures
        0 <= feature_data_pos(h, w, c2, c_val1, h_val1, w_val1) < ceil_div(c, c2) * h * w * c2,
        feature_data_pos(h, w, c2, c_val1, h_val1, w_val1) == feature_data_pos(
            h,
            w,
            c2,
            c_val2,
            h_val2,
            w_val2,
        ) ==> c_val1 == c_val2 && h_val1 == h_val2 && w_val1 == w_val2,
{
    lemma_feature_pos_decomposes(c, h, w, c2, c_val1, h_val1, w_val1);
    lemma_feature_pos_decomposes(c, h, w, c2, c_val2, h_val2, w_val2);
    assert(ceil_div(c, c2) == (c - 1) / c2 + 1) by {
        assert(c + c2 - 1 == (c - 1) + c2 * 1);
        vstd::arithmetic::div_mod::lemma_div_plus_one(c - 1, c2);
    }
}

/// Every weight position of a `c`-channel, `kernels`-kernel layout
/// computes without overflow when the layout size `c * kernels` is an `i32`.
#[verifier::spinoff_prover]
pub proof fn lemma_weight_pos_defined(c: int, kernels: int, kgroup: int, k: int, c_val: int)
    requires
        kgroup == 16 || kgroup == 32,
        c > 0,
        c % 32 == 0,
        kernels > 0,
        kernels % kgroup == 0,
        c * kernels <= i32::MAX,
        1 <= k <= kernels,
        1 <= c_val <= c,
    ensures
        weight_pos_defined(c, k, c_val, kgroup),
        0 <= weight_pos(c, k, c_val, kgroup) < c * kernels,
{
    lemma_weight_pos_decomposes(c, kernels, kgroup, k, c_val);
    lemma_weight_pos_parts(c, k, c_val, kgroup);
    let a = k - 1;
    let b = c_val - 1;
    let q1 = a / kgroup;
    let r1 = a % kgroup;
    let q2 = b / 32;
    let r2 = b % 32;
    vstd::arithmetic::div_mod::lemma_fundamental_div_mod(a, kgroup);
    vstd::arithmetic::div_mod::lemma_fundamental_div_mod(b, 32);
    vstd::arithmetic::div_mod::lemma_fundamental_div_mod(kernels, kgroup);
    assert(0 <= q1 * kgroup <= a && 0 <= q2 * 32 <= b) by (nonlinear_arith)
        requires
            a == kgroup * q1 + r1,
            0 <= r1 < kgroup,
            b == 32 * q2 + r2,
            0 <= r2 < 32,
            a >= 0,
            b >= 0,
            kgroup > 0,
    ;
    assert(kgroup <= kernels) by (nonlinear_arith)
        requires
            kernels == kgroup * (kernels / kgroup) + kernels % kgroup,
            kernels % kgroup == 0,
            kernels > 0,
            kgroup > 0,
    ;
    assert(0 <= (q2 * 32) * kgroup <= c * kernels && 0 <= q1 * kgroup * c <= c
        * kernels) by (nonlinear_arith)
        requires
            0 <= q2 * 32 <= b < c,
            0 <= q1 * kgroup <= a < kernels,
            kgroup <= kernels,
            c > 0,
            kgroup > 0,
    ;
    assert(0 <= r1 * 32 < 32 * kgroup <= c * kernels) by (nonlinear_arith)
        requires
            0 <= r1 < kgroup,
            kgroup <= kernels,
            32 <= c,
            kgroup > 0,
    ;
    assert(q1 * kgroup * c == q1 * (kgroup * c)) by (nonlinear_arith);
    assert(c >= 32) by (nonlinear_arith)
        requires
            c > 0,
            c % 32 == 0,
    {
        vstd::arithmetic::div_mod::lemma_fundamental_div_mod(c, 32);
    }
    assert(kernels <= c * kernels) by (nonlinear_arith)
        requires
            c >= 1,
            kernels >= 1,
    ;
    assert(tdiv(a, kgroup) == q1 && tdiv(b, 32) == q2 && trem(a, kgroup) == r1 && trem(b, 32)
        == r2);
    let base = (q2 * 32) * kgroup + q1 * kgroup * c;
    assert(base + r2 + r1 * 32 == weight_pos(c, k, c_val, kgroup));
    assert(c * kernels <= i32::MAX);
    assert(in_i32(k - 1));
    assert(in_i32(c_val - 1));
    assert(in_i32(q2 * 32));
    assert(in_i32((q2 * 32) * kgroup));
    assert(in_i32(q1 * kgroup));
    assert(in_i32(q1 * kgroup * c));
    assert(0 <= base <= base + r2 <= base + r2 + r1 * 32 < c * kernels);
    assert(in_i32(base));
    assert(in_i32(base + r2));
    assert(in_i32(r1 * 32));
    assert(in_i32(base + r2 + r1 * 32));
}

/// Positions in the FP16 weight layout of `c` input channels of every
/// element of a row-major `kernels` x `channels` weight matrix: element
/// (`n`, `k`), counted from 1, is at `weight_fp16(c, n, k)`.
#[verifier::spinoff_prover]
pub fn weight_fp16_indices(c: i32, kernels: i32, channels: i32) -> (v: Vec<usize>)
    requires
        c > 0,
        c % 32 == 0,
        kernels > 0,
        kernels % 16 == 0,
        c * kernels <= i32::MAX,
        0 <= channels <= c,
    ensures
        v@.len() == kernels * channels,
        forall|n: int, k: int|
            1 <= n <= kernels && 1 <= k <= channels ==> #[trigger] v@[(n - 1) * channels + (k - 1)]
                == weight_pos(c as int, n, k, 16),
{
    let mut v: Vec<usize> = Vec::new();
    let mut n: i32 = 1;
    while n <= kernels
        invariant
            1 <= n <= kernels + 1,
            c > 0,
            c % 32 == 0,
            kernels > 0,
            kernels % 16 == 0,
            c * kernels <= i32::MAX,
            0 <= channels <= c,
            v@.len() == (n - 1) * channels,
            forall|n2: int, k2: int|
                1 <= n2 < n && 1 <= k2 <= channels ==> #[trigger] v@[(n2 - 1) * channels + (k2 - 1)]
                    == weight_pos(c as int, n2, k2, 16),
        decreases kernels + 1 - n,
    {
        let mut k: i32 = 1;
        let ghost row_start = v@.len();
        while k <= channels
            invariant
                1 <= n <= kernels,
                1 <= k <= channels + 1,
                c > 0,
                c % 32 == 0,
                kernels > 0,
                kernels % 16 == 0,
                c * kernels <= i32::MAX,
                0 <= channels <= c,
                row_start == (n - 1) * channels,
                v@.len() == row_start + (k - 1),
                forall|n2: int, k2: int|
                    1 <= n2 < n && 1 <= k2 <= channels ==> #[trigger] v@[(n2 - 1) * channels + (k2 - 1)]
                        == weight_pos(c as int, n2, k2, 16),
                forall|k2: int| 1 <= k2 < k ==> #[trigger] v@[row_start + (k2 - 1)] == weight_pos(c as int, n as int, k2, 16),
            decreases channels + 1 - k,
        {
            proof {
                lemma_weight_pos_defined(c as int, kernels as int, 16, n as int, k as int);
            }
            let idx = weight_fp16(c, n, k);
            let ghost before = v@;
            v.push(idx as usize);
            proof {
                assert forall|n2: int, k2: int|
                    1 <= n2 < n && 1 <= k2 <= channels implies #[trigger] v@[(n2 - 1) * channels + (k2 - 1)]
                        == weight_pos(c as int, n2, k2, 16) by {
                    assert((n2 - 1) * channels + (k2 - 1) < (n - 1) * channels) by (nonlinear_arith)
                        requires
                            1 <= n2 < n,
                            1 <= k2 <= channels,
                    ;
                    assert(before[(n2 - 1) * channels + (k2 - 1)] == weight_pos(c as int, n2, k2,
                        16));
                }
                assert forall|k2: int| 1 <= k2 < k + 1 implies #[trigger] v@[row_start + (k2 - 1)]
                    == weight_pos(c as int, n as int, k2, 16) by {
                    if k2 < k {
                        assert(before[row_start + (k2 - 1)] == weight_pos(c as int, n as int, k2,
                            16));
                    }
                }
            }
            k = k + 1;
        }
        proof {
            assert forall|n2: int, k2: int|
                1 <= n2 < n + 1 && 1 <= k2 <= channels implies #[trigger] v@[(n2 - 1) * channels + (k2 - 1)]
                    == weight_pos(c as int, n2, k2, 16) by {
                if n2 == n {
                    assert(v@[row_start + (k2 - 1)] == weight_pos(c as int, n as int, k2, 16));
                }
            }
            assert(v@.len() == n * channels) by (nonlinear_arith)
                requires
                    v@.len() == (n - 1) * channels + channels,
            ;
        }
        n = n + 1;
    }
    v
}

/// Every feature position of a `rows` x `cols` matrix stored as a
/// `rows` x 1 plane of `cols` channels grouped `c2` at a time computes
/// without overflow when `(cols + c2) * rows` is an `i32`.
#[verifier::spinoff_prover]
pub proof fn lemma_matrix_feature_pos_defined(rows: int, cols: int, c2: int, m: int, k: int)
    requires
        c2 > 0,
        (cols + c2) * rows <= i32::MAX,
        1 <= m <= rows,
        1 <= k <= cols,
    ensures
        feature_data_defined(rows, 1, c2, k, m, 1),
        0 <= feature_data_pos(rows, 1, c2, k, m, 1) < (cols + c2) * rows,
{
    lemma_feature_pos_decomposes(cols, rows, 1, c2, k, m, 1);
    let a = k - 1;
    let plane = a / c2;
    let off = a % c2;
    vstd::arithmetic::div_mod::lemma_fundamental_div_mod(a, c2);
    assert(0 <= plane * c2 <= a) by (nonlinear_arith)
        requires
            a == c2 * plane + off,
            0 <= off < c2,
            a >= 0,
            c2 > 0,
    ;
    assert(0 <= plane * rows * 1 * c2 <= a * rows && a * rows <= (cols + c2)
        * rows) by (nonlinear_arith)
        requires
            0 <= plane * c2 <= a,
            0 <= a < cols,
            rows >= 1,
            c2 > 0,
    ;
    assert(0 <= plane * rows <= plane * rows * 1 * c2 && plane * rows * 1 == plane
        * rows) by (nonlinear_arith)
        requires
            plane >= 0,
            rows >= 1,
            c2 >= 1,
    ;
    assert(0 <= c2 * ((m - 1) * 1 + (1 - 1)) <= c2 * rows && c2 * rows <= (cols + c2)
        * rows) by (nonlinear_arith)
        requires
            1 <= m <= rows,
            c2 > 0,
            cols >= 1,
    ;
    assert((m - 1) * 1 == m - 1);
    lemma_feature_pos_parts(rows, 1, c2, k, m, 1);
    assert(cols <= (cols + c2) * rows && rows <= (cols + c2) * rows) by (nonlinear_arith)
        requires
            rows >= 1,
            cols >= 1,
            c2 >= 1,
    ;
    assert(tdiv(a, c2) == plane && trem(a, c2) == off);
    assert(0 <= plane * rows <= i32::MAX);
    assert(0 <= plane * rows * 1 <= i32::MAX);
    assert(0 <= plane * rows * 1 * c2 <= i32::MAX);
    assert(0 <= c2 * ((m - 1) * 1 + (1 - 1)) <= i32::MAX);
    assert(feature_data_pos(rows, 1, c2, k, m, 1) < (cols + c2) * rows) by (nonlinear_arith)
        requires
            feature_data_pos(rows, 1, c2, k, m, 1) == (plane * (rows * 1) + (m - 1)) * c2 + off,
            0 <= plane * c2 <= a,
            0 <= a < cols,
            0 <= off < c2,
            1 <= m <= rows,
            c2 > 0,
    ;
}

/// Positions in the feature layout of every element of a row-major
/// `rows` x `cols` matrix stored as a `rows` x 1 plane of `cols` channels
/// grouped `c2` at a time: element (`m`, `k`), counted from 1, is at
/// `feature_data(_, rows, 1, c2, k, m, 1)`.
#[verifier::spinoff_prover]
pub fn matrix_feature_indices(rows: i32, cols: i32, c2: i32) -> (v: Vec<usize>)
    requires
        rows >= 0,
        cols >= 0,
        c2 > 0,
        (cols + c2) * rows <= i32::MAX,
    ensures
        v@.len() == rows * cols,
        forall|m: int, k: int|
            1 <= m <= rows && 1 <= k <= cols ==> #[trigger] v@[(m - 1) * cols + (k - 1)]
                == feature_data_pos(rows as int, 1, c2 as int, k, m, 1),
{
    let mut v: Vec<usize> = Vec::new();
    let mut i: i32 = 0;
    while i < rows
        invariant
            0 <= i <= rows,
            cols >= 0,
            c2 > 0,
            (cols + c2) * rows <= i32::MAX,
            v@.len() == i * cols,
            forall|m2: int, k2: int|
                1 <= m2 <= i && 1 <= k2 <= cols ==> #[trigger] v@[(m2 - 1) * cols + (k2 - 1)]
                    == feature_data_pos(rows as int, 1, c2 as int, k2, m2, 1),
        decreases rows - i,
    {
        let m = i + 1;
        let mut j: i32 = 0;
        let ghost row_start = v@.len();
        while j < cols
            invariant
                0 <= i < rows,
                m == i + 1,
                0 <= j <= cols,
                c2 > 0,
                (cols + c2) * rows <= i32::MAX,
                row_start == i * cols,
                v@.len() == row_start + j,
                forall|m2: int, k2: int|
                    1 <= m2 <= i && 1 <= k2 <= cols ==> #[trigger] v@[(m2 - 1) * cols + (k2 - 1)]
                        == feature_data_pos(rows as int, 1, c2 as int, k2, m2, 1),
                forall|k2: int| 1 <= k2 <= j ==> #[trigger] v@[row_start + (k2 - 1)] == feature_data_pos(
                    rows as int,
                    1,
                    c2 as int,
                    k2,
                    m as int,
                    1,
                ),
            decreases cols - j,
        {
            let k = j + 1;
            proof {
                lemma_matrix_feature_pos_defined(rows as int, cols as int, c2 as int, m as int,
                    k as int);
            }
            let idx = feature_data(cols, rows, 1, c2, k, m, 1);
            let ghost before = v@;
            v.push(idx as usize);
            proof {
                assert forall|m2: int, k2: int|
                    1 <= m2 <= i && 1 <= k2 <= cols implies #[trigger] v@[(m2 - 1) * cols + (k2 - 1)]
                        == feature_data_pos(rows as int, 1, c2 as int, k2, m2, 1) by {
                    assert((m2 - 1) * cols + (k2 - 1) < i * cols) by (nonlinear_arith)
                        requires
                            1 <= m2 <= i,
                            1 <= k2 <= cols,
                    ;
                    assert(before[(m2 - 1) * cols + (k2 - 1)] == feature_data_pos(
                        rows as int,
                        1,
                        c2 as int,
                        k2,
                        m2,
                        1,
                    ));
                }
                assert forall|k2: int| 1 <= k2 <= j + 1 implies #[trigger] v@[row_start + (k2 - 1)]
                    == feature_data_pos(rows as int, 1, c2 as int, k2, m as int, 1) by {
                    if k2 <= j {
                        assert(before[row_start + (k2 - 1)] == feature_data_pos(
                            rows as int,
                            1,
                            c2 as int,
                            k2,
                            m as int,
                            1,
                        ));
                    }
                }
            }
            j = j + 1;
        }
        proof {
            assert forall|m2: int, k2: int|
                1 <= m2 <= i + 1 && 1 <= k2 <= cols implies #[trigger] v@[(m2 - 1) * cols + (k2 - 1)]
                    == feature_data_pos(rows as int, 1, c2 as int, k2, m2, 1) by {
                if m2 == i + 1 {
                    assert(v@[row_start + (k2 - 1)] == feature_data_pos(rows as int, 1, c2 as int,
                        k2, m as int, 1));
                }
            }
            assert(v@.len() == (i + 1) * cols) by (nonlinear_arith)
                requires
                    v@.len() == i * cols + cols,
            ;
        }
        i = i + 1;
    }
    v
}

} // verus!
