//! The register list of a single matrix-multiplication task: which register
//! each command writes and the value it writes there, as a function of the
//! CNA, CORE and DPU descriptors.
use vstd::prelude::*;
use crate::hw::{
    CNA_CBUF_CON0, CNA_CBUF_CON1, CNA_CONV_CON1, CNA_CONV_CON2, CNA_CONV_CON3, CNA_CVT_CON0,
    CNA_CVT_CON1, CNA_CVT_CON2, CNA_CVT_CON3, CNA_CVT_CON4, CNA_CVT_CON5, CNA_DATA_SIZE0,
    CNA_DATA_SIZE1, CNA_DATA_SIZE2, CNA_DATA_SIZE3, CNA_DCOMP_ADDR0, CNA_DCOMP_AMOUNT,
    CNA_DCOMP_AMOUNT1, CNA_DCOMP_AMOUNT10, CNA_DCOMP_AMOUNT11, CNA_DCOMP_AMOUNT12,
    CNA_DCOMP_AMOUNT13, CNA_DCOMP_AMOUNT14, CNA_DCOMP_AMOUNT15, CNA_DCOMP_AMOUNT2,
    CNA_DCOMP_AMOUNT3, CNA_DCOMP_AMOUNT4, CNA_DCOMP_AMOUNT5, CNA_DCOMP_AMOUNT6, CNA_DCOMP_AMOUNT7,
    CNA_DCOMP_AMOUNT8, CNA_DCOMP_AMOUNT9, CNA_DCOMP_CTRL, CNA_DCOMP_REGNUM, CNA_DMA_CON0,
    CNA_DMA_CON1, CNA_DMA_CON2, CNA_FC_CON0, CNA_FC_CON1, CNA_FC_CON2, CNA_FC_DATA_SIZE0,
    CNA_FC_DATA_SIZE1, CNA_FEATURE_DATA_ADDR, CNA_PAD_CON0, CNA_PAD_CON1, CNA_WEIGHT_SIZE0,
    CNA_WEIGHT_SIZE1, CNA_WEIGHT_SIZE2, CORE_3030, CORE_CLIP_TRUNCATE, CORE_DATAOUT_SIZE_0,
    CORE_DATAOUT_SIZE_1, CORE_MISC_CFG, DPU_40C4, DPU_BN_ALU_CFG, DPU_BN_CFG, DPU_BN_MUL_CFG,
    DPU_BN_RELUX_CMP_VALUE, DPU_BS_ALU_CFG, DPU_BS_CFG, DPU_BS_MUL_CFG, DPU_BS_OW_CFG,
    DPU_BS_OW_OP, DPU_BS_RELUX_CMP_VALUE, DPU_DATA_CUBE_CHANNEL, DPU_DATA_CUBE_HEIGHT,
    DPU_DATA_CUBE_NOTCH_ADDR, DPU_DATA_CUBE_WIDTH, DPU_DATA_FORMAT, DPU_DST_BASE_ADD,
    DPU_DST_SURF_STRIDE, DPU_EW_CFG, DPU_EW_CVT_OFFSET_VALUE, DPU_EW_CVT_SCALE_VALUE,
    DPU_EW_OP_VALUE_0, DPU_EW_OP_VALUE_1, DPU_EW_OP_VALUE_2, DPU_EW_OP_VALUE_3, DPU_EW_OP_VALUE_4,
    DPU_EW_OP_VALUE_5, DPU_EW_OP_VALUE_6, DPU_EW_OP_VALUE_7, DPU_EW_RELUX_CMP_VALUE,
    DPU_FEATURE_MODE_CFG, DPU_LUT_ACCESS_CFG, DPU_LUT_ACCESS_DATA, DPU_LUT_CFG, DPU_LUT_INFO,
    DPU_LUT_LE_END, DPU_LUT_LE_SLOPE_SCALE, DPU_LUT_LE_SLOPE_SHIFT, DPU_LUT_LE_START,
    DPU_LUT_LO_END, DPU_LUT_LO_SLOPE_SCALE, DPU_LUT_LO_SLOPE_SHIFT, DPU_LUT_LO_START,
    DPU_OFFSET_PEND, DPU_OUT_CVT_OFFSET, DPU_OUT_CVT_SCALE, DPU_OUT_CVT_SHIFT, DPU_SURFACE_ADD,
    DPU_S_POINTER, DPU_WDMA_SIZE_0, DPU_WDMA_SIZE_1, OP_40, OP_ENABLE, OP_NONE, OP_REG_CNA,
    OP_REG_CORE, OP_REG_DPU, OP_REG_PC, PC_ENABLE, PC_ENABLE_CNA, PC_ENABLE_DPU,
    PC_OPERATION_ENABLE, PC_REGISTER_AMOUNTS, lemma_regcmd_fields, regcmd, regcmd_op, regcmd_reg,
    regcmd_value,
};
use crate::cna::{NpuCnaDesc, NpuCoreDesc};
use crate::dpu::NpuDpuDesc;

verus! {

/// Number of register commands in the list of one task.
pub const TASK_REGCMD_COUNT: usize = 108;

/// Number of 64-bit words that the task memory of one task must hold.
pub const TASK_BUFFER_LEN: usize = 112;

/// The register list of a task that runs the CNA and CORE on the feature data
/// and weights and writes the result through the DPU: command `i` of the list
/// is element `i` of this sequence.
pub open spec fn task_regcmds(c: NpuCnaDesc, k: NpuCoreDesc, d: NpuDpuDesc) -> Seq<u64> {
    seq![
        // 0..1: status pointer of the DPU
        regcmd(OP_REG_DPU, 0xE, DPU_S_POINTER),
        // 1..49: CNA: convolution, data, weight, CBUF, conversion, padding and DMA set-up, decompression off
        regcmd(
            OP_REG_CNA,
            ((c.proc_precision as u32 & 0x7) << 7u32) | ((c.in_precision as u32 & 0x7) << 4u32) | (
            c.conv_mode as u32 & 0xf),
            CNA_CONV_CON1,
        ),
        regcmd(
            OP_REG_CNA,
            ((c.kernel_groups as u32 & 0xFF) << 16u32) | ((c.feature_grains as u32 & 0x3FF) << 4u32),
            CNA_CONV_CON2,
        ),
        regcmd(
            OP_REG_CNA,
            ((c.conv_y_stride as u32 & 0x7) << 3u32) | (c.conv_x_stride as u32 & 0x7),
            CNA_CONV_CON3,
        ),
        regcmd(
            OP_REG_CNA,
            ((c.datain_width as u32 & 0x7FF) << 16u32) | (c.datain_height as u32 & 0x7FF),
            CNA_DATA_SIZE0,
        ),
        regcmd(
            OP_REG_CNA,
            ((c.datain_channel.wrapping_sub(1) as u32 & 0xFFFF) << 16u32) | (c.datain_channel as u32
                & 0xFFFF),
            CNA_DATA_SIZE1,
        ),
        regcmd(OP_REG_CNA, c.dataout_width as u32 & 0x7FF, CNA_DATA_SIZE2),
        regcmd(OP_REG_CNA, c.dataout_atomics & 0x3FFFF, CNA_DATA_SIZE3),
        regcmd(OP_REG_CNA, c.weight_bytes, CNA_WEIGHT_SIZE0),
        regcmd(OP_REG_CNA, c.weight_bytes_per_kernel & 0x7FFFF, CNA_WEIGHT_SIZE1),
        regcmd(
            OP_REG_CNA,
            ((c.weight_width as u32 & 0x1F) << 24u32) | ((c.weight_height as u32 & 0x1F) << 16u32) | (
            c.weight_kernels as u32 & 0x3FFF),
            CNA_WEIGHT_SIZE2,
        ),
        regcmd(
            OP_REG_CNA,
            ((c.weight_bank as u32 & 0xF) << 4u32) | (c.data_bank as u32 & 0xF),
            CNA_CBUF_CON0,
        ),
        regcmd(OP_REG_CNA, c.data_entries as u32 & 0x1FFF, CNA_CBUF_CON1),
        regcmd(
            OP_REG_CNA,
            ((c.data_sign as u32 & 0x1) << 3u32) | ((c.cvt_type as u32 & 0x1) << 1u32) | (
            c.cvt_bypass as u32 & 0x1),
            CNA_CVT_CON0,
        ),
        regcmd(OP_REG_CNA, ((c.cvt_scale0 as u32 & 0xFFFF) << 16u32) | 0x0, CNA_CVT_CON1),
        regcmd(OP_REG_CNA, ((c.cvt_scale1 as u32 & 0xFFFF) << 16u32) | 0x0, CNA_CVT_CON2),
        regcmd(OP_REG_CNA, ((c.cvt_scale2 as u32 & 0xFFFF) << 16u32) | 0x0, CNA_CVT_CON3),
        regcmd(OP_REG_CNA, ((c.cvt_scale3 as u32 & 0xFFFF) << 16u32) | 0x0, CNA_CVT_CON4),
        regcmd(OP_REG_CNA, c.fc_skip_en as u32 & 0x1, CNA_FC_CON0),
        regcmd(OP_REG_CNA, c.data_offset as u32 & 0x1FFFF, CNA_FC_CON1),
        regcmd(
            OP_REG_CNA,
            ((c.pad_left as u32 & 0xF) << 4u32) | (c.pad_top as u32 & 0xF),
            CNA_PAD_CON0,
        ),
        regcmd(OP_REG_CNA, c.feature_base_addr, CNA_FEATURE_DATA_ADDR),
        regcmd(OP_REG_CNA, c.weight_offset as u32 & 0x1FFFF, CNA_FC_CON2),
        regcmd(
            OP_REG_CNA,
            ((c.weight_burst_len as u32 & 0xF) << 16u32) | (c.data_burst_len as u32 & 0xF),
            CNA_DMA_CON0,
        ),
        regcmd(OP_REG_CNA, c.line_stride & 0xFFFFFFF, CNA_DMA_CON1),
        regcmd(OP_REG_CNA, c.surf_stride as u32 & 0xFFFFFFF, CNA_DMA_CON2),
        regcmd(
            OP_REG_CNA,
            ((c.dma_width as u32 & 0x7FF) << 16u32) | (c.dma_height as u32 & 0x7FF),
            CNA_FC_DATA_SIZE0,
        ),
        regcmd(OP_REG_CNA, c.dma_channel as u32 & 0xFFFF, CNA_FC_DATA_SIZE1),
        regcmd(OP_REG_CNA, 0x0, CNA_DCOMP_CTRL),
        regcmd(OP_REG_CNA, 0x0, CNA_DCOMP_REGNUM),
        regcmd(OP_REG_CNA, c.decompress_addr0, CNA_DCOMP_ADDR0),
        regcmd(OP_REG_CNA, 0x0, CNA_DCOMP_AMOUNT),
        regcmd(OP_REG_CNA, 0x0, CNA_DCOMP_AMOUNT1),
        regcmd(OP_REG_CNA, 0x0, CNA_DCOMP_AMOUNT2),
        regcmd(OP_REG_CNA, 0x0, CNA_DCOMP_AMOUNT3),
        regcmd(OP_REG_CNA, 0x0, CNA_DCOMP_AMOUNT4),
        regcmd(OP_REG_CNA, 0x0, CNA_DCOMP_AMOUNT5),
        regcmd(OP_REG_CNA, 0x0, CNA_DCOMP_AMOUNT6),
        regcmd(OP_REG_CNA, 0x0, CNA_DCOMP_AMOUNT7),
        regcmd(OP_REG_CNA, 0x0, CNA_DCOMP_AMOUNT8),
        regcmd(OP_REG_CNA, 0x0, CNA_DCOMP_AMOUNT9),
        regcmd(OP_REG_CNA, 0x0, CNA_DCOMP_AMOUNT10),
        regcmd(OP_REG_CNA, 0x0, CNA_DCOMP_AMOUNT11),
        regcmd(OP_REG_CNA, 0x0, CNA_DCOMP_AMOUNT12),
        regcmd(OP_REG_CNA, 0x0, CNA_DCOMP_AMOUNT13),
        regcmd(OP_REG_CNA, 0x0, CNA_DCOMP_AMOUNT14),
        regcmd(OP_REG_CNA, 0x0, CNA_DCOMP_AMOUNT15),
        regcmd(OP_REG_CNA, 0x0, CNA_CVT_CON5),
        regcmd(OP_REG_CNA, 0x0, CNA_PAD_CON1),
        // 49..54: CORE: MAC array set-up
        regcmd(
            OP_REG_CORE,
            ((k.proc_precision as u32 & 0x7) << 8u32) | (k.qd_en as u32 & 0x1),
            CORE_MISC_CFG,
        ),
        regcmd(
            OP_REG_CORE,
            ((k.dataout_height as u32 & 0xFFFF) << 16u32) | (k.dataout_width as u32 & 0xFFFF),
            CORE_DATAOUT_SIZE_0,
        ),
        regcmd(OP_REG_CORE, k.dataout_channel as u32 & 0xFFFF, CORE_DATAOUT_SIZE_1),
        regcmd(OP_REG_CORE, 0x0, CORE_CLIP_TRUNCATE),
        regcmd(OP_REG_CORE, 0x0, CORE_3030),
        // 54..104: DPU: output format and address, bypassed BS/BN/EW stages, write DMA, LUT off
        regcmd(
            OP_REG_DPU,
            ((d.burst_len as u32 & 0xF) << 5u32) | ((d.conv_mode as u32 & 0x3) << 3u32) | ((
            d.output_mode as u32 & 0x3) << 1u32) | (d.flying_mode as u32 & 0x1),
            DPU_FEATURE_MODE_CFG,
        ),
        regcmd(
            OP_REG_DPU,
            ((d.out_precision as u32 & 0x7) << 29u32) | ((d.in_precision as u32 & 0x7) << 26u32) | (
            d.proc_precision as u32 & 0x7),
            DPU_DATA_FORMAT,
        ),
        regcmd(OP_REG_DPU, 0x0, DPU_OFFSET_PEND),
        regcmd(OP_REG_DPU, d.dst_base_addr, DPU_DST_BASE_ADD),
        regcmd(OP_REG_DPU, (d.dst_surf_stride & 0xFFFFFFF) << 4u32, DPU_DST_SURF_STRIDE),
        regcmd(OP_REG_DPU, d.width as u32 & 0x1FFF, DPU_DATA_CUBE_WIDTH),
        regcmd(OP_REG_DPU, d.height as u32 & 0x1FFF, DPU_DATA_CUBE_HEIGHT),
        regcmd(OP_REG_DPU, 0x0, DPU_DATA_CUBE_NOTCH_ADDR),
        regcmd(
            OP_REG_DPU,
            ((d.channel as u32 & 0x1FFF) << 16u32) | (d.channel as u32 & 0x1FFF),
            DPU_DATA_CUBE_CHANNEL,
        ),
        regcmd(
            OP_REG_DPU,
            ((d.bs_relu_bypass as u32 & 0x1) << 6u32) | ((d.bs_mul_bypass as u32 & 0x1) << 4u32) | ((
            d.bs_alu_bypass as u32 & 0x1) << 1u32) | (d.bs_bypass as u32 & 0x1),
            DPU_BS_CFG,
        ),
        regcmd(OP_REG_DPU, 0x0, DPU_BS_ALU_CFG),
        regcmd(OP_REG_DPU, 0x0, DPU_BS_MUL_CFG),
        regcmd(OP_REG_DPU, 0x0, DPU_BS_RELUX_CMP_VALUE),
        regcmd(
            OP_REG_DPU,
            ((d.size_e_2 as u32 & 0x7) << 8u32) | ((d.size_e_1 as u32 & 0x7) << 5u32) | ((
            d.size_e_0 as u32 & 0x7) << 2u32) | ((d.od_bypass as u32 & 0x1) << 1u32),
            DPU_BS_OW_CFG,
        ),
        regcmd(OP_REG_DPU, 0x0, DPU_BS_OW_OP),
        regcmd(OP_REG_DPU, d.channel_wdma as u32 & 0x1FFF, DPU_WDMA_SIZE_0),
        regcmd(
            OP_REG_DPU,
            ((d.height_wdma as u32 & 0x1FFF) << 16u32) | (d.width_wdma as u32 & 0x1FFF),
            DPU_WDMA_SIZE_1,
        ),
        regcmd(
            OP_REG_DPU,
            ((d.bn_relu_bypass as u32 & 0x1) << 6u32) | ((d.bn_mul_bypass as u32 & 0x1) << 4u32) | ((
            d.bn_alu_bypass as u32 & 0x1) << 1u32) | (d.bn_bypass as u32 & 0x1),
            DPU_BN_CFG,
        ),
        regcmd(OP_REG_DPU, 0x0, DPU_BN_ALU_CFG),
        regcmd(OP_REG_DPU, 0x0, DPU_BN_MUL_CFG),
        regcmd(OP_REG_DPU, 0x0, DPU_BN_RELUX_CMP_VALUE),
        regcmd(
            OP_REG_DPU,
            ((d.ew_relu_bypass as u32 & 0x1) << 9u32) | ((d.ew_op_cvt_bypass as u32 & 0x1) << 8u32)
                | ((d.ew_lut_bypass as u32 & 0x1) << 7u32) | ((d.ew_op_bypass as u32 & 0x1) << 1u32)
                | (d.ew_bypass as u32 & 0x1),
            DPU_EW_CFG,
        ),
        regcmd(OP_REG_DPU, 0x0, DPU_EW_CVT_OFFSET_VALUE),
        regcmd(OP_REG_DPU, 0x1, DPU_EW_CVT_SCALE_VALUE),
        regcmd(OP_REG_DPU, 0x0, DPU_EW_RELUX_CMP_VALUE),
        regcmd(OP_REG_DPU, 0x0, DPU_OUT_CVT_OFFSET),
        regcmd(
            OP_REG_DPU,
            ((d.fp32tofp16_en as u32 & 0x1) << 16u32) | (d.out_cvt_scale as u32 & 0xFFFF),
            DPU_OUT_CVT_SCALE,
        ),
        regcmd(OP_REG_DPU, 0x0, DPU_OUT_CVT_SHIFT),
        regcmd(OP_REG_DPU, 0x0, DPU_EW_OP_VALUE_0),
        regcmd(OP_REG_DPU, 0x0, DPU_EW_OP_VALUE_1),
        regcmd(OP_REG_DPU, 0x0, DPU_EW_OP_VALUE_2),
        regcmd(OP_REG_DPU, 0x0, DPU_EW_OP_VALUE_3),
        regcmd(OP_REG_DPU, 0x0, DPU_EW_OP_VALUE_4),
        regcmd(OP_REG_DPU, 0x0, DPU_EW_OP_VALUE_5),
        regcmd(OP_REG_DPU, 0x0, DPU_EW_OP_VALUE_6),
        regcmd(OP_REG_DPU, 0x0, DPU_EW_OP_VALUE_7),
        regcmd(OP_REG_DPU, (d.surf_add & 0xFFFFFFF) << 4u32, DPU_SURFACE_ADD),
        regcmd(OP_REG_DPU, 0x0, DPU_40C4),
        regcmd(OP_REG_DPU, 0x0, DPU_LUT_ACCESS_CFG),
        regcmd(OP_REG_DPU, 0x0, DPU_LUT_ACCESS_DATA),
        regcmd(OP_REG_DPU, 0x0, DPU_LUT_CFG),
        regcmd(OP_REG_DPU, 0x0, DPU_LUT_INFO),
        regcmd(OP_REG_DPU, 0x0, DPU_LUT_LE_START),
        regcmd(OP_REG_DPU, 0x0, DPU_LUT_LE_END),
        regcmd(OP_REG_DPU, 0x0, DPU_LUT_LO_START),
        regcmd(OP_REG_DPU, 0x0, DPU_LUT_LO_END),
        regcmd(OP_REG_DPU, 0x0, DPU_LUT_LE_SLOPE_SCALE),
        regcmd(OP_REG_DPU, 0x0, DPU_LUT_LE_SLOPE_SHIFT),
        regcmd(OP_REG_DPU, 0x0, DPU_LUT_LO_SLOPE_SCALE),
        regcmd(OP_REG_DPU, 0x0, DPU_LUT_LO_SLOPE_SHIFT),
        // 104..108: PC: end of list and start of the CNA and DPU
        regcmd(OP_NONE, 0x0, 0x0),
        regcmd(OP_REG_PC, 0x0, PC_REGISTER_AMOUNTS),
        regcmd(OP_40, 0x0, 0x0),
        regcmd(OP_ENABLE, PC_ENABLE_DPU | PC_ENABLE_CNA | PC_ENABLE, PC_OPERATION_ENABLE),
    ]
}


/// Law of the CNA's convolution, data, weight and CBUF set-up: commands 1 to
/// 12 of a task's register list go to the CNA, each to the register named
/// for it, and each value is the descriptor's fields at their bit
/// positions, every field cut to the width of its place (the kernel count
/// of `CNA_WEIGHT_SIZE2` to 14 bits below the weight height and width, the
/// data width of `CNA_DATA_SIZE0` at bit 16 above the data height, and so
/// on). `CNA_DATA_SIZE1` holds the input channel count minus one (modulo
/// 2^16) above the channel count.
pub proof fn lemma_task_cna_registers(c: NpuCnaDesc, k: NpuCoreDesc, d: NpuDpuDesc)
    ensures
        regcmd_op(task_regcmds(c, k, d)[1]) == OP_REG_CNA,
        regcmd_reg(task_regcmds(c, k, d)[1]) == CNA_CONV_CON1,
        regcmd_value(task_regcmds(c, k, d)[1]) == (c.proc_precision % 8) * 0x80
            + (c.in_precision % 8) * 0x10 + c.conv_mode % 0x10,
        regcmd_op(task_regcmds(c, k, d)[2]) == OP_REG_CNA,
        regcmd_reg(task_regcmds(c, k, d)[2]) == CNA_CONV_CON2,
        regcmd_value(task_regcmds(c, k, d)[2]) == c.kernel_groups * 0x10000
            + (c.feature_grains % 0x400) * 0x10,
        regcmd_op(task_regcmds(c, k, d)[3]) == OP_REG_CNA,
        regcmd_reg(task_regcmds(c, k, d)[3]) == CNA_CONV_CON3,
        regcmd_value(task_regcmds(c, k, d)[3]) == (c.conv_y_stride % 8) * 8 + c.conv_x_stride % 8,
        regcmd_op(task_regcmds(c, k, d)[4]) == OP_REG_CNA,
        regcmd_reg(task_regcmds(c, k, d)[4]) == CNA_DATA_SIZE0,
        regcmd_value(task_regcmds(c, k, d)[4]) == (c.datain_width % 0x800) * 0x10000
            + c.datain_height % 0x800,
        regcmd_op(task_regcmds(c, k, d)[5]) == OP_REG_CNA,
        regcmd_reg(task_regcmds(c, k, d)[5]) == CNA_DATA_SIZE1,
        regcmd_value(task_regcmds(c, k, d)[5]) == ((c.datain_channel - 1) % 0x10000) * 0x10000
            + c.datain_channel,
        regcmd_op(task_regcmds(c, k, d)[6]) == OP_REG_CNA,
        regcmd_reg(task_regcmds(c, k, d)[6]) == CNA_DATA_SIZE2,
        regcmd_value(task_regcmds(c, k, d)[6]) == c.dataout_width % 0x800,
        regcmd_op(task_regcmds(c, k, d)[7]) == OP_REG_CNA,
        regcmd_reg(task_regcmds(c, k, d)[7]) == CNA_DATA_SIZE3,
        regcmd_value(task_regcmds(c, k, d)[7]) == c.dataout_atomics % 0x40000,
        regcmd_op(task_regcmds(c, k, d)[8]) == OP_REG_CNA,
        regcmd_reg(task_regcmds(c, k, d)[8]) == CNA_WEIGHT_SIZE0,
        regcmd_value(task_regcmds(c, k, d)[8]) == c.weight_bytes,
        regcmd_op(task_regcmds(c, k, d)[9]) == OP_REG_CNA,
        regcmd_reg(task_regcmds(c, k, d)[9]) == CNA_WEIGHT_SIZE1,
        regcmd_value(task_regcmds(c, k, d)[9]) == c.weight_bytes_per_kernel % 0x80000,
        regcmd_op(task_regcmds(c, k, d)[10]) == OP_REG_CNA,
        regcmd_reg(task_regcmds(c, k, d)[10]) == CNA_WEIGHT_SIZE2,
        regcmd_value(task_regcmds(c, k, d)[10]) == (c.weight_width % 0x20) * 0x100_0000
            + (c.weight_height % 0x20) * 0x10000 + c.weight_kernels % 0x4000,
        regcmd_op(task_regcmds(c, k, d)[11]) == OP_REG_CNA,
        regcmd_reg(task_regcmds(c, k, d)[11]) == CNA_CBUF_CON0,
        regcmd_value(task_regcmds(c, k, d)[11]) == (c.weight_bank % 0x10) * 0x10
            + c.data_bank % 0x10,
        regcmd_op(task_regcmds(c, k, d)[12]) == OP_REG_CNA,
        regcmd_reg(task_regcmds(c, k, d)[12]) == CNA_CBUF_CON1,
        regcmd_value(task_regcmds(c, k, d)[12]) == c.data_entries % 0x2000,
{
    let t = task_regcmds(c, k, d);
    assert({
        &&& regcmd_op(t[1]) == OP_REG_CNA
        &&& regcmd_reg(t[1]) == CNA_CONV_CON1
        &&& regcmd_value(t[1]) == (c.proc_precision % 8) * 0x80 + (c.in_precision % 8) * 0x10
            + c.conv_mode % 0x10
    }) by {
        lemma_regcmd_fields(
            OP_REG_CNA,
            ((c.proc_precision as u32 & 0x7) << 7u32) | ((c.in_precision as u32 & 0x7) << 4u32)
                | (c.conv_mode as u32 & 0xf),
            CNA_CONV_CON1,
        );
        lemma_conv_con1_value(c.proc_precision as u32, c.in_precision as u32, c.conv_mode as u32);
    }
    assert({
        &&& regcmd_op(t[2]) == OP_REG_CNA
        &&& regcmd_reg(t[2]) == CNA_CONV_CON2
        &&& regcmd_value(t[2]) == c.kernel_groups * 0x10000 + (c.feature_grains % 0x400) * 0x10
    }) by {
        lemma_regcmd_fields(
            OP_REG_CNA,
            ((c.kernel_groups as u32 & 0xFF) << 16u32)
                | ((c.feature_grains as u32 & 0x3FF) << 4u32),
            CNA_CONV_CON2,
        );
        lemma_conv_con2_value(c.kernel_groups as u32, c.feature_grains as u32);
    }
    assert({
        &&& regcmd_op(t[3]) == OP_REG_CNA
        &&& regcmd_reg(t[3]) == CNA_CONV_CON3
        &&& regcmd_value(t[3]) == (c.conv_y_stride % 8) * 8 + c.conv_x_stride % 8
    }) by {
        lemma_regcmd_fields(
            OP_REG_CNA,
            ((c.conv_y_stride as u32 & 0x7) << 3u32) | (c.conv_x_stride as u32 & 0x7),
            CNA_CONV_CON3,
        );
        lemma_conv_con3_value(c.conv_y_stride as u32, c.conv_x_stride as u32);
    }
    assert({
        &&& regcmd_op(t[4]) == OP_REG_CNA
        &&& regcmd_reg(t[4]) == CNA_DATA_SIZE0
        &&& regcmd_value(t[4]) == (c.datain_width % 0x800) * 0x10000 + c.datain_height % 0x800
    }) by {
        lemma_regcmd_fields(
            OP_REG_CNA,
            ((c.datain_width as u32 & 0x7FF) << 16u32) | (c.datain_height as u32 & 0x7FF),
            CNA_DATA_SIZE0,
        );
        lemma_pack_11_11(c.datain_width as u32, c.datain_height as u32);
    }
    assert({
        &&& regcmd_op(t[5]) == OP_REG_CNA
        &&& regcmd_reg(t[5]) == CNA_DATA_SIZE1
        &&& regcmd_value(t[5]) == ((c.datain_channel - 1) % 0x10000) * 0x10000 + c.datain_channel
    }) by {
        lemma_regcmd_fields(
            OP_REG_CNA,
            ((c.datain_channel.wrapping_sub(1) as u32 & 0xFFFF) << 16u32)
                | (c.datain_channel as u32 & 0xFFFF),
            CNA_DATA_SIZE1,
        );
        lemma_pack_16_16(c.datain_channel.wrapping_sub(1) as u32, c.datain_channel as u32);
    }
    assert({
        &&& regcmd_op(t[6]) == OP_REG_CNA
        &&& regcmd_reg(t[6]) == CNA_DATA_SIZE2
        &&& regcmd_value(t[6]) == c.dataout_width % 0x800
    }) by {
        lemma_regcmd_fields(
            OP_REG_CNA,
            c.dataout_width as u32 & 0x7FF,
            CNA_DATA_SIZE2,
        );
        lemma_low_masks(c.dataout_width as u32);
    }
    assert({
        &&& regcmd_op(t[7]) == OP_REG_CNA
        &&& regcmd_reg(t[7]) == CNA_DATA_SIZE3
        &&& regcmd_value(t[7]) == c.dataout_atomics % 0x40000
    }) by {
        lemma_regcmd_fields(
            OP_REG_CNA,
            c.dataout_atomics & 0x3FFFF,
            CNA_DATA_SIZE3,
        );
        lemma_low_masks(c.dataout_atomics);
    }
    assert({
        &&& regcmd_op(t[8]) == OP_REG_CNA
        &&& regcmd_reg(t[8]) == CNA_WEIGHT_SIZE0
        &&& regcmd_value(t[8]) == c.weight_bytes
    }) by {
        lemma_regcmd_fields(
            OP_REG_CNA,
            c.weight_bytes,
            CNA_WEIGHT_SIZE0,
        );
    }
    assert({
        &&& regcmd_op(t[9]) == OP_REG_CNA
        &&& regcmd_reg(t[9]) == CNA_WEIGHT_SIZE1
        &&& regcmd_value(t[9]) == c.weight_bytes_per_kernel % 0x80000
    }) by {
        lemma_regcmd_fields(
            OP_REG_CNA,
            c.weight_bytes_per_kernel & 0x7FFFF,
            CNA_WEIGHT_SIZE1,
        );
        lemma_low_masks(c.weight_bytes_per_kernel);
    }
    assert({
        &&& regcmd_op(t[10]) == OP_REG_CNA
        &&& regcmd_reg(t[10]) == CNA_WEIGHT_SIZE2
        &&& regcmd_value(t[10]) == (c.weight_width % 0x20) * 0x100_0000
            + (c.weight_height % 0x20) * 0x10000 + c.weight_kernels % 0x4000
    }) by {
        lemma_regcmd_fields(
            OP_REG_CNA,
            ((c.weight_width as u32 & 0x1F) << 24u32) | ((c.weight_height as u32 & 0x1F) << 16u32)
                | (c.weight_kernels as u32 & 0x3FFF),
            CNA_WEIGHT_SIZE2,
        );
        lemma_weight_size2_value(
            c.weight_width as u32,
            c.weight_height as u32,
            c.weight_kernels as u32,
        );
    }
    assert({
        &&& regcmd_op(t[11]) == OP_REG_CNA
        &&& regcmd_reg(t[11]) == CNA_CBUF_CON0
        &&& regcmd_value(t[11]) == (c.weight_bank % 0x10) * 0x10 + c.data_bank % 0x10
    }) by {
        lemma_regcmd_fields(
            OP_REG_CNA,
            ((c.weight_bank as u32 & 0xF) << 4u32) | (c.data_bank as u32 & 0xF),
            CNA_CBUF_CON0,
        );
        lemma_pack_4_4(c.weight_bank as u32, c.data_bank as u32);
    }
    assert({
        &&& regcmd_op(t[12]) == OP_REG_CNA
        &&& regcmd_reg(t[12]) == CNA_CBUF_CON1
        &&& regcmd_value(t[12]) == c.data_entries % 0x2000
    }) by {
        lemma_regcmd_fields(
            OP_REG_CNA,
            c.data_entries as u32 & 0x1FFF,
            CNA_CBUF_CON1,
        );
        lemma_low_masks(c.data_entries as u32);
    }
}

/// Law of the CNA's conversion, padding and DMA set-up: commands 13 to 27
/// and 30 of a task's register list go to the CNA, each to the register
/// named for it, and each value is the descriptor's fields at their bit
/// positions, every field cut to the width of its place; the feature data
/// and weight addresses are written whole.
pub proof fn lemma_task_cna_dma_registers(c: NpuCnaDesc, k: NpuCoreDesc, d: NpuDpuDesc)
    ensures
        regcmd_op(task_regcmds(c, k, d)[13]) == OP_REG_CNA,
        regcmd_reg(task_regcmds(c, k, d)[13]) == CNA_CVT_CON0,
        regcmd_value(task_regcmds(c, k, d)[13]) == (c.data_sign % 2) * 8 + (c.cvt_type % 2) * 2
            + c.cvt_bypass % 2,
        regcmd_op(task_regcmds(c, k, d)[14]) == OP_REG_CNA,
        regcmd_reg(task_regcmds(c, k, d)[14]) == CNA_CVT_CON1,
        regcmd_value(task_regcmds(c, k, d)[14]) == c.cvt_scale0 * 0x10000,
        regcmd_op(task_regcmds(c, k, d)[15]) == OP_REG_CNA,
        regcmd_reg(task_regcmds(c, k, d)[15]) == CNA_CVT_CON2,
        regcmd_value(task_regcmds(c, k, d)[15]) == c.cvt_scale1 * 0x10000,
        regcmd_op(task_regcmds(c, k, d)[16]) == OP_REG_CNA,
        regcmd_reg(task_regcmds(c, k, d)[16]) == CNA_CVT_CON3,
        regcmd_value(task_regcmds(c, k, d)[16]) == c.cvt_scale2 * 0x10000,
        regcmd_op(task_regcmds(c, k, d)[17]) == OP_REG_CNA,
        regcmd_reg(task_regcmds(c, k, d)[17]) == CNA_CVT_CON4,
        regcmd_value(task_regcmds(c, k, d)[17]) == c.cvt_scale3 * 0x10000,
        regcmd_op(task_regcmds(c, k, d)[18]) == OP_REG_CNA,
        regcmd_reg(task_regcmds(c, k, d)[18]) == CNA_FC_CON0,
        regcmd_value(task_regcmds(c, k, d)[18]) == c.fc_skip_en % 2,
        regcmd_op(task_regcmds(c, k, d)[19]) == OP_REG_CNA,
        regcmd_reg(task_regcmds(c, k, d)[19]) == CNA_FC_CON1,
        regcmd_value(task_regcmds(c, k, d)[19]) == c.data_offset,
        regcmd_op(task_regcmds(c, k, d)[20]) == OP_REG_CNA,
        regcmd_reg(task_regcmds(c, k, d)[20]) == CNA_PAD_CON0,
        regcmd_value(task_regcmds(c, k, d)[20]) == (c.pad_left % 0x10) * 0x10 + c.pad_top % 0x10,
        regcmd_op(task_regcmds(c, k, d)[21]) == OP_REG_CNA,
        regcmd_reg(task_regcmds(c, k, d)[21]) == CNA_FEATURE_DATA_ADDR,
        regcmd_value(task_regcmds(c, k, d)[21]) == c.feature_base_addr,
        regcmd_op(task_regcmds(c, k, d)[22]) == OP_REG_CNA,
        regcmd_reg(task_regcmds(c, k, d)[22]) == CNA_FC_CON2,
        regcmd_value(task_regcmds(c, k, d)[22]) == c.weight_offset,
        regcmd_op(task_regcmds(c, k, d)[23]) == OP_REG_CNA,
        regcmd_reg(task_regcmds(c, k, d)[23]) == CNA_DMA_CON0,
        regcmd_value(task_regcmds(c, k, d)[23]) == (c.weight_burst_len % 0x10) * 0x10000
            + c.data_burst_len % 0x10,
        regcmd_op(task_regcmds(c, k, d)[24]) == OP_REG_CNA,
        regcmd_reg(task_regcmds(c, k, d)[24]) == CNA_DMA_CON1,
        regcmd_value(task_regcmds(c, k, d)[24]) == c.line_stride % 0x1000_0000,
        regcmd_op(task_regcmds(c, k, d)[25]) == OP_REG_CNA,
        regcmd_reg(task_regcmds(c, k, d)[25]) == CNA_DMA_CON2,
        regcmd_value(task_regcmds(c, k, d)[25]) == (c.surf_stride as u32) % 0x1000_0000,
        regcmd_op(task_regcmds(c, k, d)[26]) == OP_REG_CNA,
        regcmd_reg(task_regcmds(c, k, d)[26]) == CNA_FC_DATA_SIZE0,
        regcmd_value(task_regcmds(c, k, d)[26]) == (c.dma_width % 0x800) * 0x10000
            + c.dma_height % 0x800,
        regcmd_op(task_regcmds(c, k, d)[27]) == OP_REG_CNA,
        regcmd_reg(task_regcmds(c, k, d)[27]) == CNA_FC_DATA_SIZE1,
        regcmd_value(task_regcmds(c, k, d)[27]) == c.dma_channel,
        regcmd_op(task_regcmds(c, k, d)[30]) == OP_REG_CNA,
        regcmd_reg(task_regcmds(c, k, d)[30]) == CNA_DCOMP_ADDR0,
        regcmd_value(task_regcmds(c, k, d)[30]) == c.decompress_addr0,
{
    let t = task_regcmds(c, k, d);
    assert({
        &&& regcmd_op(t[13]) == OP_REG_CNA
        &&& regcmd_reg(t[13]) == CNA_CVT_CON0
        &&& regcmd_value(t[13]) == (c.data_sign % 2) * 8 + (c.cvt_type % 2) * 2 + c.cvt_bypass % 2
    }) by {
        lemma_regcmd_fields(
            OP_REG_CNA,
            ((c.data_sign as u32 & 0x1) << 3u32) | ((c.cvt_type as u32 & 0x1) << 1u32)
                | (c.cvt_bypass as u32 & 0x1),
            CNA_CVT_CON0,
        );
        lemma_cvt_con0_value(c.data_sign as u32, c.cvt_type as u32, c.cvt_bypass as u32);
    }
    assert({
        &&& regcmd_op(t[14]) == OP_REG_CNA
        &&& regcmd_reg(t[14]) == CNA_CVT_CON1
        &&& regcmd_value(t[14]) == c.cvt_scale0 * 0x10000
    }) by {
        lemma_regcmd_fields(
            OP_REG_CNA,
            ((c.cvt_scale0 as u32 & 0xFFFF) << 16u32) | 0x0,
            CNA_CVT_CON1,
        );
        lemma_pack_16_16(c.cvt_scale0 as u32, 0);
    }
    assert({
        &&& regcmd_op(t[15]) == OP_REG_CNA
        &&& regcmd_reg(t[15]) == CNA_CVT_CON2
        &&& regcmd_value(t[15]) == c.cvt_scale1 * 0x10000
    }) by {
        lemma_regcmd_fields(
            OP_REG_CNA,
            ((c.cvt_scale1 as u32 & 0xFFFF) << 16u32) | 0x0,
            CNA_CVT_CON2,
        );
        lemma_pack_16_16(c.cvt_scale1 as u32, 0);
    }
    assert({
        &&& regcmd_op(t[16]) == OP_REG_CNA
        &&& regcmd_reg(t[16]) == CNA_CVT_CON3
        &&& regcmd_value(t[16]) == c.cvt_scale2 * 0x10000
    }) by {
        lemma_regcmd_fields(
            OP_REG_CNA,
            ((c.cvt_scale2 as u32 & 0xFFFF) << 16u32) | 0x0,
            CNA_CVT_CON3,
        );
        lemma_pack_16_16(c.cvt_scale2 as u32, 0);
    }
    assert({
        &&& regcmd_op(t[17]) == OP_REG_CNA
        &&& regcmd_reg(t[17]) == CNA_CVT_CON4
        &&& regcmd_value(t[17]) == c.cvt_scale3 * 0x10000
    }) by {
        lemma_regcmd_fields(
            OP_REG_CNA,
            ((c.cvt_scale3 as u32 & 0xFFFF) << 16u32) | 0x0,
            CNA_CVT_CON4,
        );
        lemma_pack_16_16(c.cvt_scale3 as u32, 0);
    }
    assert({
        &&& regcmd_op(t[18]) == OP_REG_CNA
        &&& regcmd_reg(t[18]) == CNA_FC_CON0
        &&& regcmd_value(t[18]) == c.fc_skip_en % 2
    }) by {
        lemma_regcmd_fields(
            OP_REG_CNA,
            c.fc_skip_en as u32 & 0x1,
            CNA_FC_CON0,
        );
        lemma_low_masks(c.fc_skip_en as u32);
    }
    assert({
        &&& regcmd_op(t[19]) == OP_REG_CNA
        &&& regcmd_reg(t[19]) == CNA_FC_CON1
        &&& regcmd_value(t[19]) == c.data_offset
    }) by {
        lemma_regcmd_fields(
            OP_REG_CNA,
            c.data_offset as u32 & 0x1FFFF,
            CNA_FC_CON1,
        );
        lemma_low_masks(c.data_offset as u32);
    }
    assert({
        &&& regcmd_op(t[20]) == OP_REG_CNA
        &&& regcmd_reg(t[20]) == CNA_PAD_CON0
        &&& regcmd_value(t[20]) == (c.pad_left % 0x10) * 0x10 + c.pad_top % 0x10
    }) by {
        lemma_regcmd_fields(
            OP_REG_CNA,
            ((c.pad_left as u32 & 0xF) << 4u32) | (c.pad_top as u32 & 0xF),
            CNA_PAD_CON0,
        );
        lemma_pack_4_4(c.pad_left as u32, c.pad_top as u32);
    }
    assert({
        &&& regcmd_op(t[21]) == OP_REG_CNA
        &&& regcmd_reg(t[21]) == CNA_FEATURE_DATA_ADDR
        &&& regcmd_value(t[21]) == c.feature_base_addr
    }) by {
        lemma_regcmd_fields(
            OP_REG_CNA,
            c.feature_base_addr,
            CNA_FEATURE_DATA_ADDR,
        );
    }
    assert({
        &&& regcmd_op(t[22]) == OP_REG_CNA
        &&& regcmd_reg(t[22]) == CNA_FC_CON2
        &&& regcmd_value(t[22]) == c.weight_offset
    }) by {
        lemma_regcmd_fields(
            OP_REG_CNA,
            c.weight_offset as u32 & 0x1FFFF,
            CNA_FC_CON2,
        );
        lemma_low_masks(c.weight_offset as u32);
    }
    assert({
        &&& regcmd_op(t[23]) == OP_REG_CNA
        &&& regcmd_reg(t[23]) == CNA_DMA_CON0
        &&& regcmd_value(t[23]) == (c.weight_burst_len % 0x10) * 0x10000 + c.data_burst_len % 0x10
    }) by {
        lemma_regcmd_fields(
            OP_REG_CNA,
            ((c.weight_burst_len as u32 & 0xF) << 16u32) | (c.data_burst_len as u32 & 0xF),
            CNA_DMA_CON0,
        );
        lemma_dma_con0_value(c.weight_burst_len as u32, c.data_burst_len as u32);
    }
    assert({
        &&& regcmd_op(t[24]) == OP_REG_CNA
        &&& regcmd_reg(t[24]) == CNA_DMA_CON1
        &&& regcmd_value(t[24]) == c.line_stride % 0x1000_0000
    }) by {
        lemma_regcmd_fields(
            OP_REG_CNA,
            c.line_stride & 0xFFFFFFF,
            CNA_DMA_CON1,
        );
        lemma_low_masks(c.line_stride);
    }
    assert({
        &&& regcmd_op(t[25]) == OP_REG_CNA
        &&& regcmd_reg(t[25]) == CNA_DMA_CON2
        &&& regcmd_value(t[25]) == (c.surf_stride as u32) % 0x1000_0000
    }) by {
        lemma_regcmd_fields(
            OP_REG_CNA,
            c.surf_stride as u32 & 0xFFFFFFF,
            CNA_DMA_CON2,
        );
        lemma_low_masks(c.surf_stride as u32);
    }
    assert({
        &&& regcmd_op(t[26]) == OP_REG_CNA
        &&& regcmd_reg(t[26]) == CNA_FC_DATA_SIZE0
        &&& regcmd_value(t[26]) == (c.dma_width % 0x800) * 0x10000 + c.dma_height % 0x800
    }) by {
        lemma_regcmd_fields(
            OP_REG_CNA,
            ((c.dma_width as u32 & 0x7FF) << 16u32) | (c.dma_height as u32 & 0x7FF),
            CNA_FC_DATA_SIZE0,
        );
        lemma_pack_11_11(c.dma_width as u32, c.dma_height as u32);
    }
    assert({
        &&& regcmd_op(t[27]) == OP_REG_CNA
        &&& regcmd_reg(t[27]) == CNA_FC_DATA_SIZE1
        &&& regcmd_value(t[27]) == c.dma_channel
    }) by {
        lemma_regcmd_fields(
            OP_REG_CNA,
            c.dma_channel as u32 & 0xFFFF,
            CNA_FC_DATA_SIZE1,
        );
        lemma_low_masks(c.dma_channel as u32);
    }
    assert({
        &&& regcmd_op(t[30]) == OP_REG_CNA
        &&& regcmd_reg(t[30]) == CNA_DCOMP_ADDR0
        &&& regcmd_value(t[30]) == c.decompress_addr0
    }) by {
        lemma_regcmd_fields(
            OP_REG_CNA,
            c.decompress_addr0,
            CNA_DCOMP_ADDR0,
        );
    }
}

/// Law of the CNA's unused stages: commands 28, 29 and 31 to 48 of a task's
/// register list go to the CNA and clear the decompression, the fifth
/// conversion and the second padding registers, whatever the descriptors.
pub proof fn lemma_task_cna_cleared(c: NpuCnaDesc, k: NpuCoreDesc, d: NpuDpuDesc)
    ensures
        regcmd_op(task_regcmds(c, k, d)[28]) == OP_REG_CNA,
        regcmd_reg(task_regcmds(c, k, d)[28]) == CNA_DCOMP_CTRL,
        regcmd_value(task_regcmds(c, k, d)[28]) == 0x0,
        regcmd_op(task_regcmds(c, k, d)[29]) == OP_REG_CNA,
        regcmd_reg(task_regcmds(c, k, d)[29]) == CNA_DCOMP_REGNUM,
        regcmd_value(task_regcmds(c, k, d)[29]) == 0x0,
        regcmd_op(task_regcmds(c, k, d)[31]) == OP_REG_CNA,
        regcmd_reg(task_regcmds(c, k, d)[31]) == CNA_DCOMP_AMOUNT,
        regcmd_value(task_regcmds(c, k, d)[31]) == 0x0,
        regcmd_op(task_regcmds(c, k, d)[32]) == OP_REG_CNA,
        regcmd_reg(task_regcmds(c, k, d)[32]) == CNA_DCOMP_AMOUNT1,
        regcmd_value(task_regcmds(c, k, d)[32]) == 0x0,
        regcmd_op(task_regcmds(c, k, d)[33]) == OP_REG_CNA,
        regcmd_reg(task_regcmds(c, k, d)[33]) == CNA_DCOMP_AMOUNT2,
        regcmd_value(task_regcmds(c, k, d)[33]) == 0x0,
        regcmd_op(task_regcmds(c, k, d)[34]) == OP_REG_CNA,
        regcmd_reg(task_regcmds(c, k, d)[34]) == CNA_DCOMP_AMOUNT3,
        regcmd_value(task_regcmds(c, k, d)[34]) == 0x0,
        regcmd_op(task_regcmds(c, k, d)[35]) == OP_REG_CNA,
        regcmd_reg(task_regcmds(c, k, d)[35]) == CNA_DCOMP_AMOUNT4,
        regcmd_value(task_regcmds(c, k, d)[35]) == 0x0,
        regcmd_op(task_regcmds(c, k, d)[36]) == OP_REG_CNA,
        regcmd_reg(task_regcmds(c, k, d)[36]) == CNA_DCOMP_AMOUNT5,
        regcmd_value(task_regcmds(c, k, d)[36]) == 0x0,
        regcmd_op(task_regcmds(c, k, d)[37]) == OP_REG_CNA,
        regcmd_reg(task_regcmds(c, k, d)[37]) == CNA_DCOMP_AMOUNT6,
        regcmd_value(task_regcmds(c, k, d)[37]) == 0x0,
        regcmd_op(task_regcmds(c, k, d)[38]) == OP_REG_CNA,
        regcmd_reg(task_regcmds(c, k, d)[38]) == CNA_DCOMP_AMOUNT7,
        regcmd_value(task_regcmds(c, k, d)[38]) == 0x0,
        regcmd_op(task_regcmds(c, k, d)[39]) == OP_REG_CNA,
        regcmd_reg(task_regcmds(c, k, d)[39]) == CNA_DCOMP_AMOUNT8,
        regcmd_value(task_regcmds(c, k, d)[39]) == 0x0,
        regcmd_op(task_regcmds(c, k, d)[40]) == OP_REG_CNA,
        regcmd_reg(task_regcmds(c, k, d)[40]) == CNA_DCOMP_AMOUNT9,
        regcmd_value(task_regcmds(c, k, d)[40]) == 0x0,
        regcmd_op(task_regcmds(c, k, d)[41]) == OP_REG_CNA,
        regcmd_reg(task_regcmds(c, k, d)[41]) == CNA_DCOMP_AMOUNT10,
        regcmd_value(task_regcmds(c, k, d)[41]) == 0x0,
        regcmd_op(task_regcmds(c, k, d)[42]) == OP_REG_CNA,
        regcmd_reg(task_regcmds(c, k, d)[42]) == CNA_DCOMP_AMOUNT11,
        regcmd_value(task_regcmds(c, k, d)[42]) == 0x0,
        regcmd_op(task_regcmds(c, k, d)[43]) == OP_REG_CNA,
        regcmd_reg(task_regcmds(c, k, d)[43]) == CNA_DCOMP_AMOUNT12,
        regcmd_value(task_regcmds(c, k, d)[43]) == 0x0,
        regcmd_op(task_regcmds(c, k, d)[44]) == OP_REG_CNA,
        regcmd_reg(task_regcmds(c, k, d)[44]) == CNA_DCOMP_AMOUNT13,
        regcmd_value(task_regcmds(c, k, d)[44]) == 0x0,
        regcmd_op(task_regcmds(c, k, d)[45]) == OP_REG_CNA,
        regcmd_reg(task_regcmds(c, k, d)[45]) == CNA_DCOMP_AMOUNT14,
        regcmd_value(task_regcmds(c, k, d)[45]) == 0x0,
        regcmd_op(task_regcmds(c, k, d)[46]) == OP_REG_CNA,
        regcmd_reg(task_regcmds(c, k, d)[46]) == CNA_DCOMP_AMOUNT15,
        regcmd_value(task_regcmds(c, k, d)[46]) == 0x0,
        regcmd_op(task_regcmds(c, k, d)[47]) == OP_REG_CNA,
        regcmd_reg(task_regcmds(c, k, d)[47]) == CNA_CVT_CON5,
        regcmd_value(task_regcmds(c, k, d)[47]) == 0x0,
        regcmd_op(task_regcmds(c, k, d)[48]) == OP_REG_CNA,
        regcmd_reg(task_regcmds(c, k, d)[48]) == CNA_PAD_CON1,
        regcmd_value(task_regcmds(c, k, d)[48]) == 0x0,
{
    let t = task_regcmds(c, k, d);
    assert({
        &&& regcmd_op(t[28]) == OP_REG_CNA
        &&& regcmd_reg(t[28]) == CNA_DCOMP_CTRL
        &&& regcmd_value(t[28]) == 0x0
    }) by {
        lemma_regcmd_fields(
            OP_REG_CNA,
            0x0,
            CNA_DCOMP_CTRL,
        );
    }
    assert({
        &&& regcmd_op(t[29]) == OP_REG_CNA
        &&& regcmd_reg(t[29]) == CNA_DCOMP_REGNUM
        &&& regcmd_value(t[29]) == 0x0
    }) by {
        lemma_regcmd_fields(
            OP_REG_CNA,
            0x0,
            CNA_DCOMP_REGNUM,
        );
    }
    assert({
        &&& regcmd_op(t[31]) == OP_REG_CNA
        &&& regcmd_reg(t[31]) == CNA_DCOMP_AMOUNT
        &&& regcmd_value(t[31]) == 0x0
    }) by {
        lemma_regcmd_fields(
            OP_REG_CNA,
            0x0,
            CNA_DCOMP_AMOUNT,
        );
    }
    assert({
        &&& regcmd_op(t[32]) == OP_REG_CNA
        &&& regcmd_reg(t[32]) == CNA_DCOMP_AMOUNT1
        &&& regcmd_value(t[32]) == 0x0
    }) by {
        lemma_regcmd_fields(
            OP_REG_CNA,
            0x0,
            CNA_DCOMP_AMOUNT1,
        );
    }
    assert({
        &&& regcmd_op(t[33]) == OP_REG_CNA
        &&& regcmd_reg(t[33]) == CNA_DCOMP_AMOUNT2
        &&& regcmd_value(t[33]) == 0x0
    }) by {
        lemma_regcmd_fields(
            OP_REG_CNA,
            0x0,
            CNA_DCOMP_AMOUNT2,
        );
    }
    assert({
        &&& regcmd_op(t[34]) == OP_REG_CNA
        &&& regcmd_reg(t[34]) == CNA_DCOMP_AMOUNT3
        &&& regcmd_value(t[34]) == 0x0
    }) by {
        lemma_regcmd_fields(
            OP_REG_CNA,
            0x0,
            CNA_DCOMP_AMOUNT3,
        );
    }
    assert({
        &&& regcmd_op(t[35]) == OP_REG_CNA
        &&& regcmd_reg(t[35]) == CNA_DCOMP_AMOUNT4
        &&& regcmd_value(t[35]) == 0x0
    }) by {
        lemma_regcmd_fields(
            OP_REG_CNA,
            0x0,
            CNA_DCOMP_AMOUNT4,
        );
    }
    assert({
        &&& regcmd_op(t[36]) == OP_REG_CNA
        &&& regcmd_reg(t[36]) == CNA_DCOMP_AMOUNT5
        &&& regcmd_value(t[36]) == 0x0
    }) by {
        lemma_regcmd_fields(
            OP_REG_CNA,
            0x0,
            CNA_DCOMP_AMOUNT5,
        );
    }
    assert({
        &&& regcmd_op(t[37]) == OP_REG_CNA
        &&& regcmd_reg(t[37]) == CNA_DCOMP_AMOUNT6
        &&& regcmd_value(t[37]) == 0x0
    }) by {
        lemma_regcmd_fields(
            OP_REG_CNA,
            0x0,
            CNA_DCOMP_AMOUNT6,
        );
    }
    assert({
        &&& regcmd_op(t[38]) == OP_REG_CNA
        &&& regcmd_reg(t[38]) == CNA_DCOMP_AMOUNT7
        &&& regcmd_value(t[38]) == 0x0
    }) by {
        lemma_regcmd_fields(
            OP_REG_CNA,
            0x0,
            CNA_DCOMP_AMOUNT7,
        );
    }
    assert({
        &&& regcmd_op(t[39]) == OP_REG_CNA
        &&& regcmd_reg(t[39]) == CNA_DCOMP_AMOUNT8
        &&& regcmd_value(t[39]) == 0x0
    }) by {
        lemma_regcmd_fields(
            OP_REG_CNA,
            0x0,
            CNA_DCOMP_AMOUNT8,
        );
    }
    assert({
        &&& regcmd_op(t[40]) == OP_REG_CNA
        &&& regcmd_reg(t[40]) == CNA_DCOMP_AMOUNT9
        &&& regcmd_value(t[40]) == 0x0
    }) by {
        lemma_regcmd_fields(
            OP_REG_CNA,
            0x0,
            CNA_DCOMP_AMOUNT9,
        );
    }
    assert({
        &&& regcmd_op(t[41]) == OP_REG_CNA
        &&& regcmd_reg(t[41]) == CNA_DCOMP_AMOUNT10
        &&& regcmd_value(t[41]) == 0x0
    }) by {
        lemma_regcmd_fields(
            OP_REG_CNA,
            0x0,
            CNA_DCOMP_AMOUNT10,
        );
    }
    assert({
        &&& regcmd_op(t[42]) == OP_REG_CNA
        &&& regcmd_reg(t[42]) == CNA_DCOMP_AMOUNT11
        &&& regcmd_value(t[42]) == 0x0
    }) by {
        lemma_regcmd_fields(
            OP_REG_CNA,
            0x0,
            CNA_DCOMP_AMOUNT11,
        );
    }
    assert({
        &&& regcmd_op(t[43]) == OP_REG_CNA
        &&& regcmd_reg(t[43]) == CNA_DCOMP_AMOUNT12
        &&& regcmd_value(t[43]) == 0x0
    }) by {
        lemma_regcmd_fields(
            OP_REG_CNA,
            0x0,
            CNA_DCOMP_AMOUNT12,
        );
    }
    assert({
        &&& regcmd_op(t[44]) == OP_REG_CNA
        &&& regcmd_reg(t[44]) == CNA_DCOMP_AMOUNT13
        &&& regcmd_value(t[44]) == 0x0
    }) by {
        lemma_regcmd_fields(
            OP_REG_CNA,
            0x0,
            CNA_DCOMP_AMOUNT13,
        );
    }
    assert({
        &&& regcmd_op(t[45]) == OP_REG_CNA
        &&& regcmd_reg(t[45]) == CNA_DCOMP_AMOUNT14
        &&& regcmd_value(t[45]) == 0x0
    }) by {
        lemma_regcmd_fields(
            OP_REG_CNA,
            0x0,
            CNA_DCOMP_AMOUNT14,
        );
    }
    assert({
        &&& regcmd_op(t[46]) == OP_REG_CNA
        &&& regcmd_reg(t[46]) == CNA_DCOMP_AMOUNT15
        &&& regcmd_value(t[46]) == 0x0
    }) by {
        lemma_regcmd_fields(
            OP_REG_CNA,
            0x0,
            CNA_DCOMP_AMOUNT15,
        );
    }
    assert({
        &&& regcmd_op(t[47]) == OP_REG_CNA
        &&& regcmd_reg(t[47]) == CNA_CVT_CON5
        &&& regcmd_value(t[47]) == 0x0
    }) by {
        lemma_regcmd_fields(
            OP_REG_CNA,
            0x0,
            CNA_CVT_CON5,
        );
    }
    assert({
        &&& regcmd_op(t[48]) == OP_REG_CNA
        &&& regcmd_reg(t[48]) == CNA_PAD_CON1
        &&& regcmd_value(t[48]) == 0x0
    }) by {
        lemma_regcmd_fields(
            OP_REG_CNA,
            0x0,
            CNA_PAD_CON1,
        );
    }
}

/// Law of the CORE set-up: commands 49 to 53 of a task's register list go to
/// the CORE; the first holds the processing precision (3 bits) above the
/// quantisation flag, the second the output height above the output width,
/// the third the output channel count, and clipping is cleared.
pub proof fn lemma_task_core_registers(c: NpuCnaDesc, k: NpuCoreDesc, d: NpuDpuDesc)
    ensures
        regcmd_op(task_regcmds(c, k, d)[49]) == OP_REG_CORE,
        regcmd_reg(task_regcmds(c, k, d)[49]) == CORE_MISC_CFG,
        regcmd_value(task_regcmds(c, k, d)[49]) == (k.proc_precision % 8) * 0x100 + k.qd_en % 2,
        regcmd_op(task_regcmds(c, k, d)[50]) == OP_REG_CORE,
        regcmd_reg(task_regcmds(c, k, d)[50]) == CORE_DATAOUT_SIZE_0,
        regcmd_value(task_regcmds(c, k, d)[50]) == k.dataout_height * 0x10000 + k.dataout_width,
        regcmd_op(task_regcmds(c, k, d)[51]) == OP_REG_CORE,
        regcmd_reg(task_regcmds(c, k, d)[51]) == CORE_DATAOUT_SIZE_1,
        regcmd_value(task_regcmds(c, k, d)[51]) == k.dataout_channel,
        regcmd_op(task_regcmds(c, k, d)[52]) == OP_REG_CORE,
        regcmd_reg(task_regcmds(c, k, d)[52]) == CORE_CLIP_TRUNCATE,
        regcmd_value(task_regcmds(c, k, d)[52]) == 0x0,
        regcmd_op(task_regcmds(c, k, d)[53]) == OP_REG_CORE,
        regcmd_reg(task_regcmds(c, k, d)[53]) == CORE_3030,
        regcmd_value(task_regcmds(c, k, d)[53]) == 0x0,
{
    let t = task_regcmds(c, k, d);
    assert({
        &&& regcmd_op(t[49]) == OP_REG_CORE
        &&& regcmd_reg(t[49]) == CORE_MISC_CFG
        &&& regcmd_value(t[49]) == (k.proc_precision % 8) * 0x100 + k.qd_en % 2
    }) by {
        lemma_regcmd_fields(
            OP_REG_CORE,
            ((k.proc_precision as u32 & 0x7) << 8u32) | (k.qd_en as u32 & 0x1),
            CORE_MISC_CFG,
        );
        lemma_misc_cfg_value(k.proc_precision as u32, k.qd_en as u32);
    }
    assert({
        &&& regcmd_op(t[50]) == OP_REG_CORE
        &&& regcmd_reg(t[50]) == CORE_DATAOUT_SIZE_0
        &&& regcmd_value(t[50]) == k.dataout_height * 0x10000 + k.dataout_width
    }) by {
        lemma_regcmd_fields(
            OP_REG_CORE,
            ((k.dataout_height as u32 & 0xFFFF) << 16u32) | (k.dataout_width as u32 & 0xFFFF),
            CORE_DATAOUT_SIZE_0,
        );
        lemma_pack_16_16(k.dataout_height as u32, k.dataout_width as u32);
    }
    assert({
        &&& regcmd_op(t[51]) == OP_REG_CORE
        &&& regcmd_reg(t[51]) == CORE_DATAOUT_SIZE_1
        &&& regcmd_value(t[51]) == k.dataout_channel
    }) by {
        lemma_regcmd_fields(
            OP_REG_CORE,
            k.dataout_channel as u32 & 0xFFFF,
            CORE_DATAOUT_SIZE_1,
        );
        lemma_low_masks(k.dataout_channel as u32);
    }
    assert({
        &&& regcmd_op(t[52]) == OP_REG_CORE
        &&& regcmd_reg(t[52]) == CORE_CLIP_TRUNCATE
        &&& regcmd_value(t[52]) == 0x0
    }) by {
        lemma_regcmd_fields(
            OP_REG_CORE,
            0x0,
            CORE_CLIP_TRUNCATE,
        );
    }
    assert({
        &&& regcmd_op(t[53]) == OP_REG_CORE
        &&& regcmd_reg(t[53]) == CORE_3030
        &&& regcmd_value(t[53]) == 0x0
    }) by {
        lemma_regcmd_fields(
            OP_REG_CORE,
            0x0,
            CORE_3030,
        );
    }
}

/// Law of the DPU set-up: commands 54 to 79 of a task's register list go to
/// the DPU, each to the register named for it, and each value is the
/// descriptor's fields at their bit positions, every field cut to the width
/// of its place: the output, input and processing precisions at bits 29, 26
/// and 0, the data cube's width, height and channel count in 13 bits, the
/// write DMA's height at bit 16 above its width, the surface stride shifted
/// left by 4; the bypass bits of the BS, BN and EW stages at their places.
pub proof fn lemma_task_dpu_registers(c: NpuCnaDesc, k: NpuCoreDesc, d: NpuDpuDesc)
    ensures
        regcmd_op(task_regcmds(c, k, d)[54]) == OP_REG_DPU,
        regcmd_reg(task_regcmds(c, k, d)[54]) == DPU_FEATURE_MODE_CFG,
        regcmd_value(task_regcmds(c, k, d)[54]) == (d.burst_len % 0x10) * 0x20
            + (d.conv_mode % 4) * 8 + (d.output_mode % 4) * 2 + d.flying_mode % 2,
        regcmd_op(task_regcmds(c, k, d)[55]) == OP_REG_DPU,
        regcmd_reg(task_regcmds(c, k, d)[55]) == DPU_DATA_FORMAT,
        regcmd_value(task_regcmds(c, k, d)[55]) == (d.out_precision % 8) * 0x2000_0000
            + (d.in_precision % 8) * 0x400_0000 + d.proc_precision % 8,
        regcmd_op(task_regcmds(c, k, d)[56]) == OP_REG_DPU,
        regcmd_reg(task_regcmds(c, k, d)[56]) == DPU_OFFSET_PEND,
        regcmd_value(task_regcmds(c, k, d)[56]) == 0x0,
        regcmd_op(task_regcmds(c, k, d)[57]) == OP_REG_DPU,
        regcmd_reg(task_regcmds(c, k, d)[57]) == DPU_DST_BASE_ADD,
        regcmd_value(task_regcmds(c, k, d)[57]) == d.dst_base_addr,
        regcmd_op(task_regcmds(c, k, d)[58]) == OP_REG_DPU,
        regcmd_reg(task_regcmds(c, k, d)[58]) == DPU_DST_SURF_STRIDE,
        regcmd_value(task_regcmds(c, k, d)[58]) == (d.dst_surf_stride % 0x1000_0000) * 0x10,
        regcmd_op(task_regcmds(c, k, d)[59]) == OP_REG_DPU,
        regcmd_reg(task_regcmds(c, k, d)[59]) == DPU_DATA_CUBE_WIDTH,
        regcmd_value(task_regcmds(c, k, d)[59]) == d.width % 0x2000,
        regcmd_op(task_regcmds(c, k, d)[60]) == OP_REG_DPU,
        regcmd_reg(task_regcmds(c, k, d)[60]) == DPU_DATA_CUBE_HEIGHT,
        regcmd_value(task_regcmds(c, k, d)[60]) == d.height % 0x2000,
        regcmd_op(task_regcmds(c, k, d)[61]) == OP_REG_DPU,
        regcmd_reg(task_regcmds(c, k, d)[61]) == DPU_DATA_CUBE_NOTCH_ADDR,
        regcmd_value(task_regcmds(c, k, d)[61]) == 0x0,
        regcmd_op(task_regcmds(c, k, d)[62]) == OP_REG_DPU,
        regcmd_reg(task_regcmds(c, k, d)[62]) == DPU_DATA_CUBE_CHANNEL,
        regcmd_value(task_regcmds(c, k, d)[62]) == (d.channel % 0x2000) * 0x10000
            + d.channel % 0x2000,
        regcmd_op(task_regcmds(c, k, d)[63]) == OP_REG_DPU,
        regcmd_reg(task_regcmds(c, k, d)[63]) == DPU_BS_CFG,
        regcmd_value(task_regcmds(c, k, d)[63]) == (d.bs_relu_bypass % 2) * 0x40
            + (d.bs_mul_bypass % 2) * 0x10 + (d.bs_alu_bypass % 2) * 2 + d.bs_bypass % 2,
        regcmd_op(task_regcmds(c, k, d)[64]) == OP_REG_DPU,
        regcmd_reg(task_regcmds(c, k, d)[64]) == DPU_BS_ALU_CFG,
        regcmd_value(task_regcmds(c, k, d)[64]) == 0x0,
        regcmd_op(task_regcmds(c, k, d)[65]) == OP_REG_DPU,
        regcmd_reg(task_regcmds(c, k, d)[65]) == DPU_BS_MUL_CFG,
        regcmd_value(task_regcmds(c, k, d)[65]) == 0x0,
        regcmd_op(task_regcmds(c, k, d)[66]) == OP_REG_DPU,
        regcmd_reg(task_regcmds(c, k, d)[66]) == DPU_BS_RELUX_CMP_VALUE,
        regcmd_value(task_regcmds(c, k, d)[66]) == 0x0,
        regcmd_op(task_regcmds(c, k, d)[67]) == OP_REG_DPU,
        regcmd_reg(task_regcmds(c, k, d)[67]) == DPU_BS_OW_CFG,
        regcmd_value(task_regcmds(c, k, d)[67]) == (d.size_e_2 % 8) * 0x100
            + (d.size_e_1 % 8) * 0x20 + (d.size_e_0 % 8) * 4 + (d.od_bypass % 2) * 2,
        regcmd_op(task_regcmds(c, k, d)[68]) == OP_REG_DPU,
        regcmd_reg(task_regcmds(c, k, d)[68]) == DPU_BS_OW_OP,
        regcmd_value(task_regcmds(c, k, d)[68]) == 0x0,
        regcmd_op(task_regcmds(c, k, d)[69]) == OP_REG_DPU,
        regcmd_reg(task_regcmds(c, k, d)[69]) == DPU_WDMA_SIZE_0,
        regcmd_value(task_regcmds(c, k, d)[69]) == d.channel_wdma % 0x2000,
        regcmd_op(task_regcmds(c, k, d)[70]) == OP_REG_DPU,
        regcmd_reg(task_regcmds(c, k, d)[70]) == DPU_WDMA_SIZE_1,
        regcmd_value(task_regcmds(c, k, d)[70]) == (d.height_wdma % 0x2000) * 0x10000
            + d.width_wdma % 0x2000,
        regcmd_op(task_regcmds(c, k, d)[71]) == OP_REG_DPU,
        regcmd_reg(task_regcmds(c, k, d)[71]) == DPU_BN_CFG,
        regcmd_value(task_regcmds(c, k, d)[71]) == (d.bn_relu_bypass % 2) * 0x40
            + (d.bn_mul_bypass % 2) * 0x10 + (d.bn_alu_bypass % 2) * 2 + d.bn_bypass % 2,
        regcmd_op(task_regcmds(c, k, d)[72]) == OP_REG_DPU,
        regcmd_reg(task_regcmds(c, k, d)[72]) == DPU_BN_ALU_CFG,
        regcmd_value(task_regcmds(c, k, d)[72]) == 0x0,
        regcmd_op(task_regcmds(c, k, d)[73]) == OP_REG_DPU,
        regcmd_reg(task_regcmds(c, k, d)[73]) == DPU_BN_MUL_CFG,
        regcmd_value(task_regcmds(c, k, d)[73]) == 0x0,
        regcmd_op(task_regcmds(c, k, d)[74]) == OP_REG_DPU,
        regcmd_reg(task_regcmds(c, k, d)[74]) == DPU_BN_RELUX_CMP_VALUE,
        regcmd_value(task_regcmds(c, k, d)[74]) == 0x0,
        regcmd_op(task_regcmds(c, k, d)[75]) == OP_REG_DPU,
        regcmd_reg(task_regcmds(c, k, d)[75]) == DPU_EW_CFG,
        regcmd_value(task_regcmds(c, k, d)[75]) == (d.ew_relu_bypass % 2) * 0x200
            + (d.ew_op_cvt_bypass % 2) * 0x100 + (d.ew_lut_bypass % 2) * 0x80
            + (d.ew_op_bypass % 2) * 2 + d.ew_bypass % 2,
        regcmd_op(task_regcmds(c, k, d)[76]) == OP_REG_DPU,
        regcmd_reg(task_regcmds(c, k, d)[76]) == DPU_EW_CVT_OFFSET_VALUE,
        regcmd_value(task_regcmds(c, k, d)[76]) == 0x0,
        regcmd_op(task_regcmds(c, k, d)[77]) == OP_REG_DPU,
        regcmd_reg(task_regcmds(c, k, d)[77]) == DPU_EW_CVT_SCALE_VALUE,
        regcmd_value(task_regcmds(c, k, d)[77]) == 0x1,
        regcmd_op(task_regcmds(c, k, d)[78]) == OP_REG_DPU,
        regcmd_reg(task_regcmds(c, k, d)[78]) == DPU_EW_RELUX_CMP_VALUE,
        regcmd_value(task_regcmds(c, k, d)[78]) == 0x0,
        regcmd_op(task_regcmds(c, k, d)[79]) == OP_REG_DPU,
        regcmd_reg(task_regcmds(c, k, d)[79]) == DPU_OUT_CVT_OFFSET,
        regcmd_value(task_regcmds(c, k, d)[79]) == 0x0,
{
    let t = task_regcmds(c, k, d);
    assert({
        &&& regcmd_op(t[54]) == OP_REG_DPU
        &&& regcmd_reg(t[54]) == DPU_FEATURE_MODE_CFG
        &&& regcmd_value(t[54]) == (d.burst_len % 0x10) * 0x20 + (d.conv_mode % 4) * 8
            + (d.output_mode % 4) * 2 + d.flying_mode % 2
    }) by {
        lemma_regcmd_fields(
            OP_REG_DPU,
            ((d.burst_len as u32 & 0xF) << 5u32) | ((d.conv_mode as u32 & 0x3) << 3u32)
                | ((d.output_mode as u32 & 0x3) << 1u32) | (d.flying_mode as u32 & 0x1),
            DPU_FEATURE_MODE_CFG,
        );
        lemma_feature_mode_value(
            d.burst_len as u32,
            d.conv_mode as u32,
            d.output_mode as u32,
            d.flying_mode as u32,
        );
    }
    assert({
        &&& regcmd_op(t[55]) == OP_REG_DPU
        &&& regcmd_reg(t[55]) == DPU_DATA_FORMAT
        &&& regcmd_value(t[55]) == (d.out_precision % 8) * 0x2000_0000
            + (d.in_precision % 8) * 0x400_0000 + d.proc_precision % 8
    }) by {
        lemma_regcmd_fields(
            OP_REG_DPU,
            ((d.out_precision as u32 & 0x7) << 29u32) | ((d.in_precision as u32 & 0x7) << 26u32)
                | (d.proc_precision as u32 & 0x7),
            DPU_DATA_FORMAT,
        );
        lemma_data_format_value(
            d.out_precision as u32,
            d.in_precision as u32,
            d.proc_precision as u32,
        );
    }
    assert({
        &&& regcmd_op(t[56]) == OP_REG_DPU
        &&& regcmd_reg(t[56]) == DPU_OFFSET_PEND
        &&& regcmd_value(t[56]) == 0x0
    }) by {
        lemma_regcmd_fields(
            OP_REG_DPU,
            0x0,
            DPU_OFFSET_PEND,
        );
    }
    assert({
        &&& regcmd_op(t[57]) == OP_REG_DPU
        &&& regcmd_reg(t[57]) == DPU_DST_BASE_ADD
        &&& regcmd_value(t[57]) == d.dst_base_addr
    }) by {
        lemma_regcmd_fields(
            OP_REG_DPU,
            d.dst_base_addr,
            DPU_DST_BASE_ADD,
        );
    }
    assert({
        &&& regcmd_op(t[58]) == OP_REG_DPU
        &&& regcmd_reg(t[58]) == DPU_DST_SURF_STRIDE
        &&& regcmd_value(t[58]) == (d.dst_surf_stride % 0x1000_0000) * 0x10
    }) by {
        lemma_regcmd_fields(
            OP_REG_DPU,
            (d.dst_surf_stride & 0xFFFFFFF) << 4u32,
            DPU_DST_SURF_STRIDE,
        );
        lemma_shl4_value(d.dst_surf_stride);
    }
    assert({
        &&& regcmd_op(t[59]) == OP_REG_DPU
        &&& regcmd_reg(t[59]) == DPU_DATA_CUBE_WIDTH
        &&& regcmd_value(t[59]) == d.width % 0x2000
    }) by {
        lemma_regcmd_fields(
            OP_REG_DPU,
            d.width as u32 & 0x1FFF,
            DPU_DATA_CUBE_WIDTH,
        );
        lemma_low_masks(d.width as u32);
    }
    assert({
        &&& regcmd_op(t[60]) == OP_REG_DPU
        &&& regcmd_reg(t[60]) == DPU_DATA_CUBE_HEIGHT
        &&& regcmd_value(t[60]) == d.height % 0x2000
    }) by {
        lemma_regcmd_fields(
            OP_REG_DPU,
            d.height as u32 & 0x1FFF,
            DPU_DATA_CUBE_HEIGHT,
        );
        lemma_low_masks(d.height as u32);
    }
    assert({
        &&& regcmd_op(t[61]) == OP_REG_DPU
        &&& regcmd_reg(t[61]) == DPU_DATA_CUBE_NOTCH_ADDR
        &&& regcmd_value(t[61]) == 0x0
    }) by {
        lemma_regcmd_fields(
            OP_REG_DPU,
            0x0,
            DPU_DATA_CUBE_NOTCH_ADDR,
        );
    }
    assert({
        &&& regcmd_op(t[62]) == OP_REG_DPU
        &&& regcmd_reg(t[62]) == DPU_DATA_CUBE_CHANNEL
        &&& regcmd_value(t[62]) == (d.channel % 0x2000) * 0x10000 + d.channel % 0x2000
    }) by {
        lemma_regcmd_fields(
            OP_REG_DPU,
            ((d.channel as u32 & 0x1FFF) << 16u32) | (d.channel as u32 & 0x1FFF),
            DPU_DATA_CUBE_CHANNEL,
        );
        lemma_pack_13_13(d.channel as u32, d.channel as u32);
    }
    assert({
        &&& regcmd_op(t[63]) == OP_REG_DPU
        &&& regcmd_reg(t[63]) == DPU_BS_CFG
        &&& regcmd_value(t[63]) == (d.bs_relu_bypass % 2) * 0x40 + (d.bs_mul_bypass % 2) * 0x10
            + (d.bs_alu_bypass % 2) * 2 + d.bs_bypass % 2
    }) by {
        lemma_regcmd_fields(
            OP_REG_DPU,
            ((d.bs_relu_bypass as u32 & 0x1) << 6u32) | ((d.bs_mul_bypass as u32 & 0x1) << 4u32)
                | ((d.bs_alu_bypass as u32 & 0x1) << 1u32) | (d.bs_bypass as u32 & 0x1),
            DPU_BS_CFG,
        );
        lemma_bypass_cfg_value(
            d.bs_relu_bypass as u32,
            d.bs_mul_bypass as u32,
            d.bs_alu_bypass as u32,
            d.bs_bypass as u32,
        );
    }
    assert({
        &&& regcmd_op(t[64]) == OP_REG_DPU
        &&& regcmd_reg(t[64]) == DPU_BS_ALU_CFG
        &&& regcmd_value(t[64]) == 0x0
    }) by {
        lemma_regcmd_fields(
            OP_REG_DPU,
            0x0,
            DPU_BS_ALU_CFG,
        );
    }
    assert({
        &&& regcmd_op(t[65]) == OP_REG_DPU
        &&& regcmd_reg(t[65]) == DPU_BS_MUL_CFG
        &&& regcmd_value(t[65]) == 0x0
    }) by {
        lemma_regcmd_fields(
            OP_REG_DPU,
            0x0,
            DPU_BS_MUL_CFG,
        );
    }
    assert({
        &&& regcmd_op(t[66]) == OP_REG_DPU
        &&& regcmd_reg(t[66]) == DPU_BS_RELUX_CMP_VALUE
        &&& regcmd_value(t[66]) == 0x0
    }) by {
        lemma_regcmd_fields(
            OP_REG_DPU,
            0x0,
            DPU_BS_RELUX_CMP_VALUE,
        );
    }
    assert({
        &&& regcmd_op(t[67]) == OP_REG_DPU
        &&& regcmd_reg(t[67]) == DPU_BS_OW_CFG
        &&& regcmd_value(t[67]) == (d.size_e_2 % 8) * 0x100 + (d.size_e_1 % 8) * 0x20
            + (d.size_e_0 % 8) * 4 + (d.od_bypass % 2) * 2
    }) by {
        lemma_regcmd_fields(
            OP_REG_DPU,
            ((d.size_e_2 as u32 & 0x7) << 8u32) | ((d.size_e_1 as u32 & 0x7) << 5u32)
                | ((d.size_e_0 as u32 & 0x7) << 2u32) | ((d.od_bypass as u32 & 0x1) << 1u32),
            DPU_BS_OW_CFG,
        );
        lemma_ow_cfg_value(
            d.size_e_2 as u32,
            d.size_e_1 as u32,
            d.size_e_0 as u32,
            d.od_bypass as u32,
        );
    }
    assert({
        &&& regcmd_op(t[68]) == OP_REG_DPU
        &&& regcmd_reg(t[68]) == DPU_BS_OW_OP
        &&& regcmd_value(t[68]) == 0x0
    }) by {
        lemma_regcmd_fields(
            OP_REG_DPU,
            0x0,
            DPU_BS_OW_OP,
        );
    }
    assert({
        &&& regcmd_op(t[69]) == OP_REG_DPU
        &&& regcmd_reg(t[69]) == DPU_WDMA_SIZE_0
        &&& regcmd_value(t[69]) == d.channel_wdma % 0x2000
    }) by {
        lemma_regcmd_fields(
            OP_REG_DPU,
            d.channel_wdma as u32 & 0x1FFF,
            DPU_WDMA_SIZE_0,
        );
        lemma_low_masks(d.channel_wdma as u32);
    }
    assert({
        &&& regcmd_op(t[70]) == OP_REG_DPU
        &&& regcmd_reg(t[70]) == DPU_WDMA_SIZE_1
        &&& regcmd_value(t[70]) == (d.height_wdma % 0x2000) * 0x10000 + d.width_wdma % 0x2000
    }) by {
        lemma_regcmd_fields(
            OP_REG_DPU,
            ((d.height_wdma as u32 & 0x1FFF) << 16u32) | (d.width_wdma as u32 & 0x1FFF),
            DPU_WDMA_SIZE_1,
        );
        lemma_pack_13_13(d.height_wdma as u32, d.width_wdma as u32);
    }
    assert({
        &&& regcmd_op(t[71]) == OP_REG_DPU
        &&& regcmd_reg(t[71]) == DPU_BN_CFG
        &&& regcmd_value(t[71]) == (d.bn_relu_bypass % 2) * 0x40 + (d.bn_mul_bypass % 2) * 0x10
            + (d.bn_alu_bypass % 2) * 2 + d.bn_bypass % 2
    }) by {
        lemma_regcmd_fields(
            OP_REG_DPU,
            ((d.bn_relu_bypass as u32 & 0x1) << 6u32) | ((d.bn_mul_bypass as u32 & 0x1) << 4u32)
                | ((d.bn_alu_bypass as u32 & 0x1) << 1u32) | (d.bn_bypass as u32 & 0x1),
            DPU_BN_CFG,
        );
        lemma_bypass_cfg_value(
            d.bn_relu_bypass as u32,
            d.bn_mul_bypass as u32,
            d.bn_alu_bypass as u32,
            d.bn_bypass as u32,
        );
    }
    assert({
        &&& regcmd_op(t[72]) == OP_REG_DPU
        &&& regcmd_reg(t[72]) == DPU_BN_ALU_CFG
        &&& regcmd_value(t[72]) == 0x0
    }) by {
        lemma_regcmd_fields(
            OP_REG_DPU,
            0x0,
            DPU_BN_ALU_CFG,
        );
    }
    assert({
        &&& regcmd_op(t[73]) == OP_REG_DPU
        &&& regcmd_reg(t[73]) == DPU_BN_MUL_CFG
        &&& regcmd_value(t[73]) == 0x0
    }) by {
        lemma_regcmd_fields(
            OP_REG_DPU,
            0x0,
            DPU_BN_MUL_CFG,
        );
    }
    assert({
        &&& regcmd_op(t[74]) == OP_REG_DPU
        &&& regcmd_reg(t[74]) == DPU_BN_RELUX_CMP_VALUE
        &&& regcmd_value(t[74]) == 0x0
    }) by {
        lemma_regcmd_fields(
            OP_REG_DPU,
            0x0,
            DPU_BN_RELUX_CMP_VALUE,
        );
    }
    assert({
        &&& regcmd_op(t[75]) == OP_REG_DPU
        &&& regcmd_reg(t[75]) == DPU_EW_CFG
        &&& regcmd_value(t[75]) == (d.ew_relu_bypass % 2) * 0x200
            + (d.ew_op_cvt_bypass % 2) * 0x100 + (d.ew_lut_bypass % 2) * 0x80
            + (d.ew_op_bypass % 2) * 2 + d.ew_bypass % 2
    }) by {
        lemma_regcmd_fields(
            OP_REG_DPU,
            ((d.ew_relu_bypass as u32 & 0x1) << 9u32) | ((d.ew_op_cvt_bypass as u32 & 0x1) << 8u32)
                | ((d.ew_lut_bypass as u32 & 0x1) << 7u32)
                | ((d.ew_op_bypass as u32 & 0x1) << 1u32) | (d.ew_bypass as u32 & 0x1),
            DPU_EW_CFG,
        );
        lemma_ew_cfg_value(
            d.ew_relu_bypass as u32,
            d.ew_op_cvt_bypass as u32,
            d.ew_lut_bypass as u32,
            d.ew_op_bypass as u32,
            d.ew_bypass as u32,
        );
    }
    assert({
        &&& regcmd_op(t[76]) == OP_REG_DPU
        &&& regcmd_reg(t[76]) == DPU_EW_CVT_OFFSET_VALUE
        &&& regcmd_value(t[76]) == 0x0
    }) by {
        lemma_regcmd_fields(
            OP_REG_DPU,
            0x0,
            DPU_EW_CVT_OFFSET_VALUE,
        );
    }
    assert({
        &&& regcmd_op(t[77]) == OP_REG_DPU
        &&& regcmd_reg(t[77]) == DPU_EW_CVT_SCALE_VALUE
        &&& regcmd_value(t[77]) == 0x1
    }) by {
        lemma_regcmd_fields(
            OP_REG_DPU,
            0x1,
            DPU_EW_CVT_SCALE_VALUE,
        );
    }
    assert({
        &&& regcmd_op(t[78]) == OP_REG_DPU
        &&& regcmd_reg(t[78]) == DPU_EW_RELUX_CMP_VALUE
        &&& regcmd_value(t[78]) == 0x0
    }) by {
        lemma_regcmd_fields(
            OP_REG_DPU,
            0x0,
            DPU_EW_RELUX_CMP_VALUE,
        );
    }
    assert({
        &&& regcmd_op(t[79]) == OP_REG_DPU
        &&& regcmd_reg(t[79]) == DPU_OUT_CVT_OFFSET
        &&& regcmd_value(t[79]) == 0x0
    }) by {
        lemma_regcmd_fields(
            OP_REG_DPU,
            0x0,
            DPU_OUT_CVT_OFFSET,
        );
    }
}

/// Law of the DPU output stage: commands 80 to 103 of a task's register list
/// go to the DPU; the output conversion holds the FP32-to-FP16 bit at bit 16
/// above the 16-bit scale, the surface address is shifted left by 4, and the
/// element-wise operands and the lookup table are cleared.
pub proof fn lemma_task_dpu_output_registers(c: NpuCnaDesc, k: NpuCoreDesc, d: NpuDpuDesc)
    ensures
        regcmd_op(task_regcmds(c, k, d)[80]) == OP_REG_DPU,
        regcmd_reg(task_regcmds(c, k, d)[80]) == DPU_OUT_CVT_SCALE,
        regcmd_value(task_regcmds(c, k, d)[80]) == (d.fp32tofp16_en % 2) * 0x10000
            + d.out_cvt_scale,
        regcmd_op(task_regcmds(c, k, d)[81]) == OP_REG_DPU,
        regcmd_reg(task_regcmds(c, k, d)[81]) == DPU_OUT_CVT_SHIFT,
        regcmd_value(task_regcmds(c, k, d)[81]) == 0x0,
        regcmd_op(task_regcmds(c, k, d)[82]) == OP_REG_DPU,
        regcmd_reg(task_regcmds(c, k, d)[82]) == DPU_EW_OP_VALUE_0,
        regcmd_value(task_regcmds(c, k, d)[82]) == 0x0,
        regcmd_op(task_regcmds(c, k, d)[83]) == OP_REG_DPU,
        regcmd_reg(task_regcmds(c, k, d)[83]) == DPU_EW_OP_VALUE_1,
        regcmd_value(task_regcmds(c, k, d)[83]) == 0x0,
        regcmd_op(task_regcmds(c, k, d)[84]) == OP_REG_DPU,
        regcmd_reg(task_regcmds(c, k, d)[84]) == DPU_EW_OP_VALUE_2,
        regcmd_value(task_regcmds(c, k, d)[84]) == 0x0,
        regcmd_op(task_regcmds(c, k, d)[85]) == OP_REG_DPU,
        regcmd_reg(task_regcmds(c, k, d)[85]) == DPU_EW_OP_VALUE_3,
        regcmd_value(task_regcmds(c, k, d)[85]) == 0x0,
        regcmd_op(task_regcmds(c, k, d)[86]) == OP_REG_DPU,
        regcmd_reg(task_regcmds(c, k, d)[86]) == DPU_EW_OP_VALUE_4,
        regcmd_value(task_regcmds(c, k, d)[86]) == 0x0,
        regcmd_op(task_regcmds(c, k, d)[87]) == OP_REG_DPU,
        regcmd_reg(task_regcmds(c, k, d)[87]) == DPU_EW_OP_VALUE_5,
        regcmd_value(task_regcmds(c, k, d)[87]) == 0x0,
        regcmd_op(task_regcmds(c, k, d)[88]) == OP_REG_DPU,
        regcmd_reg(task_regcmds(c, k, d)[88]) == DPU_EW_OP_VALUE_6,
        regcmd_value(task_regcmds(c, k, d)[88]) == 0x0,
        regcmd_op(task_regcmds(c, k, d)[89]) == OP_REG_DPU,
        regcmd_reg(task_regcmds(c, k, d)[89]) == DPU_EW_OP_VALUE_7,
        regcmd_value(task_regcmds(c, k, d)[89]) == 0x0,
        regcmd_op(task_regcmds(c, k, d)[90]) == OP_REG_DPU,
        regcmd_reg(task_regcmds(c, k, d)[90]) == DPU_SURFACE_ADD,
        regcmd_value(task_regcmds(c, k, d)[90]) == (d.surf_add % 0x1000_0000) * 0x10,
        regcmd_op(task_regcmds(c, k, d)[91]) == OP_REG_DPU,
        regcmd_reg(task_regcmds(c, k, d)[91]) == DPU_40C4,
        regcmd_value(task_regcmds(c, k, d)[91]) == 0x0,
        regcmd_op(task_regcmds(c, k, d)[92]) == OP_REG_DPU,
        regcmd_reg(task_regcmds(c, k, d)[92]) == DPU_LUT_ACCESS_CFG,
        regcmd_value(task_regcmds(c, k, d)[92]) == 0x0,
        regcmd_op(task_regcmds(c, k, d)[93]) == OP_REG_DPU,
        regcmd_reg(task_regcmds(c, k, d)[93]) == DPU_LUT_ACCESS_DATA,
        regcmd_value(task_regcmds(c, k, d)[93]) == 0x0,
        regcmd_op(task_regcmds(c, k, d)[94]) == OP_REG_DPU,
        regcmd_reg(task_regcmds(c, k, d)[94]) == DPU_LUT_CFG,
        regcmd_value(task_regcmds(c, k, d)[94]) == 0x0,
        regcmd_op(task_regcmds(c, k, d)[95]) == OP_REG_DPU,
        regcmd_reg(task_regcmds(c, k, d)[95]) == DPU_LUT_INFO,
        regcmd_value(task_regcmds(c, k, d)[95]) == 0x0,
        regcmd_op(task_regcmds(c, k, d)[96]) == OP_REG_DPU,
        regcmd_reg(task_regcmds(c, k, d)[96]) == DPU_LUT_LE_START,
        regcmd_value(task_regcmds(c, k, d)[96]) == 0x0,
        regcmd_op(task_regcmds(c, k, d)[97]) == OP_REG_DPU,
        regcmd_reg(task_regcmds(c, k, d)[97]) == DPU_LUT_LE_END,
        regcmd_value(task_regcmds(c, k, d)[97]) == 0x0,
        regcmd_op(task_regcmds(c, k, d)[98]) == OP_REG_DPU,
        regcmd_reg(task_regcmds(c, k, d)[98]) == DPU_LUT_LO_START,
        regcmd_value(task_regcmds(c, k, d)[98]) == 0x0,
        regcmd_op(task_regcmds(c, k, d)[99]) == OP_REG_DPU,
        regcmd_reg(task_regcmds(c, k, d)[99]) == DPU_LUT_LO_END,
        regcmd_value(task_regcmds(c, k, d)[99]) == 0x0,
        regcmd_op(task_regcmds(c, k, d)[100]) == OP_REG_DPU,
        regcmd_reg(task_regcmds(c, k, d)[100]) == DPU_LUT_LE_SLOPE_SCALE,
        regcmd_value(task_regcmds(c, k, d)[100]) == 0x0,
        regcmd_op(task_regcmds(c, k, d)[101]) == OP_REG_DPU,
        regcmd_reg(task_regcmds(c, k, d)[101]) == DPU_LUT_LE_SLOPE_SHIFT,
        regcmd_value(task_regcmds(c, k, d)[101]) == 0x0,
        regcmd_op(task_regcmds(c, k, d)[102]) == OP_REG_DPU,
        regcmd_reg(task_regcmds(c, k, d)[102]) == DPU_LUT_LO_SLOPE_SCALE,
        regcmd_value(task_regcmds(c, k, d)[102]) == 0x0,
        regcmd_op(task_regcmds(c, k, d)[103]) == OP_REG_DPU,
        regcmd_reg(task_regcmds(c, k, d)[103]) == DPU_LUT_LO_SLOPE_SHIFT,
        regcmd_value(task_regcmds(c, k, d)[103]) == 0x0,
{
    let t = task_regcmds(c, k, d);
    assert({
        &&& regcmd_op(t[80]) == OP_REG_DPU
        &&& regcmd_reg(t[80]) == DPU_OUT_CVT_SCALE
        &&& regcmd_value(t[80]) == (d.fp32tofp16_en % 2) * 0x10000 + d.out_cvt_scale
    }) by {
        lemma_regcmd_fields(
            OP_REG_DPU,
            ((d.fp32tofp16_en as u32 & 0x1) << 16u32) | (d.out_cvt_scale as u32 & 0xFFFF),
            DPU_OUT_CVT_SCALE,
        );
        lemma_out_cvt_scale_value(d.fp32tofp16_en as u32, d.out_cvt_scale as u32);
    }
    assert({
        &&& regcmd_op(t[81]) == OP_REG_DPU
        &&& regcmd_reg(t[81]) == DPU_OUT_CVT_SHIFT
        &&& regcmd_value(t[81]) == 0x0
    }) by {
        lemma_regcmd_fields(
            OP_REG_DPU,
            0x0,
            DPU_OUT_CVT_SHIFT,
        );
    }
    assert({
        &&& regcmd_op(t[82]) == OP_REG_DPU
        &&& regcmd_reg(t[82]) == DPU_EW_OP_VALUE_0
        &&& regcmd_value(t[82]) == 0x0
    }) by {
        lemma_regcmd_fields(
            OP_REG_DPU,
            0x0,
            DPU_EW_OP_VALUE_0,
        );
    }
    assert({
        &&& regcmd_op(t[83]) == OP_REG_DPU
        &&& regcmd_reg(t[83]) == DPU_EW_OP_VALUE_1
        &&& regcmd_value(t[83]) == 0x0
    }) by {
        lemma_regcmd_fields(
            OP_REG_DPU,
            0x0,
            DPU_EW_OP_VALUE_1,
        );
    }
    assert({
        &&& regcmd_op(t[84]) == OP_REG_DPU
        &&& regcmd_reg(t[84]) == DPU_EW_OP_VALUE_2
        &&& regcmd_value(t[84]) == 0x0
    }) by {
        lemma_regcmd_fields(
            OP_REG_DPU,
            0x0,
            DPU_EW_OP_VALUE_2,
        );
    }
    assert({
        &&& regcmd_op(t[85]) == OP_REG_DPU
        &&& regcmd_reg(t[85]) == DPU_EW_OP_VALUE_3
        &&& regcmd_value(t[85]) == 0x0
    }) by {
        lemma_regcmd_fields(
            OP_REG_DPU,
            0x0,
            DPU_EW_OP_VALUE_3,
        );
    }
    assert({
        &&& regcmd_op(t[86]) == OP_REG_DPU
        &&& regcmd_reg(t[86]) == DPU_EW_OP_VALUE_4
        &&& regcmd_value(t[86]) == 0x0
    }) by {
        lemma_regcmd_fields(
            OP_REG_DPU,
            0x0,
            DPU_EW_OP_VALUE_4,
        );
    }
    assert({
        &&& regcmd_op(t[87]) == OP_REG_DPU
        &&& regcmd_reg(t[87]) == DPU_EW_OP_VALUE_5
        &&& regcmd_value(t[87]) == 0x0
    }) by {
        lemma_regcmd_fields(
            OP_REG_DPU,
            0x0,
            DPU_EW_OP_VALUE_5,
        );
    }
    assert({
        &&& regcmd_op(t[88]) == OP_REG_DPU
        &&& regcmd_reg(t[88]) == DPU_EW_OP_VALUE_6
        &&& regcmd_value(t[88]) == 0x0
    }) by {
        lemma_regcmd_fields(
            OP_REG_DPU,
            0x0,
            DPU_EW_OP_VALUE_6,
        );
    }
    assert({
        &&& regcmd_op(t[89]) == OP_REG_DPU
        &&& regcmd_reg(t[89]) == DPU_EW_OP_VALUE_7
        &&& regcmd_value(t[89]) == 0x0
    }) by {
        lemma_regcmd_fields(
            OP_REG_DPU,
            0x0,
            DPU_EW_OP_VALUE_7,
        );
    }
    assert({
        &&& regcmd_op(t[90]) == OP_REG_DPU
        &&& regcmd_reg(t[90]) == DPU_SURFACE_ADD
        &&& regcmd_value(t[90]) == (d.surf_add % 0x1000_0000) * 0x10
    }) by {
        lemma_regcmd_fields(
            OP_REG_DPU,
            (d.surf_add & 0xFFFFFFF) << 4u32,
            DPU_SURFACE_ADD,
        );
        lemma_shl4_value(d.surf_add);
    }
    assert({
        &&& regcmd_op(t[91]) == OP_REG_DPU
        &&& regcmd_reg(t[91]) == DPU_40C4
        &&& regcmd_value(t[91]) == 0x0
    }) by {
        lemma_regcmd_fields(
            OP_REG_DPU,
            0x0,
            DPU_40C4,
        );
    }
    assert({
        &&& regcmd_op(t[92]) == OP_REG_DPU
        &&& regcmd_reg(t[92]) == DPU_LUT_ACCESS_CFG
        &&& regcmd_value(t[92]) == 0x0
    }) by {
        lemma_regcmd_fields(
            OP_REG_DPU,
            0x0,
            DPU_LUT_ACCESS_CFG,
        );
    }
    assert({
        &&& regcmd_op(t[93]) == OP_REG_DPU
        &&& regcmd_reg(t[93]) == DPU_LUT_ACCESS_DATA
        &&& regcmd_value(t[93]) == 0x0
    }) by {
        lemma_regcmd_fields(
            OP_REG_DPU,
            0x0,
            DPU_LUT_ACCESS_DATA,
        );
    }
    assert({
        &&& regcmd_op(t[94]) == OP_REG_DPU
        &&& regcmd_reg(t[94]) == DPU_LUT_CFG
        &&& regcmd_value(t[94]) == 0x0
    }) by {
        lemma_regcmd_fields(
            OP_REG_DPU,
            0x0,
            DPU_LUT_CFG,
        );
    }
    assert({
        &&& regcmd_op(t[95]) == OP_REG_DPU
        &&& regcmd_reg(t[95]) == DPU_LUT_INFO
        &&& regcmd_value(t[95]) == 0x0
    }) by {
        lemma_regcmd_fields(
            OP_REG_DPU,
            0x0,
            DPU_LUT_INFO,
        );
    }
    assert({
        &&& regcmd_op(t[96]) == OP_REG_DPU
        &&& regcmd_reg(t[96]) == DPU_LUT_LE_START
        &&& regcmd_value(t[96]) == 0x0
    }) by {
        lemma_regcmd_fields(
            OP_REG_DPU,
            0x0,
            DPU_LUT_LE_START,
        );
    }
    assert({
        &&& regcmd_op(t[97]) == OP_REG_DPU
        &&& regcmd_reg(t[97]) == DPU_LUT_LE_END
        &&& regcmd_value(t[97]) == 0x0
    }) by {
        lemma_regcmd_fields(
            OP_REG_DPU,
            0x0,
            DPU_LUT_LE_END,
        );
    }
    assert({
        &&& regcmd_op(t[98]) == OP_REG_DPU
        &&& regcmd_reg(t[98]) == DPU_LUT_LO_START
        &&& regcmd_value(t[98]) == 0x0
    }) by {
        lemma_regcmd_fields(
            OP_REG_DPU,
            0x0,
            DPU_LUT_LO_START,
        );
    }
    assert({
        &&& regcmd_op(t[99]) == OP_REG_DPU
        &&& regcmd_reg(t[99]) == DPU_LUT_LO_END
        &&& regcmd_value(t[99]) == 0x0
    }) by {
        lemma_regcmd_fields(
            OP_REG_DPU,
            0x0,
            DPU_LUT_LO_END,
        );
    }
    assert({
        &&& regcmd_op(t[100]) == OP_REG_DPU
        &&& regcmd_reg(t[100]) == DPU_LUT_LE_SLOPE_SCALE
        &&& regcmd_value(t[100]) == 0x0
    }) by {
        lemma_regcmd_fields(
            OP_REG_DPU,
            0x0,
            DPU_LUT_LE_SLOPE_SCALE,
        );
    }
    assert({
        &&& regcmd_op(t[101]) == OP_REG_DPU
        &&& regcmd_reg(t[101]) == DPU_LUT_LE_SLOPE_SHIFT
        &&& regcmd_value(t[101]) == 0x0
    }) by {
        lemma_regcmd_fields(
            OP_REG_DPU,
            0x0,
            DPU_LUT_LE_SLOPE_SHIFT,
        );
    }
    assert({
        &&& regcmd_op(t[102]) == OP_REG_DPU
        &&& regcmd_reg(t[102]) == DPU_LUT_LO_SLOPE_SCALE
        &&& regcmd_value(t[102]) == 0x0
    }) by {
        lemma_regcmd_fields(
            OP_REG_DPU,
            0x0,
            DPU_LUT_LO_SLOPE_SCALE,
        );
    }
    assert({
        &&& regcmd_op(t[103]) == OP_REG_DPU
        &&& regcmd_reg(t[103]) == DPU_LUT_LO_SLOPE_SHIFT
        &&& regcmd_value(t[103]) == 0x0
    }) by {
        lemma_regcmd_fields(
            OP_REG_DPU,
            0x0,
            DPU_LUT_LO_SLOPE_SHIFT,
        );
    }
}

/// Law of the ends of a task's register list: it opens by pointing the DPU's
/// status at `0xE` and closes with an empty command, the PC's register
/// count, a second empty command and the start of the PC, CNA and DPU.
pub proof fn lemma_task_pc_registers(c: NpuCnaDesc, k: NpuCoreDesc, d: NpuDpuDesc)
    ensures
        regcmd_op(task_regcmds(c, k, d)[0]) == OP_REG_DPU,
        regcmd_reg(task_regcmds(c, k, d)[0]) == DPU_S_POINTER,
        regcmd_value(task_regcmds(c, k, d)[0]) == 0xE,
        regcmd_op(task_regcmds(c, k, d)[104]) == OP_NONE,
        regcmd_reg(task_regcmds(c, k, d)[104]) == 0x0,
        regcmd_value(task_regcmds(c, k, d)[104]) == 0x0,
        regcmd_op(task_regcmds(c, k, d)[105]) == OP_REG_PC,
        regcmd_reg(task_regcmds(c, k, d)[105]) == PC_REGISTER_AMOUNTS,
        regcmd_value(task_regcmds(c, k, d)[105]) == 0x0,
        regcmd_op(task_regcmds(c, k, d)[106]) == OP_40,
        regcmd_reg(task_regcmds(c, k, d)[106]) == 0x0,
        regcmd_value(task_regcmds(c, k, d)[106]) == 0x0,
        regcmd_op(task_regcmds(c, k, d)[107]) == OP_ENABLE,
        regcmd_reg(task_regcmds(c, k, d)[107]) == PC_OPERATION_ENABLE,
        regcmd_value(task_regcmds(c, k, d)[107]) == PC_ENABLE_DPU | PC_ENABLE_CNA | PC_ENABLE,
{
    let t = task_regcmds(c, k, d);
    assert({
        &&& regcmd_op(t[0]) == OP_REG_DPU
        &&& regcmd_reg(t[0]) == DPU_S_POINTER
        &&& regcmd_value(t[0]) == 0xE
    }) by {
        lemma_regcmd_fields(
            OP_REG_DPU,
            0xE,
            DPU_S_POINTER,
        );
    }
    assert({
        &&& regcmd_op(t[104]) == OP_NONE
        &&& regcmd_reg(t[104]) == 0x0
        &&& regcmd_value(t[104]) == 0x0
    }) by {
        lemma_regcmd_fields(
            OP_NONE,
            0x0,
            0x0,
        );
    }
    assert({
        &&& regcmd_op(t[105]) == OP_REG_PC
        &&& regcmd_reg(t[105]) == PC_REGISTER_AMOUNTS
        &&& regcmd_value(t[105]) == 0x0
    }) by {
        lemma_regcmd_fields(
            OP_REG_PC,
            0x0,
            PC_REGISTER_AMOUNTS,
        );
    }
    assert({
        &&& regcmd_op(t[106]) == OP_40
        &&& regcmd_reg(t[106]) == 0x0
        &&& regcmd_value(t[106]) == 0x0
    }) by {
        lemma_regcmd_fields(
            OP_40,
            0x0,
            0x0,
        );
    }
    assert({
        &&& regcmd_op(t[107]) == OP_ENABLE
        &&& regcmd_reg(t[107]) == PC_OPERATION_ENABLE
        &&& regcmd_value(t[107]) == PC_ENABLE_DPU | PC_ENABLE_CNA | PC_ENABLE
    }) by {
        lemma_regcmd_fields(
            OP_ENABLE,
            PC_ENABLE_DPU | PC_ENABLE_CNA | PC_ENABLE,
            PC_OPERATION_ENABLE,
        );
    }
}

// ---------------------------------------------------------------------------
// Register layouts: a packed value is the sum of its fields, each cut to its
// width and shifted to its place.
// ---------------------------------------------------------------------------
proof fn lemma_low_masks(x: u32)
    by (bit_vector)
    ensures
        x & 0x1 == x % 0x2,
        x & 0x7FF == x % 0x800,
        x & 0x1FFF == x % 0x2000,
        x & 0xFFFF == x % 0x10000,
        x & 0x1FFFF == x % 0x20000,
        x & 0x3FFFF == x % 0x40000,
        x & 0x7FFFF == x % 0x80000,
        x & 0xFFFFFFF == x % 0x1000_0000,
{
}

proof fn lemma_conv_con1_value(a: u32, b: u32, c: u32)
    by (bit_vector)
    ensures
        ((a & 0x7) << 7u32) | ((b & 0x7) << 4u32) | (c & 0xf) == (a % 8) * 0x80 + (b % 8) * 0x10 + c
            % 0x10,
{
}

proof fn lemma_conv_con2_value(a: u32, b: u32)
    by (bit_vector)
    ensures
        ((a & 0xFF) << 16u32) | ((b & 0x3FF) << 4u32) == (a % 0x100) * 0x10000 + (b % 0x400) * 0x10,
{
}

proof fn lemma_conv_con3_value(a: u32, b: u32)
    by (bit_vector)
    ensures
        ((a & 0x7) << 3u32) | (b & 0x7) == (a % 8) * 8 + b % 8,
{
}

proof fn lemma_pack_4_4(a: u32, b: u32)
    by (bit_vector)
    ensures
        ((a & 0xF) << 4u32) | (b & 0xF) == (a % 0x10) * 0x10 + b % 0x10,
{
}

proof fn lemma_pack_11_11(a: u32, b: u32)
    by (bit_vector)
    ensures
        ((a & 0x7FF) << 16u32) | (b & 0x7FF) == (a % 0x800) * 0x10000 + b % 0x800,
{
}

proof fn lemma_pack_13_13(a: u32, b: u32)
    by (bit_vector)
    ensures
        ((a & 0x1FFF) << 16u32) | (b & 0x1FFF) == (a % 0x2000) * 0x10000 + b % 0x2000,
{
}

proof fn lemma_pack_16_16(a: u32, b: u32)
    by (bit_vector)
    ensures
        ((a & 0xFFFF) << 16u32) | (b & 0xFFFF) == (a % 0x10000) * 0x10000 + b % 0x10000,
        ((a & 0xFFFF) << 16u32) | 0x0 == (a % 0x10000) * 0x10000,
{
}

proof fn lemma_weight_size2_value(a: u32, b: u32, c: u32)
    by (bit_vector)
    ensures
        ((a & 0x1F) << 24u32) | ((b & 0x1F) << 16u32) | (c & 0x3FFF) == (a % 0x20) * 0x100_0000 + (b
            % 0x20) * 0x10000 + c % 0x4000,
{
}

proof fn lemma_cvt_con0_value(a: u32, b: u32, c: u32)
    by (bit_vector)
    ensures
        ((a & 0x1) << 3u32) | ((b & 0x1) << 1u32) | (c & 0x1) == (a % 2) * 8 + (b % 2) * 2 + c % 2,
{
}

proof fn lemma_dma_con0_value(a: u32, b: u32)
    by (bit_vector)
    ensures
        ((a & 0xF) << 16u32) | (b & 0xF) == (a % 0x10) * 0x10000 + b % 0x10,
{
}

proof fn lemma_misc_cfg_value(a: u32, b: u32)
    by (bit_vector)
    ensures
        ((a & 0x7) << 8u32) | (b & 0x1) == (a % 8) * 0x100 + b % 2,
{
}

proof fn lemma_feature_mode_value(a: u32, b: u32, c: u32, e: u32)
    by (bit_vector)
    ensures
        ((a & 0xF) << 5u32) | ((b & 0x3) << 3u32) | ((c & 0x3) << 1u32) | (e & 0x1) == (a % 0x10)
            * 0x20 + (b % 4) * 8 + (c % 4) * 2 + e % 2,
{
}

proof fn lemma_data_format_value(a: u32, b: u32, c: u32)
    by (bit_vector)
    ensures
        ((a & 0x7) << 29u32) | ((b & 0x7) << 26u32) | (c & 0x7) == (a % 8) * 0x2000_0000 + (b % 8)
            * 0x400_0000 + c % 8,
{
}

proof fn lemma_shl4_value(a: u32)
    by (bit_vector)
    ensures
        (a & 0xFFFFFFF) << 4u32 == (a % 0x1000_0000) * 0x10,
{
}

proof fn lemma_bypass_cfg_value(a: u32, b: u32, c: u32, e: u32)
    by (bit_vector)
    ensures
        ((a & 0x1) << 6u32) | ((b & 0x1) << 4u32) | ((c & 0x1) << 1u32) | (e & 0x1) == (a % 2) * 0x40
            + (b % 2) * 0x10 + (c % 2) * 2 + e % 2,
{
}

proof fn lemma_ow_cfg_value(a: u32, b: u32, c: u32, e: u32)
    by (bit_vector)
    ensures
        ((a & 0x7) << 8u32) | ((b & 0x7) << 5u32) | ((c & 0x7) << 2u32) | ((e & 0x1) << 1u32) == (a
            % 8) * 0x100 + (b % 8) * 0x20 + (c % 8) * 4 + (e % 2) * 2,
{
}

proof fn lemma_ew_cfg_value(a: u32, b: u32, c: u32, e: u32, f: u32)
    by (bit_vector)
    ensures
        ((a & 0x1) << 9u32) | ((b & 0x1) << 8u32) | ((c & 0x1) << 7u32) | ((e & 0x1) << 1u32) | (f
            & 0x1) == (a % 2) * 0x200 + (b % 2) * 0x100 + (c % 2) * 0x80 + (e % 2) * 2 + f % 2,
{
}

proof fn lemma_out_cvt_scale_value(a: u32, b: u32)
    by (bit_vector)
    ensures
        ((a & 0x1) << 16u32) | (b & 0xFFFF) == (a % 2) * 0x10000 + b % 0x10000,
{
}

} // verus!

