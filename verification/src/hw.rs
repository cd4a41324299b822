//! Hardware definitions of the RK3588 NPU: register offsets of the PC, CNA,
//! CORE and DPU units, the register-command targets, the convolution buffer
//! geometry, and the encoding of one register command.
use vstd::prelude::*;

verus! {

// ---------------------------------------------------------------------------
// Register-command targets (the upper 16 bits of a register command)
// ---------------------------------------------------------------------------
/// Empty command.
pub const OP_NONE: u32 = 0x0000;

/// Command that closes the register list of a task.
pub const OP_40: u32 = 0x0041;

/// Command that starts the units selected in its value.
pub const OP_ENABLE: u32 = 0x0081;

/// Write to a PC (program counter / task fetch) register.
pub const OP_REG_PC: u32 = 0x0081;

/// Write to a CNA (convolution neural accelerator) register.
pub const OP_REG_CNA: u32 = 0x0201;

/// Write to a CORE (MAC array) register.
pub const OP_REG_CORE: u32 = 0x0801;

/// Write to a DPU (data processing unit) register.
pub const OP_REG_DPU: u32 = 0x1001;

// ---------------------------------------------------------------------------
// PC unit
// ---------------------------------------------------------------------------
pub const PC_OPERATION_ENABLE: u32 = 0x0008;

pub const PC_BASE_ADDRESS: u32 = 0x0010;

pub const PC_REGISTER_AMOUNTS: u32 = 0x0014;

/// Bits of the PC operation-enable value.
pub const PC_ENABLE: u32 = 0x01;

pub const PC_ENABLE_CNA: u32 = 0x04;

pub const PC_ENABLE_DPU: u32 = 0x08;

// ---------------------------------------------------------------------------
// CNA unit
// ---------------------------------------------------------------------------
pub const CNA_S_STATUS: u32 = 0x1000;

pub const CNA_S_POINTER: u32 = 0x1004;

pub const CNA_OPERATION_ENABLE: u32 = 0x1008;

pub const CNA_CONV_CON1: u32 = 0x100c;

pub const CNA_CONV_CON2: u32 = 0x1010;

pub const CNA_CONV_CON3: u32 = 0x1014;

pub const CNA_DATA_SIZE0: u32 = 0x1020;

pub const CNA_DATA_SIZE1: u32 = 0x1024;

pub const CNA_DATA_SIZE2: u32 = 0x1028;

pub const CNA_DATA_SIZE3: u32 = 0x102c;

pub const CNA_WEIGHT_SIZE0: u32 = 0x1030;

pub const CNA_WEIGHT_SIZE1: u32 = 0x1034;

pub const CNA_WEIGHT_SIZE2: u32 = 0x1038;

pub const CNA_CBUF_CON0: u32 = 0x1040;

pub const CNA_CBUF_CON1: u32 = 0x1044;

pub const CNA_CVT_CON0: u32 = 0x104c;

pub const CNA_CVT_CON1: u32 = 0x1050;

pub const CNA_CVT_CON2: u32 = 0x1054;

pub const CNA_CVT_CON3: u32 = 0x1058;

pub const CNA_CVT_CON4: u32 = 0x105c;

pub const CNA_FC_CON0: u32 = 0x1060;

pub const CNA_FC_CON1: u32 = 0x1064;

pub const CNA_PAD_CON0: u32 = 0x1068;

pub const CNA_FEATURE_DATA_ADDR: u32 = 0x1070;

pub const CNA_FC_CON2: u32 = 0x1074;

pub const CNA_DMA_CON0: u32 = 0x1078;

pub const CNA_DMA_CON1: u32 = 0x107c;

pub const CNA_DMA_CON2: u32 = 0x1080;

pub const CNA_FC_DATA_SIZE0: u32 = 0x1084;

pub const CNA_FC_DATA_SIZE1: u32 = 0x1088;

pub const CNA_CLK_GATE: u32 = 0x1090;

pub const CNA_DCOMP_CTRL: u32 = 0x1100;

pub const CNA_DCOMP_REGNUM: u32 = 0x1104;

pub const CNA_DCOMP_ADDR0: u32 = 0x1110;

pub const CNA_DCOMP_AMOUNT: u32 = 0x1140;

pub const CNA_DCOMP_AMOUNT1: u32 = 0x1144;

pub const CNA_DCOMP_AMOUNT2: u32 = 0x1148;

pub const CNA_DCOMP_AMOUNT3: u32 = 0x114c;

pub const CNA_DCOMP_AMOUNT4: u32 = 0x1150;

pub const CNA_DCOMP_AMOUNT5: u32 = 0x1154;

pub const CNA_DCOMP_AMOUNT6: u32 = 0x1158;

pub const CNA_DCOMP_AMOUNT7: u32 = 0x115c;

pub const CNA_DCOMP_AMOUNT8: u32 = 0x1160;

pub const CNA_DCOMP_AMOUNT9: u32 = 0x1164;

pub const CNA_DCOMP_AMOUNT10: u32 = 0x1168;

pub const CNA_DCOMP_AMOUNT11: u32 = 0x116c;

pub const CNA_DCOMP_AMOUNT12: u32 = 0x1170;

pub const CNA_DCOMP_AMOUNT13: u32 = 0x1174;

pub const CNA_DCOMP_AMOUNT14: u32 = 0x1178;

pub const CNA_DCOMP_AMOUNT15: u32 = 0x117c;

pub const CNA_CVT_CON5: u32 = 0x1180;

pub const CNA_PAD_CON1: u32 = 0x1184;

// ---------------------------------------------------------------------------
// CORE unit
// ---------------------------------------------------------------------------
pub const CORE_S_STATUS: u32 = 0x3000;

pub const CORE_S_POINTER: u32 = 0x3004;

pub const CORE_OPERATION_ENABLE: u32 = 0x3008;

pub const CORE_MAC_GATING: u32 = 0x300c;

pub const CORE_MISC_CFG: u32 = 0x3010;

pub const CORE_DATAOUT_SIZE_0: u32 = 0x3014;

pub const CORE_DATAOUT_SIZE_1: u32 = 0x3018;

pub const CORE_CLIP_TRUNCATE: u32 = 0x301c;

pub const CORE_3030: u32 = 0x3030;

// ---------------------------------------------------------------------------
// DPU unit
// ---------------------------------------------------------------------------
pub const DPU_S_STATUS: u32 = 0x4000;

pub const DPU_S_POINTER: u32 = 0x4004;

pub const DPU_OPERATION_ENABLE: u32 = 0x4008;

pub const DPU_FEATURE_MODE_CFG: u32 = 0x400c;

pub const DPU_DATA_FORMAT: u32 = 0x4010;

pub const DPU_OFFSET_PEND: u32 = 0x4014;

pub const DPU_DST_BASE_ADD: u32 = 0x4020;

pub const DPU_DST_SURF_STRIDE: u32 = 0x4024;

pub const DPU_DATA_CUBE_WIDTH: u32 = 0x4030;

pub const DPU_DATA_CUBE_HEIGHT: u32 = 0x4034;

pub const DPU_DATA_CUBE_NOTCH_ADDR: u32 = 0x4038;

pub const DPU_DATA_CUBE_CHANNEL: u32 = 0x403c;

pub const DPU_BS_CFG: u32 = 0x4040;

pub const DPU_BS_ALU_CFG: u32 = 0x4044;

pub const DPU_BS_MUL_CFG: u32 = 0x4048;

pub const DPU_BS_RELUX_CMP_VALUE: u32 = 0x404c;

pub const DPU_BS_OW_CFG: u32 = 0x4050;

pub const DPU_BS_OW_OP: u32 = 0x4054;

pub const DPU_WDMA_SIZE_0: u32 = 0x4058;

pub const DPU_WDMA_SIZE_1: u32 = 0x405c;

pub const DPU_BN_CFG: u32 = 0x4060;

pub const DPU_BN_ALU_CFG: u32 = 0x4064;

pub const DPU_BN_MUL_CFG: u32 = 0x4068;

pub const DPU_BN_RELUX_CMP_VALUE: u32 = 0x406c;

pub const DPU_EW_CFG: u32 = 0x4070;

pub const DPU_EW_CVT_OFFSET_VALUE: u32 = 0x4074;

pub const DPU_EW_CVT_SCALE_VALUE: u32 = 0x4078;

pub const DPU_EW_RELUX_CMP_VALUE: u32 = 0x407c;

pub const DPU_OUT_CVT_OFFSET: u32 = 0x4080;

pub const DPU_OUT_CVT_SCALE: u32 = 0x4084;

pub const DPU_OUT_CVT_SHIFT: u32 = 0x4088;

pub const DPU_EW_OP_VALUE_0: u32 = 0x4090;

pub const DPU_EW_OP_VALUE_1: u32 = 0x4094;

pub const DPU_EW_OP_VALUE_2: u32 = 0x4098;

pub const DPU_EW_OP_VALUE_3: u32 = 0x409c;

pub const DPU_EW_OP_VALUE_4: u32 = 0x40a0;

pub const DPU_EW_OP_VALUE_5: u32 = 0x40a4;

pub const DPU_EW_OP_VALUE_6: u32 = 0x40a8;

pub const DPU_EW_OP_VALUE_7: u32 = 0x40ac;

pub const DPU_SURFACE_ADD: u32 = 0x40c0;

pub const DPU_40C4: u32 = 0x40c4;

pub const DPU_LUT_ACCESS_CFG: u32 = 0x4100;

pub const DPU_LUT_ACCESS_DATA: u32 = 0x4104;

pub const DPU_LUT_CFG: u32 = 0x4108;

pub const DPU_LUT_INFO: u32 = 0x410c;

pub const DPU_LUT_LE_START: u32 = 0x4110;

pub const DPU_LUT_LE_END: u32 = 0x4114;

pub const DPU_LUT_LO_START: u32 = 0x4118;

pub const DPU_LUT_LO_END: u32 = 0x411c;

pub const DPU_LUT_LE_SLOPE_SCALE: u32 = 0x4120;

pub const DPU_LUT_LE_SLOPE_SHIFT: u32 = 0x4124;

pub const DPU_LUT_LO_SLOPE_SCALE: u32 = 0x4128;

pub const DPU_LUT_LO_SLOPE_SHIFT: u32 = 0x412c;

// ---------------------------------------------------------------------------
// Convolution buffer (CBUF)
// ---------------------------------------------------------------------------
/// Size in bytes of one CBUF bank.
pub const NPU_CBUF_BANK_SIZE: usize = 32768;

/// Number of CBUF banks shared by feature data and weights.
pub const NPU_CBUF_BANKS: usize = 12;

// ---------------------------------------------------------------------------
// Data precisions and convolution modes
// ---------------------------------------------------------------------------
/// Precision of the data a unit reads, processes or writes.
#[derive(Clone, Copy, Debug, PartialEq, Eq, Structural)]
pub enum Precision {
    Int8,
    Int16,
    Float16,
    Bfloat16,
    Int32,
    Float32,
}

/// The value that a precision takes in a register field.
pub open spec fn precision_code(p: Precision) -> u8 {
    match p {
        Precision::Int8 => 0,
        Precision::Int16 => 1,
        Precision::Float16 => 2,
        Precision::Bfloat16 => 3,
        Precision::Int32 => 4,
        Precision::Float32 => 5,
    }
}

impl Precision {
    /// The value that this precision takes in a register field.
    pub fn code(self) -> (c: u8)
        ensures
            c == precision_code(self),
    {
        match self {
            Precision::Int8 => 0,
            Precision::Int16 => 1,
            Precision::Float16 => 2,
            Precision::Bfloat16 => 3,
            Precision::Int32 => 4,
            Precision::Float32 => 5,
        }
    }
}

/// Convolution mode of the CNA and DPU.
#[derive(Clone, Copy, Debug, PartialEq, Eq, Structural)]
pub enum ConvMode {
    DirectConvolution,
    DepthwiseConvolution,
}

/// The value that a convolution mode takes in a register field.
pub open spec fn conv_mode_code(m: ConvMode) -> u8 {
    match m {
        ConvMode::DirectConvolution => 0,
        ConvMode::DepthwiseConvolution => 3,
    }
}

impl ConvMode {
    /// The value that this convolution mode takes in a register field.
    pub fn code(self) -> (c: u8)
        ensures
            c == conv_mode_code(self),
    {
        match self {
            ConvMode::DirectConvolution => 0,
            ConvMode::DepthwiseConvolution => 3,
        }
    }
}

// ---------------------------------------------------------------------------
// Register commands
// ---------------------------------------------------------------------------
/// A register command: the target in bits 48..64, the 32-bit value in bits
/// 16..48 and the register offset in bits 0..16.
pub open spec fn regcmd(op: u32, value: u32, reg: u32) -> u64 {
    (((op & 0xffff) as u64) << 48u64) | ((value as u64) << 16u64) | ((reg & 0xffff) as u64)
}

/// The target of a register command.
pub open spec fn regcmd_op(cmd: u64) -> u64 {
    cmd >> 48u64
}

/// The value of a register command.
pub open spec fn regcmd_value(cmd: u64) -> u64 {
    (cmd >> 16u64) & 0xffff_ffff
}

/// The register offset of a register command.
pub open spec fn regcmd_reg(cmd: u64) -> u64 {
    cmd & 0xffff
}

/// Encode one register command.
pub fn npuop(op: u32, value: u32, reg: u32) -> (cmd: u64)
    ensures
        cmd == regcmd(op, value, reg),
{
    (((op & 0xffff) as u64) << 48u64) | ((value as u64) << 16u64) | ((reg & 0xffff) as u64)
}

/// A register command gives back its target (its low 16 bits), its whole
/// value and its register offset (its low 16 bits): the three fields do not
/// overlap.
pub proof fn lemma_regcmd_fields(op: u32, value: u32, reg: u32)
    ensures
        regcmd_op(regcmd(op, value, reg)) == (op & 0xffff) as u64,
        regcmd_value(regcmd(op, value, reg)) == value as u64,
        regcmd_reg(regcmd(op, value, reg)) == (reg & 0xffff) as u64,
        op <= 0xffff ==> regcmd_op(regcmd(op, value, reg)) == op as u64,
        reg <= 0xffff ==> regcmd_reg(regcmd(op, value, reg)) == reg as u64,
{
    assert(op <= 0xffff ==> op & 0xffff == op) by (bit_vector);
    assert(reg <= 0xffff ==> reg & 0xffff == reg) by (bit_vector);
    assert(((((op & 0xffff) as u64) << 48u64) | ((value as u64) << 16u64) | ((reg
        & 0xffff) as u64)) >> 48u64 == (op & 0xffff) as u64) by (bit_vector);
    assert((((((op & 0xffff) as u64) << 48u64) | ((value as u64) << 16u64) | ((reg
        & 0xffff) as u64)) >> 16u64) & 0xffff_ffff == value as u64) by (bit_vector);
    assert(((((op & 0xffff) as u64) << 48u64) | ((value as u64) << 16u64) | ((reg
        & 0xffff) as u64)) & 0xffff == (reg & 0xffff) as u64) by (bit_vector);
}

/// Two register commands are equal exactly when their targets, values and
/// register offsets (targets and offsets taken to 16 bits) are.
pub proof fn lemma_regcmd_injective(op1: u32, value1: u32, reg1: u32, op2: u32, value2: u32, reg2: u32)
    ensures
        regcmd(op1, value1, reg1) == regcmd(op2, value2, reg2) <==> (op1 & 0xffff == op2 & 0xffff
            && value1 == value2 && reg1 & 0xffff == reg2 & 0xffff),
{
    lemma_regcmd_fields(op1, value1, reg1);
    lemma_regcmd_fields(op2, value2, reg2);
    if op1 & 0xffff == op2 & 0xffff && value1 == value2 && reg1 & 0xffff == reg2 & 0xffff {
        assert(regcmd(op1, value1, reg1) == regcmd(op2, value2, reg2));
    }
}

/// Law of the register-field codes: the precisions are numbered as the
/// hardware's fields take them, INT8 0, INT16 1, FP16 2, BF16 3, INT32 4 and
/// FP32 5, and the convolution modes direct 0 and depthwise 3.
pub proof fn lemma_field_codes()
    ensures
        precision_code(Precision::Int8) == 0,
        precision_code(Precision::Int16) == 1,
        precision_code(Precision::Float16) == 2,
        precision_code(Precision::Bfloat16) == 3,
        precision_code(Precision::Int32) == 4,
        precision_code(Precision::Float32) == 5,
        conv_mode_code(ConvMode::DirectConvolution) == 0,
        conv_mode_code(ConvMode::DepthwiseConvolution) == 3,
{
}

/// Law of the command word: a register command is the number whose base
/// 2^16 digits are, from the top, the target (cut to 16 bits), the two
/// halves of the value and the register offset (cut to 16 bits).
pub proof fn lemma_regcmd_value(op: u32, value: u32, reg: u32)
    ensures
        regcmd(op, value, reg) == (op % 0x10000) * 0x1_0000_0000_0000 + value * 0x10000 + reg
            % 0x10000,
{
    let o = op as u64;
    let v = value as u64;
    let r = reg as u64;
    assert((((o & 0xffff) << 48u64) | (v << 16u64) | (r & 0xffff)) == (o % 0x10000)
        * 0x1_0000_0000_0000 + v * 0x10000 + r % 0x10000) by (bit_vector)
        requires
            o < 0x1_0000_0000,
            v < 0x1_0000_0000,
            r < 0x1_0000_0000,
    ;
    assert(((op & 0xffff) as u64) == (o & 0xffff) && ((reg & 0xffff) as u64) == (r & 0xffff))
        by (bit_vector)
        requires
            o == op as u64,
            r == reg as u64,
    ;
}

} // verus!
