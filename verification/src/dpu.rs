//! Descriptor of the DPU (data processing unit): the values that a task
//! programs into its registers.
use vstd::prelude::*;

verus! {

/// Configuration of the DPU unit for one task.
#[derive(Clone, Copy, Debug, PartialEq, Eq, Structural)]
pub struct NpuDpuDesc {
    pub burst_len: u8,
    pub conv_mode: u8,
    pub output_mode: u8,
    pub flying_mode: u8,
    pub out_precision: u8,
    pub in_precision: u8,
    pub proc_precision: u8,
    pub dst_base_addr: u32,
    pub dst_surf_stride: u32,
    pub width: u16,
    pub height: u16,
    pub channel: u16,
    pub bs_bypass: u8,
    pub bs_alu_bypass: u8,
    pub bs_mul_bypass: u8,
    pub bs_relu_bypass: u8,
    pub od_bypass: u8,
    pub size_e_0: u8,
    pub size_e_1: u8,
    pub size_e_2: u8,
    pub channel_wdma: u16,
    pub height_wdma: u16,
    pub width_wdma: u16,
    pub bn_bypass: u8,
    pub bn_alu_bypass: u8,
    pub bn_mul_bypass: u8,
    pub bn_relu_bypass: u8,
    pub ew_bypass: u8,
    pub ew_op_bypass: u8,
    pub ew_lut_bypass: u8,
    pub ew_op_cvt_bypass: u8,
    pub ew_relu_bypass: u8,
    pub fp32tofp16_en: u8,
    pub out_cvt_scale: u16,
    pub surf_add: u32,
}

impl Default for NpuDpuDesc {
    /// A descriptor with every field zero.
    fn default() -> (d: Self)
        ensures
            d == (NpuDpuDesc {
                burst_len: 0,
                conv_mode: 0,
                output_mode: 0,
                flying_mode: 0,
                out_precision: 0,
                in_precision: 0,
                proc_precision: 0,
                dst_base_addr: 0,
                dst_surf_stride: 0,
                width: 0,
                height: 0,
                channel: 0,
                bs_bypass: 0,
                bs_alu_bypass: 0,
                bs_mul_bypass: 0,
                bs_relu_bypass: 0,
                od_bypass: 0,
                size_e_0: 0,
                size_e_1: 0,
                size_e_2: 0,
                channel_wdma: 0,
                height_wdma: 0,
                width_wdma: 0,
                bn_bypass: 0,
                bn_alu_bypass: 0,
                bn_mul_bypass: 0,
                bn_relu_bypass: 0,
                ew_bypass: 0,
                ew_op_bypass: 0,
                ew_lut_bypass: 0,
                ew_op_cvt_bypass: 0,
                ew_relu_bypass: 0,
                fp32tofp16_en: 0,
                out_cvt_scale: 0,
                surf_add: 0,
            }),
    {
        NpuDpuDesc {
            burst_len: 0,
            conv_mode: 0,
            output_mode: 0,
            flying_mode: 0,
            out_precision: 0,
            in_precision: 0,
            proc_precision: 0,
            dst_base_addr: 0,
            dst_surf_stride: 0,
            width: 0,
            height: 0,
            channel: 0,
            bs_bypass: 0,
            bs_alu_bypass: 0,
            bs_mul_bypass: 0,
            bs_relu_bypass: 0,
            od_bypass: 0,
            size_e_0: 0,
            size_e_1: 0,
            size_e_2: 0,
            channel_wdma: 0,
            height_wdma: 0,
            width_wdma: 0,
            bn_bypass: 0,
            bn_alu_bypass: 0,
            bn_mul_bypass: 0,
            bn_relu_bypass: 0,
            ew_bypass: 0,
            ew_op_bypass: 0,
            ew_lut_bypass: 0,
            ew_op_cvt_bypass: 0,
            ew_relu_bypass: 0,
            fp32tofp16_en: 0,
            out_cvt_scale: 0,
            surf_add: 0,
        }
    }
}

} // verus!
