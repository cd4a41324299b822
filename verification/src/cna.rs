//! Descriptors of the CNA (convolution neural accelerator) and CORE (MAC
//! array) units: the values that a task programs into their registers.
use vstd::prelude::*;

verus! {

/// Configuration of the CNA unit for one task.
#[derive(Clone, Copy, Debug, PartialEq, Eq, Structural)]
pub struct NpuCnaDesc {
    pub conv_mode: u8,
    pub in_precision: u8,
    pub proc_precision: u8,
    pub kernel_groups: u8,
    pub feature_grains: u16,
    pub conv_y_stride: u8,
    pub conv_x_stride: u8,
    pub datain_width: u16,
    pub datain_height: u16,
    pub datain_channel: u16,
    pub dataout_width: u16,
    pub dataout_height: u16,
    pub dataout_atomics: u32,
    pub weight_bytes: u32,
    pub weight_bytes_per_kernel: u32,
    pub weight_width: u8,
    pub weight_height: u8,
    pub weight_kernels: u16,
    pub weight_bank: u8,
    pub data_bank: u8,
    pub data_entries: u16,
    pub data_sign: u8,
    pub cvt_type: u8,
    pub cvt_bypass: u8,
    pub cvt_scale0: u16,
    pub cvt_scale1: u16,
    pub cvt_scale2: u16,
    pub cvt_scale3: u16,
    pub fc_skip_en: u8,
    pub data_offset: u16,
    pub pad_left: u8,
    pub pad_top: u8,
    pub feature_base_addr: u32,
    pub weight_offset: u16,
    pub weight_burst_len: u8,
    pub data_burst_len: u8,
    pub line_stride: u32,
    pub surf_stride: i32,
    pub dma_width: u16,
    pub dma_height: u16,
    pub dma_channel: u16,
    pub decompress_addr0: u32,
}

impl Default for NpuCnaDesc {
    /// A descriptor with every field zero.
    fn default() -> (d: Self)
        ensures
            d == (NpuCnaDesc {
                conv_mode: 0,
                in_precision: 0,
                proc_precision: 0,
                kernel_groups: 0,
                feature_grains: 0,
                conv_y_stride: 0,
                conv_x_stride: 0,
                datain_width: 0,
                datain_height: 0,
                datain_channel: 0,
                dataout_width: 0,
                dataout_height: 0,
                dataout_atomics: 0,
                weight_bytes: 0,
                weight_bytes_per_kernel: 0,
                weight_width: 0,
                weight_height: 0,
                weight_kernels: 0,
                weight_bank: 0,
                data_bank: 0,
                data_entries: 0,
                data_sign: 0,
                cvt_type: 0,
                cvt_bypass: 0,
                cvt_scale0: 0,
                cvt_scale1: 0,
                cvt_scale2: 0,
                cvt_scale3: 0,
                fc_skip_en: 0,
                data_offset: 0,
                pad_left: 0,
                pad_top: 0,
                feature_base_addr: 0,
                weight_offset: 0,
                weight_burst_len: 0,
                data_burst_len: 0,
                line_stride: 0,
                surf_stride: 0,
                dma_width: 0,
                dma_height: 0,
                dma_channel: 0,
                decompress_addr0: 0,
            }),
    {
        NpuCnaDesc {
            conv_mode: 0,
            in_precision: 0,
            proc_precision: 0,
            kernel_groups: 0,
            feature_grains: 0,
            conv_y_stride: 0,
            conv_x_stride: 0,
            datain_width: 0,
            datain_height: 0,
            datain_channel: 0,
            dataout_width: 0,
            dataout_height: 0,
            dataout_atomics: 0,
            weight_bytes: 0,
            weight_bytes_per_kernel: 0,
            weight_width: 0,
            weight_height: 0,
            weight_kernels: 0,
            weight_bank: 0,
            data_bank: 0,
            data_entries: 0,
            data_sign: 0,
            cvt_type: 0,
            cvt_bypass: 0,
            cvt_scale0: 0,
            cvt_scale1: 0,
            cvt_scale2: 0,
            cvt_scale3: 0,
            fc_skip_en: 0,
            data_offset: 0,
            pad_left: 0,
            pad_top: 0,
            feature_base_addr: 0,
            weight_offset: 0,
            weight_burst_len: 0,
            data_burst_len: 0,
            line_stride: 0,
            surf_stride: 0,
            dma_width: 0,
            dma_height: 0,
            dma_channel: 0,
            decompress_addr0: 0,
        }
    }
}

/// Configuration of the CORE unit for one task.
#[derive(Clone, Copy, Debug, PartialEq, Eq, Structural)]
pub struct NpuCoreDesc {
    pub proc_precision: u8,
    pub qd_en: u8,
    pub dataout_height: u16,
    pub dataout_width: u16,
    pub dataout_channel: u16,
}

impl Default for NpuCoreDesc {
    /// A descriptor with every field zero.
    fn default() -> (d: Self)
        ensures
            d == (NpuCoreDesc {
                proc_precision: 0,
                qd_en: 0,
                dataout_height: 0,
                dataout_width: 0,
                dataout_channel: 0,
            }),
    {
        NpuCoreDesc {
            proc_precision: 0,
            qd_en: 0,
            dataout_height: 0,
            dataout_width: 0,
            dataout_channel: 0,
        }
    }
}

} // verus!
