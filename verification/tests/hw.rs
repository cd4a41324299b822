use rk3588_rs::hw::{npuop, ConvMode, Precision, OP_REG_CNA, CNA_CONV_CON1};

#[test]
fn npuop_encodes_target_value_register() {
    assert_eq!(npuop(0x201, 0x1234_5678, 0x100c), 0x0201_1234_5678_100c);
    assert_eq!(npuop(OP_REG_CNA, 0, CNA_CONV_CON1), 0x0201_0000_0000_100c);
    // target and register are taken to 16 bits
    assert_eq!(npuop(0x1_0201, 1, 0x2_100c), 0x0201_0000_0001_100c);
}

#[test]
fn npuop_fields_read_back() {
    let c = npuop(0x1001, 0xffff_ffff, 0x4004);
    assert_eq!(c >> 48, 0x1001);
    assert_eq!((c >> 16) & 0xffff_ffff, 0xffff_ffff);
    assert_eq!(c & 0xffff, 0x4004);
}

#[test]
fn precision_and_mode_codes() {
    assert_eq!(Precision::Int8.code(), 0);
    assert_eq!(Precision::Int16.code(), 1);
    assert_eq!(Precision::Float16.code(), 2);
    assert_eq!(Precision::Bfloat16.code(), 3);
    assert_eq!(Precision::Int32.code(), 4);
    assert_eq!(Precision::Float32.code(), 5);
    assert_eq!(ConvMode::DirectConvolution.code(), 0);
    assert_eq!(ConvMode::DepthwiseConvolution.code(), 3);
}

#[test]
fn different_commands_encode_differently() {
    let a = npuop(0x201, 5, 0x100c);
    assert_ne!(a, npuop(0x201, 5, 0x1010));
    assert_ne!(a, npuop(0x801, 5, 0x100c));
    assert_ne!(a, npuop(0x201, 6, 0x100c));
    // only the low 16 bits of target and register count
    assert_eq!(a, npuop(0xf_0201, 5, 0xa_100c));
}
