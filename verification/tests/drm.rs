use rk3588_rs::drm::{drm_io, drm_iow, drm_iowr, next_version_query_step, HardwareVersion, VersionQueryStep};
use rk3588_rs::ioctl::{RknpuAction, RknpuActionStruct, RknpuMemCreate, RknpuSubmit, DRM_COMMAND_BASE};

#[test]
fn drm_request_numbers() {
    assert_eq!(drm_io(0x00), 0x6400);
    assert_eq!(drm_io(0x1e), 0x641e);
    assert_eq!(drm_iow::<u32>(0x01), 0x4004_6401);
    assert_eq!(drm_iowr::<u64>(0x40), 0xc008_6440);
}

#[test]
fn rknpu_request_numbers() {
    let action = drm_iowr::<RknpuActionStruct>(DRM_COMMAND_BASE as u64);
    assert_eq!(action, 0xc008_6440);
    let create = drm_iowr::<RknpuMemCreate>((DRM_COMMAND_BASE + 2) as u64);
    assert_eq!(create, 0xc028_6442);
    let submit = drm_iowr::<RknpuSubmit>((DRM_COMMAND_BASE + 1) as u64);
    assert_eq!((submit >> 16) & 0x3fff, std::mem::size_of::<RknpuSubmit>() as u64);
    assert_eq!(submit & 0xffff, 0x6441);
}

#[test]
fn version_query_steps() {
    assert_eq!(next_version_query_step((0, 0, 0), (0, 0, 0)), VersionQueryStep::Done);
    assert_eq!(
        next_version_query_step((0, 0, 0), (6, 8, 12)),
        VersionQueryStep::Grow { name: 6, date: 8, desc: 12 }
    );
    assert_eq!(next_version_query_step((6, 8, 12), (6, 8, 12)), VersionQueryStep::Done);
    assert_eq!(
        next_version_query_step((6, 8, 12), (6, 9, 12)),
        VersionQueryStep::Grow { name: 6, date: 9, desc: 12 }
    );
}

#[test]
fn hardware_version_parts() {
    assert_eq!(HardwareVersion { version: 0x0001_0203 }.parts(), (1, 2, 3));
    assert_eq!(HardwareVersion { version: 0xff12_3456 }.parts(), (0x12, 0x34, 0x56));
}

#[test]
fn action_codes() {
    assert_eq!(RknpuAction::GetHwVersion.code(), 0);
    assert_eq!(RknpuAction::ActReset.code(), 6);
    assert_eq!(RknpuAction::GetFreeSramSize.code(), 23);
}

#[test]
fn request_fields_read_back() {
    let r = drm_iowr::<[u8; 40]>(0x42);
    assert_eq!((r >> 30) & 3, 3);
    assert_eq!((r >> 16) & 0x3fff, 40);
    assert_eq!((r >> 8) & 0xff, 0x64);
    assert_eq!(r & 0xff, 0x42);
    let w = drm_iow::<[u8; 0x3fff]>(0xff);
    assert_eq!((w >> 30) & 3, 1);
    assert_eq!((w >> 16) & 0x3fff, 0x3fff);
    assert_eq!(w & 0xff, 0xff);
}

#[test]
fn action_codes_are_distinct() {
    let all = [
        RknpuAction::GetHwVersion,
        RknpuAction::GetDrvVersion,
        RknpuAction::GetFreq,
        RknpuAction::SetFreq,
        RknpuAction::GetVolt,
        RknpuAction::SetVolt,
        RknpuAction::ActReset,
        RknpuAction::GetBwPriority,
        RknpuAction::SetBwPriority,
        RknpuAction::GetBwExpect,
        RknpuAction::SetBwExpect,
        RknpuAction::GetBwTw,
        RknpuAction::SetBwTw,
        RknpuAction::ActClrTotalRwAmount,
        RknpuAction::GetDtWrAmount,
        RknpuAction::GetDtRdAmount,
        RknpuAction::GetWtRdAmount,
        RknpuAction::GetTotalRwAmount,
        RknpuAction::GetIommuEn,
        RknpuAction::SetProcNice,
        RknpuAction::PowerOn,
        RknpuAction::PowerOff,
        RknpuAction::GetTotalSramSize,
        RknpuAction::GetFreeSramSize,
    ];
    for (i, a) in all.iter().enumerate() {
        assert_eq!(a.code(), i as u32);
    }
}

#[test]
fn ioctl_outcomes() {
    assert_eq!(rk3588_rs::drm::ioctl_outcome(0, 0), rk3588_rs::drm::IoctlOutcome::Done(0));
    assert_eq!(rk3588_rs::drm::ioctl_outcome(3, 4), rk3588_rs::drm::IoctlOutcome::Done(3));
    assert_eq!(rk3588_rs::drm::ioctl_outcome(-1, 4), rk3588_rs::drm::IoctlOutcome::Retry);
    assert_eq!(rk3588_rs::drm::ioctl_outcome(-1, 11), rk3588_rs::drm::IoctlOutcome::Retry);
    assert_eq!(rk3588_rs::drm::ioctl_outcome(-1, 22), rk3588_rs::drm::IoctlOutcome::Failed(22));
    assert_eq!(rk3588_rs::drm::ioctl_outcome(-2, 22), rk3588_rs::drm::IoctlOutcome::Done(-2));
}

#[test]
fn driver_requests() {
    let c = rk3588_rs::ioctl::mem_create_request(4096, rk3588_rs::ioctl::RKNPU_MEM_KERNEL_MAPPING);
    assert_eq!((c.handle, c.flags, c.size, c.obj_addr, c.dma_addr, c.sram_size), (0, 8, 4096, 0, 0, 0));
    let m = rk3588_rs::ioctl::mem_map_request(7);
    assert_eq!((m.handle, m.reserved, m.offset), (7, 0, 0));
    let d = rk3588_rs::ioctl::mem_destroy_request(7, 0xabc);
    assert_eq!((d.handle, d.reserved, d.obj_addr), (7, 0, 0xabc));
    let a = rk3588_rs::ioctl::reset_action();
    assert_eq!((a.flags, a.value), (6, 0));
}
