//! DRM ioctl request numbers, the retry decision of an ioctl call, the
//! growth of the buffers of a DRM version query, and the NPU hardware
//! version.
use vstd::prelude::*;

verus! {

/// The ioctl type of DRM requests (`b'd'`).
pub const DRM_IOCTL_BASE: u64 = 0x64;

/// Direction bits of an ioctl request.
pub const IOC_NONE: u64 = 0;

pub const IOC_WRITE: u64 = 1;

pub const IOC_READ: u64 = 2;

/// An ioctl request number in the generic Linux encoding: the direction in
/// bits 30..32, the argument size in bits 16..30, the type in bits 8..16 and
/// the number in bits 0..8.
pub open spec fn ioc(dir: u64, ty: u64, nr: u64, size: u64) -> u64 {
    (dir << 30u64) | (ty << 8u64) | (nr << 0u64) | (size << 16u64)
}

/// `uapi::_IO`: the request number of an ioctl without argument.
///
/// Trusted: on the architectures with the generic Linux encoding (x86,
/// x86_64, arm, aarch64, riscv64, s390x, loongarch64) uapi computes
/// `_IOC(_IOC_NONE, ty, nr, 0)` with `_IOC_NONE = 0`, direction shift 30,
/// size shift 16, type shift 8.
pub assume_specification[ uapi::_IO ](ty: u64, nr: u64) -> (r: u64)
    ensures
        r == ioc(IOC_NONE, ty, nr, 0),
;

/// `uapi::_IOW`: the request number of an ioctl that passes a `T` to the
/// kernel.
///
/// Trusted: on the architectures with the generic Linux encoding uapi
/// computes `_IOC(_IOC_WRITE, ty, nr, size_of::<T>())` with
/// `_IOC_WRITE = 1`.
pub assume_specification<T>[ uapi::_IOW::<T> ](ty: u64, nr: u64) -> (r: u64)
    ensures
        r == ioc(IOC_WRITE, ty, nr, vstd::layout::size_of::<T>() as u64),
;

/// `uapi::_IOWR`: the request number of an ioctl that passes a `T` to the
/// kernel and back.
///
/// Trusted: on the architectures with the generic Linux encoding uapi
/// computes `_IOC(_IOC_READ | _IOC_WRITE, ty, nr, size_of::<T>())` with
/// `_IOC_READ = 2`, `_IOC_WRITE = 1`.
pub assume_specification<T>[ uapi::_IOWR::<T> ](ty: u64, nr: u64) -> (r: u64)
    ensures
        r == ioc(IOC_READ | IOC_WRITE, ty, nr, vstd::layout::size_of::<T>() as u64),
;

/// The request number of DRM ioctl `nr` without argument.
pub fn drm_io(nr: u64) -> (r: u64)
    ensures
        r == ioc(IOC_NONE, DRM_IOCTL_BASE, nr, 0),
{
    uapi::_IO(DRM_IOCTL_BASE, nr)
}

/// The request number of DRM ioctl `nr` that passes a `T` to the kernel.
pub fn drm_iow<T>(nr: u64) -> (r: u64)
    ensures
        r == ioc(IOC_WRITE, DRM_IOCTL_BASE, nr, vstd::layout::size_of::<T>() as u64),
{
    uapi::_IOW::<T>(DRM_IOCTL_BASE, nr)
}

/// The request number of DRM ioctl `nr` that passes a `T` to the kernel and
/// back.
pub fn drm_iowr<T>(nr: u64) -> (r: u64)
    ensures
        r == ioc(IOC_READ | IOC_WRITE, DRM_IOCTL_BASE, nr, vstd::layout::size_of::<T>() as u64),
{
    uapi::_IOWR::<T>(DRM_IOCTL_BASE, nr)
}

/// Law of the request encoding: direction, argument size, type and number
/// are read back from a request number whenever each fits its field.
pub proof fn lemma_ioc_fields(dir: u64, ty: u64, nr: u64, size: u64)
    requires
        dir < 4,
        ty < 0x100,
        nr < 0x100,
        size < 0x4000,
    ensures
        (ioc(dir, ty, nr, size) >> 30u64) & 3 == dir,
        (ioc(dir, ty, nr, size) >> 16u64) & 0x3fff == size,
        (ioc(dir, ty, nr, size) >> 8u64) & 0xff == ty,
        ioc(dir, ty, nr, size) & 0xff == nr,
{
    assert({
        let r = (dir << 30u64) | (ty << 8u64) | (nr << 0u64) | (size << 16u64);
        &&& (r >> 30u64) & 3 == dir
        &&& (r >> 16u64) & 0x3fff == size
        &&& (r >> 8u64) & 0xff == ty
        &&& r & 0xff == nr
    }) by (bit_vector)
        requires
            dir < 4,
            ty < 0x100,
            nr < 0x100,
            size < 0x4000,
    ;
}

/// `errno` of an interrupted system call (Linux).
pub const EINTR: i32 = 4;

/// `errno` of a call to retry (Linux `EAGAIN`).
pub const EAGAIN: i32 = 11;

/// What to do after one `ioctl` call.
#[derive(Debug, Clone, Copy, PartialEq, Eq, Structural)]
pub enum IoctlOutcome {
    /// The call succeeded with this return value.
    Done(i32),
    /// The call was interrupted or asked to be retried: call again.
    Retry,
    /// The call failed with this `errno`.
    Failed(i32),
}

/// The outcome of an `ioctl` call that returned `ret` with `errno` set to
/// `errno` (see `ioctl_outcome`).
pub open spec fn ioctl_outcome_spec(ret: i32, errno: i32) -> IoctlOutcome {
    if ret != -1 {
        IoctlOutcome::Done(ret)
    } else if errno == EINTR || errno == EAGAIN {
        IoctlOutcome::Retry
    } else {
        IoctlOutcome::Failed(errno)
    }
}

/// Law of the retry loop around `ioctl`: a call that did not return `-1`
/// succeeded with what it returned, whatever `errno` holds; a call that
/// returned `-1` is made again exactly when it was interrupted (`errno` 4)
/// or asked to be retried (`errno` 11), and otherwise fails with its
/// `errno`.
pub proof fn lemma_ioctl_outcome(ret: i32, errno: i32)
    ensures
        ret != -1 ==> ioctl_outcome_spec(ret, errno) == IoctlOutcome::Done(ret),
        ret == -1 ==> (ioctl_outcome_spec(ret, errno) == IoctlOutcome::Retry <==> (errno == 4
            || errno == 11)),
        ret == -1 && errno != 4 && errno != 11 ==> ioctl_outcome_spec(ret, errno)
            == IoctlOutcome::Failed(errno),
{
}

/// The outcome of an `ioctl` call that returned `ret` with `errno` set to
/// `errno`: success unless it returned `-1`; otherwise a retry on `EINTR` or
/// `EAGAIN`, and a failure with `errno` on anything else.
pub fn ioctl_outcome(ret: i32, errno: i32) -> (o: IoctlOutcome)
    ensures
        o == ioctl_outcome_spec(ret, errno),
{
    if ret != -1 {
        IoctlOutcome::Done(ret)
    } else if errno == EINTR || errno == EAGAIN {
        IoctlOutcome::Retry
    } else {
        IoctlOutcome::Failed(errno)
    }
}

/// What a DRM version query does next with its name, date and description
/// buffers.
#[derive(Debug, Clone, Copy, PartialEq, Eq, Structural)]
pub enum VersionQueryStep {
    /// Every string fitted its buffer: keep the reported lengths.
    Done,
    /// Grow the buffers to hold the reported lengths and query again.
    Grow { name: usize, date: usize, desc: usize },
}

/// The next step of a version query that offered buffers of `capacities`
/// and was told lengths `reported` (name, date, description).
pub open spec fn version_query_step(capacities: (usize, usize, usize), reported: (usize, usize, usize)) -> VersionQueryStep {
    if reported.0 <= capacities.0 && reported.1 <= capacities.1 && reported.2 <= capacities.2 {
        VersionQueryStep::Done
    } else {
        VersionQueryStep::Grow { name: reported.0, date: reported.1, desc: reported.2 }
    }
}

/// Decide the next step of a DRM version query: done when every reported
/// string length fits the capacity that was offered for it, otherwise grow
/// every buffer to its reported length and query again.
pub fn next_version_query_step(
    capacities: (usize, usize, usize),
    reported: (usize, usize, usize),
) -> (step: VersionQueryStep)
    ensures
        step == version_query_step(capacities, reported),
{
    if reported.0 <= capacities.0 && reported.1 <= capacities.1 && reported.2 <= capacities.2 {
        VersionQueryStep::Done
    } else {
        VersionQueryStep::Grow { name: reported.0, date: reported.1, desc: reported.2 }
    }
}

/// Law of the version query: once the buffers have grown to the lengths the
/// driver reported, the same report ends the query.
pub proof fn lemma_version_query_grow_then_done(reported: (usize, usize, usize), capacities: (usize, usize, usize))
    requires
        capacities.0 >= reported.0,
        capacities.1 >= reported.1,
        capacities.2 >= reported.2,
    ensures
        version_query_step(capacities, reported) == VersionQueryStep::Done,
{
}

/// The major, minor and patch numbers of a hardware version: bits 16..24,
/// 8..16 and 0..8.
pub open spec fn version_parts(version: u32) -> (u32, u32, u32) {
    ((version >> 16u32) & 0xff, (version >> 8u32) & 0xff, version & 0xff)
}

/// Law of the version numbers: each part is below 256, and the three parts
/// read as base-256 digits give back the low 24 bits of the version.
pub proof fn lemma_version_parts(version: u32)
    ensures
        version_parts(version).0 < 0x100,
        version_parts(version).1 < 0x100,
        version_parts(version).2 < 0x100,
        version_parts(version).0 * 0x10000 + version_parts(version).1 * 0x100 + version_parts(
            version,
        ).2 == version % 0x100_0000,
{
    assert(((version >> 16u32) & 0xff) < 0x100 && ((version >> 8u32) & 0xff) < 0x100 && (version
        & 0xff) < 0x100 && ((version >> 16u32) & 0xff) * 0x10000 + ((version >> 8u32) & 0xff)
        * 0x100 + (version & 0xff) == version % 0x100_0000) by (bit_vector);
}

/// The hardware version of the NPU as the driver reports it.
#[derive(Debug, Clone, Copy, PartialEq, Eq, Structural)]
pub struct HardwareVersion {
    pub version: u32,
}

impl HardwareVersion {
    /// The major, minor and patch numbers: bits 16..24, 8..16 and 0..8 of
    /// the version.
    pub fn parts(&self) -> (p: (u32, u32, u32))
        ensures
            p == version_parts(self.version),
    {
        ((self.version >> 16) & 0xff, (self.version >> 8) & 0xff, self.version & 0xff)
    }
}

} // verus!
