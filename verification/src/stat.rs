//! Pure computations behind the file-metadata syscalls: device number
//! packing, the flag and descriptor resolution of the `*at` family, and the
//! timestamp encoding of `utimensat`/`futimens`. The syscalls themselves are
//! performed by the native layer; what they are handed is computed, and
//! proved, here.

use vstd::prelude::*;

verus! {

/// Descriptor value the `*at` syscalls read as "the current working
/// directory".
pub const AT_FDCWD: i32 = -100;

/// Flag bit telling an `*at` syscall to operate on a symbolic link itself
/// rather than on what it points to.
pub const AT_SYMLINK_NOFOLLOW: i32 = 0x100;

/// Nanosecond sentinel telling `utimensat` to use the current time.
pub const UTIME_NOW: i64 = 1073741823;

/// Nanosecond sentinel telling `utimensat` to leave the timestamp alone.
pub const UTIME_OMIT: i64 = 1073741822;

/// The major half of a packed device number.
pub open spec fn major_of(dev: u64) -> u64 {
    ((dev >> 32) & 0xffff_f000) | ((dev >> 8) & 0x0000_0fff)
}

/// The minor half of a packed device number.
pub open spec fn minor_of(dev: u64) -> u64 {
    ((dev >> 12) & 0xffff_ff00) | (dev & 0x0000_00ff)
}

/// A device number packed from its major and minor halves.
pub open spec fn makedev_of(major: u64, minor: u64) -> u64 {
    ((major & 0xffff_f000) << 32) | ((major & 0x0000_0fff) << 8)
        | ((minor & 0xffff_ff00) << 12) | (minor & 0x0000_00ff)
}

/// Extract the major half of a device number.
pub fn major(dev: u64) -> (res: u64)
    ensures
        res == major_of(dev),
{
    ((dev >> 32u64) & 0xffff_f000) | ((dev >> 8u64) & 0x0000_0fff)
}

/// Extract the minor half of a device number.
pub fn minor(dev: u64) -> (res: u64)
    ensures
        res == minor_of(dev),
{
    ((dev >> 12u64) & 0xffff_ff00) | (dev & 0x0000_00ff)
}

/// Pack a device number from its major and minor halves.
pub fn makedev(major: u64, minor: u64) -> (dev: u64)
    ensures
        dev == makedev_of(major, minor),
{
    ((major & 0xffff_f000) << 32u64) | ((major & 0x0000_0fff) << 8u64)
        | ((minor & 0xffff_ff00) << 12u64) | (minor & 0x0000_00ff)
}

/// Packing a device number and taking it apart gives the halves back:
/// `major` and `minor` fit in 32 bits each, and the packing keeps every bit
/// of both.
pub proof fn lemma_dev_roundtrip(major: u64, minor: u64)
    requires
        major < 0x1_0000_0000,
        minor < 0x1_0000_0000,
    ensures
        major_of(makedev_of(major, minor)) == major,
        minor_of(makedev_of(major, minor)) == minor,
{
    assert(major_of(makedev_of(major, minor)) == major && minor_of(
        makedev_of(major, minor),
    ) == minor) by (bit_vector)
        requires
            major < 0x1_0000_0000,
            minor < 0x1_0000_0000,
    ;
}

/// The two halves carry the whole device number: repacking what was taken
/// apart restores every bit of any device number.
pub proof fn lemma_dev_pack_unpack(dev: u64)
    ensures
        makedev_of(major_of(dev), minor_of(dev)) == dev,
{
    assert(makedev_of(major_of(dev), minor_of(dev)) == dev) by (bit_vector);
}

/// Whether a permission change through a path follows a symbolic link to
/// its target or applies to the link itself.
#[derive(Clone, Copy, Debug, PartialEq, Eq, Structural)]
pub enum FchmodatFlags {
    FollowSymlink,
    NoFollowSymlink,
}

/// The flag word an `*at` permission change passes to the OS: nothing for
/// following a symbolic link (the OS default), the no-follow bit otherwise.
pub fn fchmodat_flag_bits(flag: FchmodatFlags) -> (bits: i32)
    ensures
        flag is FollowSymlink ==> bits == 0,
        flag is NoFollowSymlink ==> bits == AT_SYMLINK_NOFOLLOW,
{
    match flag {
        FchmodatFlags::FollowSymlink => 0,
        FchmodatFlags::NoFollowSymlink => AT_SYMLINK_NOFOLLOW,
    }
}

/// The descriptor an `*at` syscall is handed: the given directory
/// descriptor, or the current-working-directory sentinel when none was
/// given.
pub fn resolve_at_fd(dirfd: Option<i32>) -> (fd: i32)
    ensures
        dirfd matches Some(d) ==> fd == d,
        dirfd is None ==> fd == AT_FDCWD,
{
    match dirfd {
        Some(d) => d,
        None => AT_FDCWD,
    }
}

/// A timestamp with nanosecond precision, as the OS takes it: seconds and
/// nanoseconds since the epoch.
#[derive(Clone, Copy, Debug, PartialEq, Eq, Structural)]
pub struct TimeSpec {
    pub tv_sec: i64,
    pub tv_nsec: i64,
}

/// What a timestamp-changing syscall should do to one file timestamp.
#[derive(Clone, Copy, Debug, PartialEq, Eq, Structural)]
pub enum UtimeSpec {
    /// Set the timestamp to the current time.
    Now,
    /// Leave the timestamp unchanged.
    Omit,
    /// Set the timestamp to this value.
    Time(TimeSpec),
}

impl UtimeSpec {
    /// The wire form the OS reads: `Now` and `Omit` ride in the nanosecond
    /// field as reserved sentinel values with the seconds zeroed, an
    /// explicit time rides as itself.
    pub fn to_timespec(&self) -> (ts: TimeSpec)
        ensures
            *self is Now ==> ts == (TimeSpec { tv_sec: 0, tv_nsec: UTIME_NOW }),
            *self is Omit ==> ts == (TimeSpec { tv_sec: 0, tv_nsec: UTIME_OMIT }),
            (*self matches UtimeSpec::Time(t) ==> ts == t),
    {
        match self {
            UtimeSpec::Now => TimeSpec { tv_sec: 0, tv_nsec: UTIME_NOW },
            UtimeSpec::Omit => TimeSpec { tv_sec: 0, tv_nsec: UTIME_OMIT },
            UtimeSpec::Time(t) => *t,
        }
    }
}

} // verus!
