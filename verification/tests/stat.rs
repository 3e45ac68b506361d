use dirstream::stat::{
    fchmodat_flag_bits, major, makedev, minor, resolve_at_fd, FchmodatFlags, TimeSpec, UtimeSpec,
    AT_FDCWD, AT_SYMLINK_NOFOLLOW, UTIME_NOW, UTIME_OMIT,
};

#[test]
fn makedev_packs_the_classic_disk_number() {
    assert_eq!(makedev(8, 1), 0x801);
    assert_eq!(major(0x801), 8);
    assert_eq!(minor(0x801), 1);
}

#[test]
fn makedev_spreads_wide_halves() {
    // Major bits land at 8..20 and 44..64, minor bits at 0..8 and 20..44.
    assert_eq!(makedev(0x12345, 0x6789abcd), 0x0001_2678_9ab3_45cd);
}

#[test]
fn device_number_round_trips() {
    let dev = makedev(0xabcde, 0x1234_5678);
    assert_eq!(major(dev), 0xabcde);
    assert_eq!(minor(dev), 0x1234_5678);
}

#[test]
fn unpack_then_pack_restores_any_device_number() {
    for dev in [0u64, 1, 0x801, 0xdead_beef_cafe_f00d, u64::MAX] {
        assert_eq!(makedev(major(dev), minor(dev)), dev);
    }
}

#[test]
fn follow_symlink_passes_no_flag() {
    assert_eq!(fchmodat_flag_bits(FchmodatFlags::FollowSymlink), 0);
    assert_eq!(fchmodat_flag_bits(FchmodatFlags::NoFollowSymlink), AT_SYMLINK_NOFOLLOW);
}

#[test]
fn missing_directory_descriptor_means_cwd() {
    assert_eq!(resolve_at_fd(None), AT_FDCWD);
    assert_eq!(resolve_at_fd(Some(5)), 5);
}

#[test]
fn timestamp_sentinels_ride_in_the_nanosecond_field() {
    assert_eq!(UtimeSpec::Now.to_timespec(), TimeSpec { tv_sec: 0, tv_nsec: UTIME_NOW });
    assert_eq!(UtimeSpec::Omit.to_timespec(), TimeSpec { tv_sec: 0, tv_nsec: UTIME_OMIT });
    let t = TimeSpec { tv_sec: 1_700_000_000, tv_nsec: 500 };
    assert_eq!(UtimeSpec::Time(t).to_timespec(), t);
}

#[test]
fn timestamp_sentinels_match_the_os_values() {
    assert_eq!(UTIME_NOW, libc::UTIME_NOW);
    assert_eq!(UTIME_OMIT, libc::UTIME_OMIT);
    assert_eq!(AT_FDCWD, libc::AT_FDCWD);
    assert_eq!(AT_SYMLINK_NOFOLLOW, libc::AT_SYMLINK_NOFOLLOW);
}
