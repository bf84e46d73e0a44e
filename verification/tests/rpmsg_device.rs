use sigma_racer_vehicle::rpmsg::{
    accepts_packet, device_path, names_endpoint, resolve_device, DeviceEntry, DeviceError,
    SysfsScan, MIN_PACKET_LEN, READ_BUF_LEN,
};

fn entry(file: &str, name: &str) -> Result<DeviceEntry, String> {
    Ok(DeviceEntry { file_name: file.to_string(), name: name.to_string() })
}

#[test]
fn packets_need_sixty_bytes() {
    assert_eq!(MIN_PACKET_LEN, 60);
    assert_eq!(READ_BUF_LEN, 64);
    assert!(!accepts_packet(0));
    assert!(!accepts_packet(59));
    assert!(accepts_packet(60));
    assert!(accepts_packet(64));
}

#[test]
fn endpoint_name_ignores_surrounding_whitespace() {
    assert!(names_endpoint("sigma-m7-signals"));
    assert!(names_endpoint("sigma-m7-signals\n"));
    assert!(names_endpoint(" \t sigma-m7-signals \r\n"));
    assert!(names_endpoint("\u{a0}sigma-m7-signals\u{2028}"));
    assert!(!names_endpoint("sigma-m7-signal"));
    assert!(!names_endpoint("sigma m7-signals"));
    assert!(!names_endpoint("xsigma-m7-signals"));
    assert!(!names_endpoint(""));
    assert!(!names_endpoint("   "));
}

#[test]
fn device_path_is_under_dev() {
    assert_eq!(device_path("rpmsg0"), "/dev/rpmsg0");
    assert_eq!(device_path("virtio0.sigma-m7-signals.-1.30"), "/dev/virtio0.sigma-m7-signals.-1.30");
}

#[test]
fn override_wins() {
    let r = resolve_device(None, Some("/dev/custom".to_string()), SysfsScan::Missing);
    assert_eq!(r.unwrap(), "/dev/custom");
}

#[test]
fn namespaced_override_wins() {
    let r = resolve_device(Some("/dev/rpmsg9".to_string()), None, SysfsScan::Missing);
    assert_eq!(r.unwrap(), "/dev/rpmsg9");
    let r = resolve_device(
        Some("/dev/rpmsg9".to_string()),
        Some("/dev/rpmsg1".to_string()),
        SysfsScan::Missing,
    );
    assert_eq!(r.unwrap(), "/dev/rpmsg9");
}

#[test]
fn empty_override_counts_as_unset() {
    let listing = || SysfsScan::Listed(vec![entry("rpmsg0", "sigma-m7-signals")]);
    assert_eq!(resolve_device(None, Some(String::new()), listing()).unwrap(), "/dev/rpmsg0");
    assert_eq!(
        resolve_device(Some(String::new()), Some("/dev/rpmsg2".to_string()), listing()).unwrap(),
        "/dev/rpmsg2"
    );
}

#[test]
fn missing_sysfs_is_reported() {
    let err = resolve_device(None, None, SysfsScan::Missing).unwrap_err();
    assert!(matches!(err, DeviceError::SysfsMissing));
    assert_eq!(err.message(), "rpmsg sysfs missing — is imx remoteproc running?");
}

#[test]
fn unreadable_sysfs_reports_its_error() {
    let err = resolve_device(None, None, SysfsScan::Unreadable("permission denied".to_string())).unwrap_err();
    assert!(matches!(&err, DeviceError::Io(e) if e == "permission denied"));
    assert_eq!(err.message(), "permission denied");
}

#[test]
fn first_matching_entry_wins() {
    let scan = SysfsScan::Listed(vec![
        entry("virtio0.rpmsg-tty.-1.0", "rpmsg-tty\n"),
        entry("virtio0.sigma-m7-signals.-1.30", "sigma-m7-signals\n"),
        entry("virtio0.sigma-m7-signals.-1.31", "sigma-m7-signals\n"),
    ]);
    assert_eq!(resolve_device(None, None, scan).unwrap(), "/dev/virtio0.sigma-m7-signals.-1.30");
}

#[test]
fn entry_error_before_match_ends_scan() {
    let scan = SysfsScan::Listed(vec![
        entry("a", ""),
        Err("entry vanished".to_string()),
        entry("b", "sigma-m7-signals"),
    ]);
    let err = resolve_device(None, None, scan).unwrap_err();
    assert_eq!(err.message(), "entry vanished");
}

#[test]
fn entry_error_after_match_is_not_reached() {
    let scan = SysfsScan::Listed(vec![entry("b", "sigma-m7-signals"), Err("late".to_string())]);
    assert_eq!(resolve_device(None, None, scan).unwrap(), "/dev/b");
}

#[test]
fn no_matching_entry_is_not_found() {
    let scan = SysfsScan::Listed(vec![entry("a", "other"), entry("b", "")]);
    let err = resolve_device(None, None, scan).unwrap_err();
    assert!(matches!(err, DeviceError::NotFound));
    assert_eq!(
        err.message(),
        "rpmsg endpoint 'sigma-m7-signals' not found — create it from sysfs or set RPMSG_DEVICE"
    );
    assert!(matches!(resolve_device(None, None, SysfsScan::Listed(vec![])), Err(DeviceError::NotFound)));
}
