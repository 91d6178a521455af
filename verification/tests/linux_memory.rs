use orbis_providers::error::{IoErrorKind, IoFailure, ProviderError};
use orbis_providers::linux_memory::{
    is_zram_device, parse_bool_parameter, parse_meminfo, parse_memory_pressure, parse_mm_stat,
    parse_percent_basis_points, sort_zram_devices, zswap_from, ZramTelemetry,
};

#[test]
fn meminfo_parser_preserves_kib_values_and_optional_available() {
    let snapshot = parse_meminfo(
        "MemTotal:       16384 kB\nMemAvailable:    8192 kB\nSwapTotal:       4096 kB\nSwapFree:        1024 kB\n",
    )
    .unwrap();
    assert_eq!(snapshot.total_kib, 16_384);
    assert_eq!(snapshot.available_kib, Some(8_192));
    assert_eq!(snapshot.swap_total_kib, 4_096);
    assert_eq!(snapshot.swap_free_kib, 1_024);
    assert!(snapshot.pressure.is_none());
}

#[test]
fn meminfo_missing_required_field_is_error() {
    assert!(parse_meminfo("MemTotal: 1000 kB\n").is_err());
}

#[test]
fn psi_parser_uses_integer_basis_points() {
    let pressure = parse_memory_pressure(
        "some avg10=12.34 avg60=1.20 avg300=0.01 total=1234\nfull avg10=0.10 avg60=0.00 avg300=0.00 total=10\n",
    )
    .unwrap();
    assert_eq!(pressure.some.avg10_basis_points, 1234);
    assert_eq!(pressure.some.avg60_basis_points, 120);
    assert_eq!(pressure.full.unwrap().avg10_basis_points, 10);
}

#[test]
fn malformed_psi_is_fail_closed() {
    assert!(parse_memory_pressure("some avg10=101.00 avg60=0.00 avg300=0.00 total=1").is_err());
}

#[test]
fn kernel_bool_parser_is_strict() {
    assert_eq!(parse_bool_parameter("Y\n").unwrap(), Some(true));
    assert_eq!(parse_bool_parameter("N\n").unwrap(), Some(false));
    assert!(parse_bool_parameter("maybe").is_err());
}

#[test]
fn kernel_bool_parser_accepts_lowercase_digits_and_blank() {
    assert_eq!(parse_bool_parameter("y").unwrap(), Some(true));
    assert_eq!(parse_bool_parameter("1").unwrap(), Some(true));
    assert_eq!(parse_bool_parameter("0").unwrap(), Some(false));
    assert_eq!(parse_bool_parameter("  \n").unwrap(), None);
    assert_eq!(
        parse_bool_parameter("maybe"),
        Err(ProviderError::Internal("unexpected boolean kernel parameter 'maybe'".into()))
    );
}

#[test]
fn percent_basis_points_are_exact() {
    assert_eq!(parse_percent_basis_points("12.34").unwrap(), 1234);
    assert_eq!(parse_percent_basis_points("100.00").unwrap(), 10_000);
    assert_eq!(parse_percent_basis_points("0.01").unwrap(), 1);
    assert!(parse_percent_basis_points("100.01").is_err());
}

#[test]
fn psi_without_full_line_keeps_full_absent() {
    let pressure = parse_memory_pressure("some avg10=0.00 avg60=0.00 avg300=0.00 total=0\n").unwrap();
    assert!(pressure.full.is_none());
    assert_eq!(pressure.some.total_us, 0);
}

#[test]
fn zram_names_and_mm_stat() {
    assert!(is_zram_device("zram0"));
    assert!(is_zram_device("zram12"));
    assert!(!is_zram_device("zram"));
    assert!(!is_zram_device("sda"));
    assert_eq!(parse_mm_stat("zram0", "4096 1024 2048 0 0 0 0\n").unwrap(), (4096, 1024, 2048));
    assert!(parse_mm_stat("zram0", "4096 1024\n").is_err());
}

#[test]
fn zram_devices_sort_by_name() {
    let z = |n: &str| ZramTelemetry {
        device: n.into(),
        disk_size_bytes: None,
        original_data_bytes: None,
        compressed_data_bytes: None,
        memory_used_bytes: None,
    };
    let sorted = sort_zram_devices(&vec![z("zram2"), z("zram0"), z("zram1")]);
    let names: Vec<&str> = sorted.iter().map(|d| d.device.as_str()).collect();
    assert_eq!(names, vec!["zram0", "zram1", "zram2"]);
}

#[test]
fn zswap_parameter_is_read_strictly() {
    assert_eq!(zswap_from(&Ok("Y\n".into())).unwrap().enabled, Some(true));
    let absent = IoFailure { kind: IoErrorKind::NotFound, raw_os_error: Some(2), message: "nf".into() };
    assert_eq!(zswap_from(&Err(absent)).unwrap().enabled, None);
}
