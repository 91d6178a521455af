use orbis_providers::ryzenadj_diagnostics::{diagnostics, parse_info_output, ryzenadj_info_args};

#[test]
fn failed_info_preserves_version_module_and_failure_without_fake_values() {
    let evidence = parse_info_output(
        "detected compatible ryzen_smu kernel module\nVersion: v0.19.0\n",
        "Unable to get os_access Obj, check permission\nUnable to init ryzenadj\n",
        Some(1),
    );
    assert_eq!(evidence.version.as_deref(), Some("v0.19.0"));
    assert_eq!(evidence.kernel_module.as_deref(), Some("ryzen_smu"));
    assert!(evidence.current_values.is_empty());
    assert_eq!(evidence.failure.as_deref(), Some("Unable to init ryzenadj"));
    assert!(!evidence.has_authoritative_metadata());
    assert!(!evidence.supports_typed_mutation());
}

#[test]
fn successful_table_is_structured_but_not_promoted_to_write_support() {
    let evidence = parse_info_output(
        "Version: v0.19.0\n| STAPM LIMIT | 25000 | stapm-limit |\n| PPT LIMIT FAST | 30000 | fast-limit |\n",
        "",
        Some(0),
    );
    assert_eq!(evidence.current_value("stapm-limit"), Some(25_000));
    assert_eq!(evidence.current_value("fast-limit"), Some(30_000));
    assert!(!evidence.has_authoritative_metadata());
    assert!(!evidence.supports_typed_mutation());
}

#[test]
fn malformed_and_header_rows_are_ignored() {
    let evidence = parse_info_output(
        "| NAME | VALUE | PARAM |\n| --- | --- | --- |\n| row | nan | stapm-limit |\n| row | 12 | UpperCase |\n",
        "",
        Some(0),
    );
    assert!(evidence.current_values.is_empty());
}

#[test]
fn contract_diagnostics_are_specific_and_fail_closed() {
    let entries = diagnostics();
    assert!(entries
        .iter()
        .any(|entry| entry.key == "backend.ryzenadj.contract" && entry.value.contains("/usr/bin/ryzenadj")));
    assert!(entries
        .iter()
        .any(|entry| entry.key == "backend.ryzenadj.write-status" && entry.value.contains("blocked")));
}

#[test]
fn info_invocation_is_the_fixed_read_only_argument() {
    assert_eq!(ryzenadj_info_args(), vec!["--info"]);
}

#[test]
fn repeated_parameter_keeps_one_entry_with_last_value() {
    let evidence = parse_info_output(
        "| STAPM LIMIT | 25000 | stapm-limit |\n| STAPM LIMIT | 26000 | stapm-limit |\n",
        "",
        Some(0),
    );
    assert_eq!(evidence.current_values.len(), 1);
    assert_eq!(evidence.current_value("stapm-limit"), Some(26_000));
    assert_eq!(evidence.exit_code, Some(0));
}

#[test]
fn current_values_are_kept_in_parameter_order() {
    let evidence = parse_info_output(
        "| STAPM LIMIT | 25000 | stapm-limit |\n| PPT LIMIT FAST | 30000 | fast-limit |\n| TCTL | 95 | tctl-temp |\n| PPT LIMIT SLOW | 28000 | slow-limit |\n",
        "",
        Some(0),
    );
    let names: Vec<&str> = evidence.current_values.iter().map(|v| v.parameter.as_str()).collect();
    assert_eq!(names, vec!["fast-limit", "slow-limit", "stapm-limit", "tctl-temp"]);
    assert_eq!(evidence.current_value("stapm-limit"), Some(25_000));
    assert_eq!(evidence.current_value("fast-limit"), Some(30_000));
}
