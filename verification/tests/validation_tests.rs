use sm_init_core::validation::assess_directory;
use sm_init_core::validation::available_bytes_of;
use sm_init_core::validation::check_write_permission;
use sm_init_core::validation::has_enough_space;
use sm_init_core::validation::DEFAULT_REQUIRED_SPACE_BYTES;
use sm_init_core::text::decimal_string;
use sm_init_core::text::format_gib_two_decimals;

const GIB: u64 = 1024 * 1024 * 1024;

#[test]
fn missing_directory_reports_nothing_good() {
    let v = assess_directory(false, None, Ok(100 * GIB), GIB);
    assert!(!v.exists);
    assert!(!v.has_write_permission);
    assert!(!v.has_space);
    assert_eq!(v.available_space_bytes, 0);
    let error = v.error.expect("a missing directory must carry an error");
    assert!(!error.is_empty());
    assert_eq!(error, "Directory does not exist");
}

#[test]
fn unwritable_directory_short_circuits() {
    let v = assess_directory(
        true,
        Some(String::from("Permission denied (os error 13)")),
        Ok(100 * GIB),
        GIB,
    );
    assert!(v.exists);
    assert!(!v.has_write_permission);
    assert!(!v.has_space);
    assert_eq!(
        v.error.as_deref(),
        Some("No write permission: Permission denied (os error 13)")
    );
}

#[test]
fn insufficient_space_names_both_amounts_with_two_decimals() {
    // Half a GiB available against a 1 GiB threshold.
    let v = assess_directory(true, None, Ok(GIB / 2), GIB);
    assert!(v.exists);
    assert!(v.has_write_permission);
    assert!(!v.has_space);
    assert_eq!(v.available_space_bytes, GIB / 2);
    let error = v.error.expect("insufficient space must carry an error");
    assert_eq!(
        error,
        "Insufficient disk space. Required: 1.00 GiB, Available: 0.50 GiB"
    );
}

#[test]
fn valid_directory_with_ten_gib_free_passes_a_one_gib_threshold() {
    let v = assess_directory(true, None, Ok(10 * GIB), GIB);
    assert!(v.exists);
    assert!(v.has_write_permission);
    assert!(v.has_space);
    assert_eq!(v.available_space_bytes, 10 * GIB);
    assert!(v.error.is_none());
}

#[test]
fn failed_space_query_is_distinct_from_insufficient_space() {
    let v = assess_directory(
        true,
        None,
        Err(String::from("Failed to get disk info: unsupported system")),
        GIB,
    );
    assert!(v.exists);
    assert!(v.has_write_permission);
    assert!(!v.has_space);
    assert_eq!(
        v.error.as_deref(),
        Some("Failed to check disk space: Failed to get disk info: unsupported system")
    );
}

#[test]
fn write_permission_check_needs_an_existing_directory() {
    assert_eq!(check_write_permission(true, true), Ok(true));
    assert_eq!(check_write_permission(true, false), Ok(false));
    let r = check_write_permission(false, true);
    assert_eq!(r, Err(String::from("Directory does not exist")));
}

#[test]
fn space_comparison_is_exact_at_the_threshold() {
    assert!(has_enough_space(GIB, GIB));
    assert!(!has_enough_space(GIB - 1, GIB));
    assert!(has_enough_space(u64::MAX, DEFAULT_REQUIRED_SPACE_BYTES));
    assert_eq!(DEFAULT_REQUIRED_SPACE_BYTES, 256 * GIB);
}

#[test]
fn gib_rendering_keeps_two_decimals() {
    assert_eq!(format_gib_two_decimals(10 * GIB), "10.00");
    assert_eq!(format_gib_two_decimals(GIB / 2), "0.50");
    assert_eq!(format_gib_two_decimals(0), "0.00");
    assert_eq!(format_gib_two_decimals(GIB + GIB / 4), "1.25");
}

#[test]
fn live_space_query_feeds_the_verdict() {
    // Against the real free-space query of the current directory's file
    // system: any positive verdict must carry a figure meeting the
    // threshold, any negative one an error message.
    let v = sm_init_core::validation::verify_directory(".", true, None, 1);
    assert!(v.exists);
    assert!(v.has_write_permission);
    if v.has_space {
        assert!(v.available_space_bytes >= 1);
        assert!(v.error.is_none());
    } else {
        assert!(!v.error.expect("a negative verdict must say why").is_empty());
    }
    // No file system offers the largest possible threshold.
    let greedy = sm_init_core::validation::verify_directory(".", true, None, u64::MAX);
    if greedy.has_space {
        assert_eq!(greedy.available_space_bytes, u64::MAX);
    } else {
        let error = greedy.error.expect("a negative verdict must say why");
        assert!(error.starts_with("Insufficient disk space. Required: "));
    }
    // A path no file system holds makes the query itself fail.
    let lost = sm_init_core::validation::get_available_space("./no/such/path/anywhere");
    let error = lost.expect_err("the OS cannot report space for a missing path");
    assert!(error.starts_with("Failed to get disk info: "));
}

#[test]
fn block_figures_convert_to_bytes_saturating() {
    assert_eq!(available_bytes_of(0, 4096), 0);
    assert_eq!(available_bytes_of(2621440, 4096), 10 * GIB);
    assert_eq!(available_bytes_of(u64::MAX, 2), u64::MAX);
    assert_eq!(available_bytes_of(u64::MAX, 1), u64::MAX);
}

#[test]
fn decimal_rendering_matches_standard_formatting() {
    assert_eq!(decimal_string(0), "0");
    assert_eq!(decimal_string(7), "7");
    assert_eq!(decimal_string(1234), "1234");
    assert_eq!(decimal_string(u64::MAX), u64::MAX.to_string());
}
