use bgremove::paths::format_usize;
use bgremove::paths::has_nul;
use bgremove::paths::input_path;
use bgremove::paths::output_path;

#[test]
fn test_path_round_trip() {
    assert_eq!(input_path("/tmp", 0), "/tmp/tmp-input-0");
    assert_eq!(output_path("/tmp", 0), "/tmp/tmp-output-0.png");
}

#[test]
fn test_format_usize_values() {
    assert_eq!(format_usize(0), "0");
    assert_eq!(format_usize(7), "7");
    assert_eq!(format_usize(10), "10");
    assert_eq!(format_usize(90210), "90210");
    assert_eq!(format_usize(usize::MAX), usize::MAX.to_string());
}

#[test]
fn test_has_nul() {
    assert!(!has_nul(""));
    assert!(!has_nul("/tmp"));
    assert!(has_nul("\0"));
    assert!(has_nul("/t\0mp"));
    assert!(has_nul("/tmp\0"));
}

#[test]
fn test_distinct_ids_paths_differ() {
    let a_in = input_path("/tmp", 1);
    let b_in = input_path("/tmp", 2);
    let a_out = output_path("/tmp", 1);
    let b_out = output_path("/tmp", 2);
    assert_ne!(a_in, b_in);
    assert_ne!(a_out, b_out);
    assert_ne!(a_in, a_out);
    assert_ne!(a_in, b_out);
    assert_ne!(b_in, a_out);
    assert_eq!(a_in, "/tmp/tmp-input-1");
    assert_eq!(b_out, "/tmp/tmp-output-2.png");
}

#[test]
fn test_two_digit_ids_stay_distinct() {
    // ids 1 and 12, 12 and 21: representations must not run together
    assert_ne!(input_path("/tmp", 12), input_path("/tmp", 21));
    assert_eq!(input_path("/tmp", 12), "/tmp/tmp-input-12");
    assert_eq!(input_path("/tmp", 21), "/tmp/tmp-input-21");
}
