use std::path::PathBuf;
use swap_core::metrics::{
    file_extension, metrics_file_name, output_file_path, should_record_swap, SerializeFormat,
};
use swap_core::types::Role;

#[test]
fn output_file_path_joins_root_and_name() {
    assert_eq!(
        output_file_path("/var/metrics", "out.json"),
        PathBuf::from("/var/metrics/out.json")
    );
}

#[test]
fn output_file_path_keeps_a_trailing_separator() {
    assert_eq!(
        output_file_path("/var/metrics/", "out.json"),
        PathBuf::from("/var/metrics/out.json")
    );
}

#[test]
fn output_file_path_with_absolute_name_drops_the_root() {
    assert_eq!(
        output_file_path("/var/metrics", "/tmp/out.json"),
        PathBuf::from("/tmp/out.json")
    );
}

#[test]
fn output_file_path_with_empty_root_is_the_name() {
    assert_eq!(output_file_path("", "out.json"), PathBuf::from("out.json"));
}

#[test]
fn output_file_path_matches_std_join() {
    for (root, name) in [
        ("/var/metrics", "out.json"),
        ("/var/metrics/", "out.json"),
        ("relative/dir", "file.bytes"),
        ("", "file.bytes"),
        ("/var", "/abs.json"),
    ] {
        assert_eq!(
            output_file_path(root, name),
            std::path::Path::new(root).join(name)
        );
    }
}

#[test]
fn extensions_follow_the_format() {
    assert_eq!(file_extension(&SerializeFormat::Json), "json");
    assert_eq!(file_extension(&SerializeFormat::Bytes), "bytes");
}

#[test]
fn metrics_file_name_appends_the_extension() {
    assert_eq!(metrics_file_name("taker", &SerializeFormat::Bytes), "taker.bytes");
    assert_eq!(metrics_file_name("output", &SerializeFormat::Json), "output.json");
}

#[test]
fn only_taker_swaps_are_recorded() {
    assert!(should_record_swap(Role::Taker));
    assert!(!should_record_swap(Role::Maker));
}
