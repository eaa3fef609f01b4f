use durse::paths::{base_name, directory_name, extension, file_name, parent, PathStyle};
use durse::units::unit_divisor;

const U: PathStyle = PathStyle::Unix;
const W: PathStyle = PathStyle::Windows;

#[test]
fn unit_divisors_are_powers_of_1024() {
    assert_eq!(unit_divisor(0), 1);
    assert_eq!(unit_divisor(1), 1024);
    assert_eq!(unit_divisor(2), 1024 * 1024);
    assert_eq!(unit_divisor(3), 1024 * 1024 * 1024);
    assert_eq!(unit_divisor(4), 1024u64 * 1024 * 1024 * 1024);
}

#[test]
fn scaled_sizes_step_by_1024() {
    for b in [0u64, 1, 89, 1023, 1024, 1_000_000, 123_456_789_012, u32::MAX as u64] {
        let kb = b as f64 / unit_divisor(1) as f64;
        let mb = b as f64 / unit_divisor(2) as f64;
        assert!((kb * 1024.0 - b as f64).abs() <= 1e-9 * (b as f64).max(1.0));
        assert!((mb - kb / 1024.0).abs() <= 1e-12 * kb.max(1.0));
    }
}

#[test]
fn report_path_parts() {
    let p = "a/b/report.final.txt";
    assert_eq!(extension(p, U), "txt");
    assert_eq!(base_name(p, U), "report.final");
    assert_eq!(directory_name(p, U), "a/b");
    assert_eq!(file_name(p, U), "report.final.txt");
}

#[test]
fn path_without_extension_or_directory() {
    assert_eq!(file_name("README", U), "README");
    assert_eq!(base_name("README", U), "README");
    assert_eq!(extension("README", U), "");
    assert_eq!(directory_name("README", U), "");
    assert_eq!(parent("README", U), Some(String::new()));
}

#[test]
fn hidden_file_has_no_extension() {
    assert_eq!(base_name("home/.profile", U), ".profile");
    assert_eq!(extension("home/.profile", U), "");
    assert_eq!(base_name("home/.config.bak", U), ".config");
    assert_eq!(extension("home/.config.bak", U), "bak");
}

#[test]
fn trailing_dot_gives_empty_extension() {
    assert_eq!(base_name("x/notes.", U), "notes");
    assert_eq!(extension("x/notes.", U), "");
}

#[test]
fn root_and_empty_paths() {
    assert_eq!(parent("/", U), None);
    assert_eq!(parent("", U), None);
    assert_eq!(directory_name("/", U), "");
    assert_eq!(file_name("", U), "");
    assert_eq!(parent("/etc", U), Some("/".to_string()));
    assert_eq!(file_name("/etc", U), "etc");
}

#[test]
fn dot_components_name_no_file() {
    assert_eq!(file_name("a/..", U), "");
    assert_eq!(file_name("a/.", U), "");
    assert_eq!(base_name("a/..", U), "");
    assert_eq!(directory_name("a/..", U), "a");
}

#[test]
fn non_ascii_path_parts() {
    let p = "données/été/résumé.übersicht.pdf";
    assert_eq!(file_name(p, U), "résumé.übersicht.pdf");
    assert_eq!(base_name(p, U), "résumé.übersicht");
    assert_eq!(extension(p, U), "pdf");
    assert_eq!(directory_name(p, U), "données/été");
}

#[test]
fn windows_path_parts() {
    let p = "C:\\data\\reports\\report.final.txt";
    assert_eq!(file_name(p, W), "report.final.txt");
    assert_eq!(base_name(p, W), "report.final");
    assert_eq!(extension(p, W), "txt");
    assert_eq!(directory_name(p, W), "C:\\data\\reports");
    assert_eq!(directory_name("C:\\r.csv", W), "C:\\");
    assert_eq!(directory_name("C:/x/y.txt", W), "C:/x");
    assert_eq!(parent("C:\\", W), None);
    assert_eq!(parent("C:", W), None);
    assert_eq!(file_name("C:notes.md", W), "notes.md");
    assert_eq!(parent("C:notes.md", W), Some("C:".to_string()));
}

#[test]
fn backslash_is_a_name_character_on_unix() {
    assert_eq!(file_name("dir/a\\b.txt", U), "a\\b.txt");
    assert_eq!(directory_name("a\\b.txt", U), "");
}
