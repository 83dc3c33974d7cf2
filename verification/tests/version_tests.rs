use llm_backend::installer::VersionMetadata;
use llm_backend::version::{
    check_for_update, compare, find_char, latest_release, parse_number, parse_version, update_available,
    Comparison, Version,
};

fn installed(version: &str) -> Option<VersionMetadata> {
    Some(VersionMetadata {
        version: version.to_string(),
        downloaded_at: "2024-01-01 00:00:00 UTC".to_string(),
    })
}

fn tags(list: &[&str]) -> Vec<String> {
    list.iter().map(|t| t.to_string()).collect()
}

#[test]
fn compare_reports_not_newer_for_an_earlier_patch() {
    assert_eq!(compare("1.2.3", "1.2.4"), Comparison::NotNewer);
}

#[test]
fn compare_reports_newer_for_a_later_major() {
    assert_eq!(compare("2.0.0", "1.9.9"), Comparison::Newer);
}

#[test]
fn compare_reports_not_newer_for_the_same_version() {
    assert_eq!(compare("1.2.3", "1.2.3"), Comparison::NotNewer);
}

#[test]
fn compare_goes_by_numbers_not_by_text() {
    assert_eq!(compare("1.10.0", "1.9.0"), Comparison::Newer);
    assert_eq!(compare("1.9.0", "1.10.0"), Comparison::NotNewer);
    assert_eq!(compare("1.2.10", "1.2.9"), Comparison::Newer);
}

#[test]
fn compare_reports_unknown_for_malformed_text() {
    assert_eq!(compare("1.2", "1.2.3"), Comparison::Unknown);
    assert_eq!(compare("1.2.3", "banana"), Comparison::Unknown);
    assert_eq!(compare("", ""), Comparison::Unknown);
    assert_eq!(compare("v1.2.3", "1.2.3"), Comparison::Unknown);
    assert_eq!(compare("1.2.3", "1.2.x"), Comparison::Unknown);
    assert_eq!(compare("1.2.3 ", "1.2.3"), Comparison::Unknown);
}

#[test]
fn parse_version_reads_three_numbers() {
    assert_eq!(parse_version("10.20.30"), Some(Version { major: 10, minor: 20, patch: 30 }));
    assert_eq!(parse_version("0.0.0"), Some(Version { major: 0, minor: 0, patch: 0 }));
    assert_eq!(parse_version("01.002.0003"), Some(Version { major: 1, minor: 2, patch: 3 }));
}

#[test]
fn parse_version_rejects_what_is_not_three_numbers() {
    assert_eq!(parse_version("1.2.3.4"), None);
    assert_eq!(parse_version("1..3"), None);
    assert_eq!(parse_version(".1.2"), None);
    assert_eq!(parse_version("1.2."), None);
    assert_eq!(parse_version("1"), None);
    assert_eq!(parse_version("1.2"), None);
    assert_eq!(parse_version("-1.2.3"), None);
    assert_eq!(parse_version("1.2.3-beta"), None);
    assert_eq!(parse_version("١.٢.٣"), None);
}

#[test]
fn parse_version_rejects_numbers_beyond_64_bits() {
    assert_eq!(parse_version("18446744073709551616.0.0"), None);
    assert_eq!(
        parse_version("18446744073709551615.0.0"),
        Some(Version { major: u64::MAX, minor: 0, patch: 0 })
    );
    assert_eq!(parse_version("1.99999999999999999999999.0"), None);
}

#[test]
fn parse_number_reads_digits_only() {
    assert_eq!(parse_number("0"), Some(0));
    assert_eq!(parse_number("42"), Some(42));
    assert_eq!(parse_number("007"), Some(7));
    assert_eq!(parse_number(""), None);
    assert_eq!(parse_number("4 2"), None);
    assert_eq!(parse_number("+42"), None);
    assert_eq!(parse_number("18446744073709551615"), Some(u64::MAX));
    assert_eq!(parse_number("18446744073709551616"), None);
    assert_eq!(parse_number("00000000000000000000000000000001"), Some(1));
}

#[test]
fn render_writes_the_three_numbers_with_dots() {
    assert_eq!(Version { major: 1, minor: 2, patch: 3 }.render(), "1.2.3");
    assert_eq!(Version { major: 0, minor: 10, patch: 200 }.render(), "0.10.200");
    let largest = Version { major: u64::MAX, minor: 0, patch: 9 };
    assert_eq!(largest.render(), "18446744073709551615.0.9");
    assert_eq!(parse_version(&largest.render()), Some(largest));
}

#[test]
fn later_than_compares_from_the_left() {
    let a = Version { major: 1, minor: 2, patch: 3 };
    let b = Version { major: 1, minor: 3, patch: 0 };
    assert!(b.is_later_than(&a));
    assert!(!a.is_later_than(&b));
    assert!(!a.is_later_than(&a));
}

#[test]
fn update_is_available_when_remote_is_newer() {
    assert!(update_available(Some("1.3.0"), Some("1.2.9")));
    assert!(!update_available(Some("1.2.9"), Some("1.3.0")));
    assert!(!update_available(Some("1.2.9"), Some("1.2.9")));
}

#[test]
fn update_is_available_when_nothing_is_installed() {
    assert!(update_available(Some("0.0.1"), None));
    assert!(!update_available(None, None));
    assert!(!update_available(None, Some("1.0.0")));
}

#[test]
fn malformed_versions_never_lead_to_an_update() {
    assert!(!update_available(Some("latest"), None));
    assert!(!update_available(Some("latest"), Some("1.0.0")));
    assert!(!update_available(Some("2.0.0"), Some("unknown")));
}

#[test]
fn latest_release_is_the_first_tag_in_the_namespace() {
    let list = tags(&["app-v3.0.0", "llm-v1.4.2", "llm-v1.4.1", "v9.9.9"]);
    assert_eq!(latest_release(&list), Some("1.4.2".to_string()));
    assert_eq!(latest_release(&tags(&["app-v3.0.0", "v1.0.0"])), None);
    assert_eq!(latest_release(&tags(&[])), None);
    assert_eq!(latest_release(&tags(&["llm-v"])), Some(String::new()));
    assert_eq!(latest_release(&tags(&["llm-", "LLM-v1.0.0", "xllm-v2.0.0"])), None);
}

#[test]
fn check_for_update_holds_the_first_release_against_the_local_version() {
    let list = tags(&["app-v3.0.0", "llm-v1.4.2", "llm-v2.0.0"]);
    let check = check_for_update(&list, &installed("1.4.1"));
    assert_eq!(check.remote_version, Some("1.4.2".to_string()));
    assert!(check.update_available);

    let check = check_for_update(&list, &installed("1.4.2"));
    assert!(!check.update_available);

    let check = check_for_update(&list, &None);
    assert!(check.update_available);

    let check = check_for_update(&tags(&["llm-vnext"]), &None);
    assert_eq!(check.remote_version, Some("next".to_string()));
    assert!(!check.update_available);

    let check = check_for_update(&tags(&["app-v1.0.0"]), &installed("1.0.0"));
    assert_eq!(check.remote_version, None);
    assert!(!check.update_available);
}

#[test]
fn the_first_occurrence_of_a_character_is_found() {
    assert_eq!(find_char("1.2.3", '.'), 1);
    assert_eq!(find_char(".2.3", '.'), 0);
    assert_eq!(find_char("123", '.'), 3);
    assert_eq!(find_char("", '.'), 0);
    assert_eq!(find_char("12.", '.'), 2);
    assert_eq!(find_char("é.é", '.'), 1);
}
