use elixir_provider::text::{chars_of, trimmed};
use elixir_provider::version::{manifest_hint_range, package_for_hint, parse_version, table_lookup};

fn chars(s: &str) -> Vec<char> {
    s.chars().collect()
}

fn pair(s: &str) -> Option<(String, String)> {
    parse_version(&chars(s)).map(|(a, b)| (a.into_iter().collect(), b.into_iter().collect()))
}

fn hint(s: &str) -> Option<String> {
    let v = chars_of(s);
    manifest_hint_range(&v).map(|(lo, hi)| v[lo..hi].iter().collect())
}

#[test]
fn parse_version_splits_major_and_minor() {
    assert_eq!(pair("1.13"), Some(("1".to_string(), "13".to_string())));
    assert_eq!(pair("1.13.2"), Some(("1".to_string(), "13".to_string())));
    assert_eq!(pair("1"), Some(("1".to_string(), String::new())));
    assert_eq!(pair(""), Some((String::new(), String::new())));
    assert_eq!(pair(" \"1.9\" "), Some(("1".to_string(), "9".to_string())));
    assert_eq!(pair("1.2.3.4"), None);
    assert_eq!(pair("1.13|1.14"), None);
    assert_eq!(pair("1.13\"x"), None);
    assert_eq!(pair("1\u{663}.15"), Some(("1\u{663}".to_string(), "15".to_string())));
    assert_eq!(pair("1.15.\u{663}"), Some(("1".to_string(), "15".to_string())));
    assert_eq!(pair("1.15.x"), None);
}

#[test]
fn manifest_hint_finds_declared_version() {
    assert_eq!(hint("  elixir: \"~> 1.13\",\n"), Some("1.13".to_string()));
    assert_eq!(hint("elixir:\n  \"~> 1.12\"\n"), Some("1.12".to_string()));
    assert_eq!(hint("elixir: \"~> 1.10 or ~> 1.11\"\n"), Some("1.11".to_string()));
    assert_eq!(hint("elixir: \"~> 1.12|1.13\"\n"), Some("1.12|1.13".to_string()));
    assert_eq!(hint("elixir: \"1.13\"\n"), None);
    assert_eq!(hint("no declaration here"), None);
    assert_eq!(hint(""), None);
}

#[test]
fn table_lookup_lists_supported_releases() {
    assert_eq!(table_lookup(&chars("1"), &chars("14")).as_deref(), Some("elixir"));
    assert_eq!(table_lookup(&chars("1"), &chars("9")).as_deref(), Some("elixir_1_9"));
    assert_eq!(table_lookup(&chars("1"), &chars("16")), None);
    assert_eq!(table_lookup(&chars("2"), &chars("9")), None);
    assert_eq!(table_lookup(&chars(""), &chars("")), None);
}

#[test]
fn package_for_hint_maps_or_defaults() {
    assert_eq!(package_for_hint("1.15\n"), "elixir_1_15");
    assert_eq!(package_for_hint("2.0"), "elixir");
    assert_eq!(package_for_hint("1.14.1"), "elixir");
}

#[test]
fn trimmed_drops_unicode_white_space() {
    let t: String = trimmed(&chars("\u{2003} 1.9\t\u{85}")).into_iter().collect();
    assert_eq!(t, "1.9");
    let t: String = trimmed(&chars(" \n ")).into_iter().collect();
    assert_eq!(t, "");
}
