use cm::cli;
use cm::fuzzy::{Bool, FuzzyParser};

fn strings(v: &[&str]) -> Vec<String> {
    v.iter().map(|s| s.to_string()).collect()
}

#[test]
fn open_mode_unique_case_insensitive_match_is_canonicalized() {
    let p = FuzzyParser::new(strings(&["AMDGPU", "X86", "NVPTX"]), None);
    assert_eq!(p.parse_ref("amdgpu").unwrap(), "AMDGPU");
    assert_eq!(p.parse_ref("x86").unwrap(), "X86");
    assert_eq!(p.parse_ref("NvPtX").unwrap(), "NVPTX");
}

#[test]
fn open_mode_unknown_token_passes_through() {
    let p = FuzzyParser::new(strings(&["AMDGPU", "X86"]), None);
    assert_eq!(p.parse_ref("riscv").unwrap(), "riscv");
    assert_eq!(p.parse_ref("").unwrap(), "");
}

#[test]
fn open_mode_ambiguous_case_insensitive_match_passes_through() {
    let p = FuzzyParser::new(strings(&["Foo", "FOO"]), None);
    assert_eq!(p.parse_ref("foo").unwrap(), "foo");
}

#[test]
fn open_mode_empty_known_values() {
    let p = FuzzyParser::new(strings(&[]), None);
    assert_eq!(p.parse_ref("anything").unwrap(), "anything");
}

#[test]
fn prefixed_mode_token_with_prefix_is_kept() {
    let p = FuzzyParser::new(
        strings(&["all", "llvm", "clang", "lld"]),
        Some("check-".to_string()),
    );
    assert_eq!(p.parse_ref("check-weird").unwrap(), "check-weird");
    assert_eq!(p.parse_ref("check-llvm").unwrap(), "check-llvm");
    assert_eq!(p.parse_ref("check-").unwrap(), "check-");
}

#[test]
fn prefixed_mode_unique_abbreviation_resolves() {
    let p = FuzzyParser::new(
        strings(&["all", "llvm", "clang", "lld"]),
        Some("check-".to_string()),
    );
    assert_eq!(p.parse_ref("a").unwrap(), "check-all");
    assert_eq!(p.parse_ref("llv").unwrap(), "check-llvm");
    assert_eq!(p.parse_ref("clang").unwrap(), "check-clang");
}

#[test]
fn prefixed_mode_ambiguous_abbreviation_is_refused_with_candidates() {
    let p = FuzzyParser::new(
        strings(&["all", "llvm", "clang", "lld"]),
        Some("check-".to_string()),
    );
    let e = p.parse_ref("ll").unwrap_err();
    assert_eq!(e.value, "ll");
    assert_eq!(e.valid_values, strings(&["check-*", "all", "llvm", "clang", "lld"]));
}

#[test]
fn prefixed_mode_unknown_abbreviation_is_refused() {
    let p = FuzzyParser::new(
        strings(&["all", "llvm", "clang", "lld"]),
        Some("check-".to_string()),
    );
    let e = p.parse_ref("zzz").unwrap_err();
    assert_eq!(e.value, "zzz");
    assert_eq!(e.valid_values.len(), 5);
}

#[test]
fn possible_values_exposes_the_known_set() {
    let p = FuzzyParser::new(strings(&["all", "llvm"]), Some("check-".to_string()));
    assert_eq!(p.possible_values(), &strings(&["all", "llvm"]));
}

#[test]
fn cli_parser_open_mode_takes_tokens_as_typed() {
    let p = cli::FuzzyParser::new(strings(&["AMDGPU", "X86"]), None);
    assert_eq!(p.parse_ref("amdgpu").unwrap(), "amdgpu");
    assert_eq!(p.parse_ref("whatever").unwrap(), "whatever");
}

#[test]
fn cli_parser_prefixed_mode_matches_open_parser() {
    let p = cli::FuzzyParser::new(strings(&["all", "llvm"]), Some("check-".to_string()));
    assert_eq!(p.parse_ref("a").unwrap(), "check-all");
    assert_eq!(p.parse_ref("check-x").unwrap(), "check-x");
    assert!(p.parse_ref("x").is_err());
}

#[test]
fn settable_bool_values_parse_and_print() {
    assert!(Bool::from_str("true").unwrap().0);
    assert!(!Bool::from_str("false").unwrap().0);
    assert!(Bool::from_str("yes").is_err());
    assert!(Bool::from_str("True").is_err());
    assert_eq!(Bool(true).as_str(), "true");
    assert_eq!(Bool(false).as_str(), "false");
}

#[test]
fn quirks_spellings() {
    assert_eq!(cli::Quirks::Generic.as_str(), "none");
    assert_eq!(cli::Quirks::Llvm.as_str(), "llvm");
}
