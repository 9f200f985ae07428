use cm::resultdb::{
    default_update_resultdb, failing_ids_vec, select, test_path, translation_rules, ResultDB,
    TestRecord,
};

fn strings(v: &[&str]) -> Vec<String> {
    v.iter().map(|s| s.to_string()).collect()
}

fn record(expected: bool, test_id: &str) -> TestRecord {
    TestRecord { expected, test_id: test_id.to_string() }
}

fn snapshot() -> ResultDB {
    ResultDB {
        tests: vec![
            record(false, "LLVM :: a.c"),
            record(true, "LLVM :: b.c"),
            record(false, "LLVM :: c.c"),
        ],
    }
}

#[test]
fn failing_records_select_in_file_order() {
    let rules = translation_rules();
    let picked = select(&strings(&[]), false, &Some(snapshot()), "", &rules);
    assert_eq!(picked, strings(&["test/a.c", "test/c.c"]));
}

#[test]
fn first_only_selects_the_first_failing_record() {
    let rules = translation_rules();
    let picked = select(&strings(&[]), true, &Some(snapshot()), "", &rules);
    assert_eq!(picked, strings(&["test/a.c"]));
}

#[test]
fn explicit_tests_bypass_the_snapshot() {
    let rules = translation_rules();
    let picked = select(
        &strings(&["my/own.c"]),
        false,
        &Some(snapshot()),
        "",
        &rules,
    );
    assert_eq!(picked, strings(&["my/own.c"]));
}

#[test]
fn missing_snapshot_degrades_to_no_targets() {
    let rules = translation_rules();
    let picked = select(&strings(&[]), false, &None, "", &rules);
    assert_eq!(picked, Vec::<String>::new());
}

#[test]
fn selection_joins_translations_under_the_source_root() {
    let rules = translation_rules();
    let picked = select(&strings(&[]), false, &Some(snapshot()), "llvm", &rules);
    assert_eq!(picked, strings(&["llvm/test/a.c", "llvm/test/c.c"]));
}

#[test]
fn identifier_namespaces_translate_to_test_directories() {
    let rules = translation_rules();
    assert_eq!(test_path("LLVM :: x/y.ll", "", &rules), "test/x/y.ll");
    assert_eq!(test_path("Clang :: z.cpp", "", &rules), "../clang/test/z.cpp");
    assert_eq!(test_path("lld :: a.s", "", &rules), "../lld/test/a.s");
    assert_eq!(test_path("Polly :: p.ll", "", &rules), "../polly/test/p.ll");
}

#[test]
fn unit_suite_identifiers_collapse_to_the_suite_directory() {
    let rules = translation_rules();
    assert_eq!(
        test_path("LLVM-Unit :: Support/./SomeTest/0", "", &rules),
        "test/Unit"
    );
    assert_eq!(
        test_path("lldb-api :: functionalities/whatever", "", &rules),
        "../lldb/test/API"
    );
}

#[test]
fn unrecognized_identifiers_pass_through_as_literal_paths() {
    let rules = translation_rules();
    assert_eq!(test_path("some/literal/path.c", "src", &rules), "some/literal/path.c");
}

#[test]
fn libomptarget_identifiers_drop_the_architecture_segment() {
    let rules = translation_rules();
    assert_eq!(
        test_path("libomptarget :: x86_64-pc-linux-gnu :: offloading/test.c", "", &rules),
        "../openmp/libomptarget/test/offloading/test.c"
    );
}

#[test]
fn failing_identifiers_keep_file_order() {
    let ids = failing_ids_vec(&snapshot());
    assert_eq!(ids, strings(&["LLVM :: a.c", "LLVM :: c.c"]));
}

#[test]
fn update_defaults_to_true_only_for_full_runs() {
    assert!(default_update_resultdb(false, false));
    assert!(!default_update_resultdb(true, false));
    assert!(!default_update_resultdb(false, true));
    assert!(!default_update_resultdb(true, true));
}
