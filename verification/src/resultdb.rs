//! The incremental test-selection engine: reads a snapshot of last-known
//! pass/fail records, keeps the failing ones in file order, and translates
//! each test identifier to a source-relative path through an ordered
//! first-match-wins rule table backed by the external regex engine.

use vstd::prelude::*;

verus! {

use crate::strutil::{path_join, path_join_spec};
use vstd::pervasive::unreached;
use vstd::string::StringExecFns;

/// One record of the persisted snapshot: a test identifier and whether the
/// test is expected to pass.
pub struct TestRecord {
    pub expected: bool,
    pub test_id: String,
}

/// The persisted snapshot: records in file order.
pub struct ResultDB {
    pub tests: Vec<TestRecord>,
}

/// An ordered translation rule: a pattern for the external regex engine and
/// the replacement for its leftmost match.
pub struct PathRule {
    pub pattern: String,
    pub replacement: String,
}

/// Whether `pat` is a valid pattern of the external regex engine; a function
/// of the pattern alone.
pub uninterp spec fn regex_compiles(pat: Seq<char>) -> bool;

/// Whether the pattern `pat` matches anywhere in `text`; a function of the
/// two alone.
pub uninterp spec fn regex_matches(pat: Seq<char>, text: Seq<char>) -> bool;

/// `text` with the leftmost match of `pat` replaced by `rep`; a function of
/// the three alone.
pub uninterp spec fn regex_replaced(pat: Seq<char>, text: Seq<char>, rep: Seq<char>) -> Seq<char>;

/// Relies on regex::Regex::new and regex::Regex::is_match: compiling a
/// pattern succeeds or fails on the pattern alone, and a match test depends
/// only on the pattern and the haystack.
#[verifier::external_body]
fn regex_is_match(pat: &str, text: &str) -> (r: Option<bool>)
    ensures
        r is Some <==> regex_compiles(pat@),
        r matches Some(b) ==> b == regex_matches(pat@, text@),
{
    regex::Regex::new(pat).ok().map(|re| re.is_match(text))
}

/// Relies on regex::Regex::new and regex::Regex::replace: replacing the
/// leftmost match depends only on the pattern, the haystack and the
/// replacement.
#[verifier::external_body]
fn regex_replace_first(pat: &str, text: &str, rep: &str) -> (r: Option<String>)
    ensures
        r is Some <==> regex_compiles(pat@),
        r matches Some(s) ==> s@ == regex_replaced(pat@, text@, rep@),
{
    regex::Regex::new(pat).ok().map(|re| re.replace(text, rep).into_owned())
}

/// The rule table as pairs of views.
pub open spec fn rules_view(rules: Seq<PathRule>) -> Seq<(Seq<char>, Seq<char>)> {
    rules.map_values(|r: PathRule| (r.pattern@, r.replacement@))
}

/// A rule applies when its pattern compiles and matches the identifier.
pub open spec fn rule_applies(pat: Seq<char>, id: Seq<char>) -> bool {
    regex_compiles(pat) && regex_matches(pat, id)
}

/// The path an identifier translates to: the first applicable rule rewrites
/// it and the result is joined under the source root; an identifier no rule
/// recognizes passes through unchanged, as a literal path.
pub open spec fn spec_test_path(
    rules: Seq<(Seq<char>, Seq<char>)>,
    id: Seq<char>,
    source: Seq<char>,
) -> Seq<char>
    decreases rules.len(),
{
    if rules.len() == 0 {
        id
    } else if rule_applies(rules[0].0, id) {
        path_join_spec(source, regex_replaced(rules[0].0, id, rules[0].1))
    } else {
        spec_test_path(rules.drop_first(), id, source)
    }
}

/// Translate one test identifier; see `spec_test_path`.
pub fn test_path(test_id: &str, source: &str, rules: &Vec<PathRule>) -> (r: String)
    ensures
        r@ == spec_test_path(rules_view(rules@), test_id@, source@),
{
    let ghost all = rules_view(rules@);
    proof {
        assert(all.skip(0) =~= all);
    }
    let mut i: usize = 0;
    while i < rules.len()
        invariant
            all == rules_view(rules@),
            all.len() == rules.len(),
            0 <= i <= rules.len(),
            spec_test_path(all, test_id@, source@) == spec_test_path(
                all.skip(i as int),
                test_id@,
                source@,
            ),
        decreases rules.len() - i,
    {
        let ghost rem = all.skip(i as int);
        proof {
            assert(rem[0] == all[i as int]);
            assert(rem.drop_first() =~= all.skip(i as int + 1));
        }
        let rule = &rules[i];
        match regex_is_match(rule.pattern.as_str(), test_id) {
            Some(true) => {
                match regex_replace_first(rule.pattern.as_str(), test_id, rule.replacement.as_str())
                {
                    Some(replaced) => {
                        return path_join(source, replaced.as_str());
                    },
                    None => {
                        return unreached();
                    },
                }
            },
            _ => {},
        }
        i += 1;
    }
    proof {
        assert(all.skip(rules.len() as int) =~= Seq::<(Seq<char>, Seq<char>)>::empty());
    }
    String::from_str(test_id)
}


/// The translation table, in evaluation order. Identifier namespaces map to
/// test directories relative to the source root; the suite duplicates in the
/// upstream identifier scheme are collapsed, since a repeated rule is
/// unreachable under first-match-wins.
pub open spec fn spec_translation_rules() -> Seq<(Seq<char>, Seq<char>)> {
    seq![
        ("LLVM :: "@, "test/"@),
        ("LLVM-Unit :: .*"@, "test/Unit"@),
        ("Clang :: "@, "../clang/test/"@),
        ("Clang-Unit :: .*"@, "../clang/test/Unit"@),
        ("Flang :: "@, "../flang/test/"@),
        ("flang-OldUnit :: .*"@, "../flang/test/NonGtestUnit"@),
        ("flang-Unit :: .*"@, "../flang/test/Unit"@),
        ("lld :: "@, "../lld/test/"@),
        ("lldb :: "@, "../lldb/test/"@),
        ("lldb-shell :: .*"@, "../lldb/test/Shell"@),
        ("lldb-unit :: .*"@, "../lldb/test/Unit"@),
        ("lldb-api :: .*"@, "../lldb/test/API"@),
        ("MLIR :: "@, "../mlir/test/"@),
        ("MLIR-Unit .*:: "@, "../mlir/test/Unit"@),
        ("libomptarget :: [^:]* :: "@, "../openmp/libomptarget/test/"@),
        ("ompt-test :: "@, "../openmp/libompd/test/"@),
        ("libomp :: "@, "../openmp/runtime/test/"@),
        ("OMPT multiplex :: "@, "../openmp/tools/multiplex/tests/"@),
        ("libarcher :: "@, "../openmp/tools/archer/tests/"@),
        ("Polly :: "@, "../polly/test/"@),
        ("Polly-Unit :: .*"@, "../polly/test/Unit"@),
        ("Polly - isl unit tests :: .*"@, "../polly/test/UnitIsl"@),
    ]
}

/// Build the translation table; see `spec_translation_rules`.
pub fn translation_rules() -> (r: Vec<PathRule>)
    ensures
        rules_view(r@) == spec_translation_rules(),
{
    let mut v: Vec<PathRule> = Vec::new();
    v.push(PathRule {
        pattern: String::from_str("LLVM :: "),
        replacement: String::from_str("test/"),
    });
    v.push(PathRule {
        pattern: String::from_str("LLVM-Unit :: .*"),
        replacement: String::from_str("test/Unit"),
    });
    v.push(PathRule {
        pattern: String::from_str("Clang :: "),
        replacement: String::from_str("../clang/test/"),
    });
    v.push(PathRule {
        pattern: String::from_str("Clang-Unit :: .*"),
        replacement: String::from_str("../clang/test/Unit"),
    });
    v.push(PathRule {
        pattern: String::from_str("Flang :: "),
        replacement: String::from_str("../flang/test/"),
    });
    v.push(PathRule {
        pattern: String::from_str("flang-OldUnit :: .*"),
        replacement: String::from_str("../flang/test/NonGtestUnit"),
    });
    v.push(PathRule {
        pattern: String::from_str("flang-Unit :: .*"),
        replacement: String::from_str("../flang/test/Unit"),
    });
    v.push(PathRule {
        pattern: String::from_str("lld :: "),
        replacement: String::from_str("../lld/test/"),
    });
    v.push(PathRule {
        pattern: String::from_str("lldb :: "),
        replacement: String::from_str("../lldb/test/"),
    });
    v.push(PathRule {
        pattern: String::from_str("lldb-shell :: .*"),
        replacement: String::from_str("../lldb/test/Shell"),
    });
    v.push(PathRule {
        pattern: String::from_str("lldb-unit :: .*"),
        replacement: String::from_str("../lldb/test/Unit"),
    });
    v.push(PathRule {
        pattern: String::from_str("lldb-api :: .*"),
        replacement: String::from_str("../lldb/test/API"),
    });
    v.push(PathRule {
        pattern: String::from_str("MLIR :: "),
        replacement: String::from_str("../mlir/test/"),
    });
    v.push(PathRule {
        pattern: String::from_str("MLIR-Unit .*:: "),
        replacement: String::from_str("../mlir/test/Unit"),
    });
    v.push(PathRule {
        pattern: String::from_str("libomptarget :: [^:]* :: "),
        replacement: String::from_str("../openmp/libomptarget/test/"),
    });
    v.push(PathRule {
        pattern: String::from_str("ompt-test :: "),
        replacement: String::from_str("../openmp/libompd/test/"),
    });
    v.push(PathRule {
        pattern: String::from_str("libomp :: "),
        replacement: String::from_str("../openmp/runtime/test/"),
    });
    v.push(PathRule {
        pattern: String::from_str("OMPT multiplex :: "),
        replacement: String::from_str("../openmp/tools/multiplex/tests/"),
    });
    v.push(PathRule {
        pattern: String::from_str("libarcher :: "),
        replacement: String::from_str("../openmp/tools/archer/tests/"),
    });
    v.push(PathRule {
        pattern: String::from_str("Polly :: "),
        replacement: String::from_str("../polly/test/"),
    });
    v.push(PathRule {
        pattern: String::from_str("Polly-Unit :: .*"),
        replacement: String::from_str("../polly/test/Unit"),
    });
    v.push(PathRule {
        pattern: String::from_str("Polly - isl unit tests :: .*"),
        replacement: String::from_str("../polly/test/UnitIsl"),
    });
    proof {
        assert(rules_view(v@) =~= spec_translation_rules());
    }
    v
}

/// The identifiers of the failing records, in file order.
pub open spec fn failing_ids(tests: Seq<TestRecord>) -> Seq<Seq<char>> {
    tests.filter(|t: TestRecord| !t.expected).map_values(|t: TestRecord| t.test_id@)
}

/// The failing identifiers of a snapshot, in file order.
pub fn failing_ids_vec(db: &ResultDB) -> (r: Vec<String>)
    ensures
        r.deep_view() == failing_ids(db.tests@),
{
    let ghost tests = db.tests@;
    let ghost pred = |t: TestRecord| !t.expected;
    let ghost toid = |t: TestRecord| t.test_id@;
    let mut r: Vec<String> = Vec::new();
    let mut i: usize = 0;
    proof {
        reveal(Seq::filter);
        assert(tests.take(0).filter(pred) =~= Seq::<TestRecord>::empty());
        assert(r.deep_view() =~= tests.take(0).filter(pred).map_values(toid));
    }
    while i < db.tests.len()
        invariant
            tests == db.tests@,
            tests.len() == db.tests.len(),
            pred == (|t: TestRecord| !t.expected),
            toid == (|t: TestRecord| t.test_id@),
            0 <= i <= tests.len(),
            r.deep_view() == tests.take(i as int).filter(pred).map_values(toid),
        decreases db.tests.len() - i,
    {
        let ghost before = tests.take(i as int);
        let ghost after = tests.take(i as int + 1);
        proof {
            reveal(Seq::filter);
            assert(after.drop_last() =~= before);
            assert(after.last() == tests[i as int]);
        }
        if !db.tests[i].expected {
            let ghost rd = r.deep_view();
            r.push(db.tests[i].test_id.clone());
            proof {
                assert(r.deep_view() =~= rd.push(toid(tests[i as int])));
                assert(after.filter(pred).map_values(toid) =~= before.filter(pred).map_values(
                    toid,
                ).push(toid(tests[i as int])));
            }
        }
        i += 1;
    }
    proof {
        assert(tests.take(tests.len() as int) =~= tests);
    }
    r
}

/// The selected test paths from a snapshot: the failing records in file
/// order, truncated to the first when asked, each translated through the
/// rule table under the source root.
pub open spec fn spec_selected(
    tests: Seq<TestRecord>,
    first_only: bool,
    source: Seq<char>,
    rules: Seq<(Seq<char>, Seq<char>)>,
) -> Seq<Seq<char>> {
    let failing = failing_ids(tests);
    let limited = if first_only {
        failing.take(if failing.len() > 0 {
            1
        } else {
            0
        })
    } else {
        failing
    };
    limited.map_values(|id: Seq<char>| spec_test_path(rules, id, source))
}

/// The ordered test targets to run. Explicit tests are returned unchanged
/// and the snapshot is not consulted; with no explicit tests an absent
/// snapshot degrades to no targets, and a present one is selected as
/// `spec_selected` says.
pub fn select(
    explicit_tests: &Vec<String>,
    first_only: bool,
    db: &Option<ResultDB>,
    source: &str,
    rules: &Vec<PathRule>,
) -> (r: Vec<String>)
    ensures
        explicit_tests.len() > 0 ==> r.deep_view() == explicit_tests.deep_view(),
        explicit_tests.len() == 0 ==> r.deep_view() == (match db {
            Some(d) => spec_selected(d.tests@, first_only, source@, rules_view(rules@)),
            None => Seq::<Seq<char>>::empty(),
        }),
{
    if explicit_tests.len() > 0 {
        let mut r: Vec<String> = Vec::new();
        crate::strutil::append_all(&mut r, explicit_tests);
        proof {
            assert(r.deep_view() =~= explicit_tests.deep_view());
        }
        return r;
    }
    let d = match db {
        Some(d) => d,
        None => {
            return Vec::new();
        },
    };
    let ghost tests = d.tests@;
    let ghost pred = |t: TestRecord| !t.expected;
    let ghost toid = |t: TestRecord| t.test_id@;
    let ghost rules_v = rules_view(rules@);
    let ghost topath = |id: Seq<char>| spec_test_path(rules_v, id, source@);
    let mut r: Vec<String> = Vec::new();
    let mut i: usize = 0;
    proof {
        reveal(Seq::filter);
        assert(tests.take(0).filter(pred) =~= Seq::<TestRecord>::empty());
        assert(r.deep_view() =~= spec_selected(tests.take(0), first_only, source@, rules_v));
    }
    while i < d.tests.len()
        invariant
            tests == d.tests@,
            tests.len() == d.tests.len(),
            pred == (|t: TestRecord| !t.expected),
            toid == (|t: TestRecord| t.test_id@),
            rules_v == rules_view(rules@),
            topath == (|id: Seq<char>| spec_test_path(rules_v, id, source@)),
            0 <= i <= tests.len(),
            r.deep_view() == spec_selected(tests.take(i as int), first_only, source@, rules_v),
            first_only ==> r.len() <= 1,
            r.len() <= tests.take(i as int).filter(pred).len(),
        decreases d.tests.len() - i,
    {
        let ghost before = tests.take(i as int);
        let ghost after = tests.take(i as int + 1);
        proof {
            reveal(Seq::filter);
            assert(after.drop_last() =~= before);
            assert(after.last() == tests[i as int]);
        }
        if !d.tests[i].expected {
            proof {
                assert(after.filter(pred) =~= before.filter(pred).push(tests[i as int]));
                assert(failing_ids(after) =~= failing_ids(before).push(toid(tests[i as int])));
            }
            if !first_only || r.len() == 0 {
                let ghost rd = r.deep_view();
                let p = test_path(d.tests[i].test_id.as_str(), source, rules);
                r.push(p);
                proof {
                    assert(r.deep_view() =~= rd.push(topath(toid(tests[i as int]))));
                    if first_only {
                        assert(failing_ids(before).len() == 0);
                        assert(failing_ids(after).take(1) =~= seq![toid(tests[i as int])]);
                        assert(r.deep_view() =~= spec_selected(after, first_only, source@, rules_v));
                    } else {
                        assert(failing_ids(after).map_values(topath) =~= failing_ids(
                            before,
                        ).map_values(topath).push(topath(toid(tests[i as int]))));
                    }
                }
            } else {
                proof {
                    assert(failing_ids(before).len() >= 1);
                    assert(failing_ids(after).take(1) =~= failing_ids(before).take(1));
                }
            }
        }
        i += 1;
    }
    proof {
        assert(tests.take(tests.len() as int) =~= tests);
    }
    r
}

/// Whether a run should write the result database afterwards: yes by
/// default, but not when an explicit subset (first-only or named tests) was
/// selected, since re-running a subset must not be read as a full pass.
pub fn default_update_resultdb(first_only: bool, has_explicit_tests: bool) -> (r: bool)
    ensures
        r == !(first_only || has_explicit_tests),
{
    !(first_only || has_explicit_tests)
}

} // verus!
