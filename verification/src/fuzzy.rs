//! The fuzzy value matcher: resolves a raw token against an ordered set of
//! known values, either by unique case-insensitive equality (open domain) or,
//! when an inferable prefix is configured, by unique prefix abbreviation.

use vstd::prelude::*;

verus! {

use crate::strutil::{ci_eq, is_prefix_of, eq_ignore_ascii_case, starts_with, concat2};
use vstd::string::StringExecFns;

/// An ambiguous or unknown value: the token is not in the inferable-prefix
/// namespace and it abbreviates zero or several known values. Carries the
/// candidate list, headed by the open-namespace hint, for reporting.
#[derive(Debug)]
pub struct FuzzyError {
    pub value: String,
    pub valid_values: Vec<String>,
}

#[derive(Clone)]
pub struct FuzzyParser {
    pub known_values: Vec<String>,
    pub inferable_prefix: Option<String>,
}

/// The known values that case-insensitively equal `v`, in order.
pub open spec fn ci_matches(known: Seq<Seq<char>>, v: Seq<char>) -> Seq<Seq<char>> {
    known.filter(|k: Seq<char>| ci_eq(k, v))
}

/// Without an inferable prefix the domain is open: a token resolves to the
/// canonical casing of the unique known value it equals case-insensitively,
/// and otherwise stands as it is.
pub open spec fn resolve_open(known: Seq<Seq<char>>, v: Seq<char>) -> Seq<char> {
    if ci_matches(known, v).len() == 1 {
        ci_matches(known, v)[0]
    } else {
        v
    }
}

/// The known values that the abbreviation `v` is a prefix of, in order.
pub open spec fn abbrev_matches(known: Seq<Seq<char>>, v: Seq<char>) -> Seq<Seq<char>> {
    known.filter(|k: Seq<char>| is_prefix_of(v, k))
}

/// The candidate list reported on failure: the open-namespace hint
/// (`prefix` followed by `*`) where a prefix is configured, then every known
/// value, in order.
pub open spec fn spec_valid_values(prefix: Option<Seq<char>>, known: Seq<Seq<char>>) -> Seq<
    Seq<char>,
> {
    match prefix {
        Some(p) => seq![p + seq!['*']] + known,
        None => known,
    }
}

/// The failure report for `value` against `known_values`, hinting at the
/// open namespace when `prefix` is configured.
pub fn candidate_report(known_values: &Vec<String>, prefix: &Option<String>, value: &str) -> (e:
    FuzzyError)
    ensures
        e.value@ == value@,
        e.valid_values.deep_view() == spec_valid_values(
            match prefix {
                Some(p) => Some(p@),
                None => None,
            },
            known_values.deep_view(),
        ),
{
    let ghost known = known_values.deep_view();
    let mut valid_values: Vec<String> = Vec::new();
    match prefix {
        Some(p) => {
            let hint = concat2(p.as_str(), "*");
            proof {
                reveal_strlit("*");
                assert("*"@ =~= seq!['*']);
            }
            valid_values.push(hint);
        },
        None => {},
    }
    let ghost head = valid_values.deep_view();
    proof {
        assert(valid_values.deep_view() =~= head + known.take(0));
    }
    let mut i: usize = 0;
    while i < known_values.len()
        invariant
            known == known_values.deep_view(),
            known.len() == known_values.len(),
            0 <= i <= known_values.len(),
            valid_values.deep_view() == head + known.take(i as int),
        decreases known_values.len() - i,
    {
        let ghost old_vv = valid_values.deep_view();
        let next = known_values[i].clone();
        proof {
            assert(next@ == known[i as int]);
        }
        valid_values.push(next);
        proof {
            assert(valid_values.deep_view() =~= old_vv.push(known[i as int]));
            assert(valid_values.deep_view() =~= head + known.take(i as int + 1));
        }
        i += 1;
    }
    proof {
        assert(known.take(known_values.len() as int) =~= known);
        assert(valid_values.deep_view() =~= spec_valid_values(
            match prefix {
                Some(p) => Some(p@),
                None => None,
            },
            known,
        ));
    }
    FuzzyError { value: String::from_str(value), valid_values }
}

/// Open-domain resolution of `value` against `known_values`.
pub fn resolve_open_token(known_values: &Vec<String>, value: &str) -> (r: String)
    ensures
        r@ == resolve_open(known_values.deep_view(), value@),
{
    let ghost known = known_values.deep_view();
    let ghost pred = |k: Seq<char>| ci_eq(k, value@);
    let mut count: usize = 0;
    let mut found: usize = 0;
    let mut i: usize = 0;
    while i < known_values.len()
        invariant
            known == known_values.deep_view(),
            known.len() == known_values.len(),
            pred == (|k: Seq<char>| ci_eq(k, value@)),
            0 <= i <= known_values.len(),
            count == known.take(i as int).filter(pred).len(),
            count > 0 ==> found < i && known.take(i as int).filter(pred).last() == known[found as int],
        decreases known_values.len() - i,
    {
        let ghost before = known.take(i as int);
        let ghost after = known.take(i as int + 1);
        proof {
            reveal(Seq::filter);
            assert(after.drop_last() =~= before);
            assert(after.last() == known[i as int]);
        }
        if eq_ignore_ascii_case(known_values[i].as_str(), value) {
            count += 1;
            found = i;
        }
        i += 1;
    }
    proof {
        assert(known.take(known_values.len() as int) =~= known);
    }
    if count == 1 {
        proof {
            assert(known.filter(pred)[0] == known.filter(pred).last());
        }
        known_values[found].clone()
    } else {
        String::from_str(value)
    }
}

/// The index of the unique known value that `value` abbreviates, if it is
/// unique.
pub fn abbrev_unique(known_values: &Vec<String>, value: &str) -> (r: Option<usize>)
    ensures
        r is Some <==> abbrev_matches(known_values.deep_view(), value@).len() == 1,
        r matches Some(i) ==> i < known_values.len() && known_values.deep_view()[i as int]
            == abbrev_matches(known_values.deep_view(), value@)[0],
{
    let ghost known = known_values.deep_view();
    let ghost pred = |k: Seq<char>| is_prefix_of(value@, k);
    let mut count: usize = 0;
    let mut found: usize = 0;
    let mut i: usize = 0;
    while i < known_values.len()
        invariant
            known == known_values.deep_view(),
            known.len() == known_values.len(),
            pred == (|k: Seq<char>| is_prefix_of(value@, k)),
            0 <= i <= known_values.len(),
            count == known.take(i as int).filter(pred).len(),
            count > 0 ==> found < i && known.take(i as int).filter(pred).last() == known[found as int],
        decreases known_values.len() - i,
    {
        let ghost before = known.take(i as int);
        let ghost after = known.take(i as int + 1);
        proof {
            reveal(Seq::filter);
            assert(after.drop_last() =~= before);
            assert(after.last() == known[i as int]);
        }
        if starts_with(known_values[i].as_str(), value) {
            count += 1;
            found = i;
        }
        i += 1;
    }
    proof {
        assert(known.take(known_values.len() as int) =~= known);
    }
    if count == 1 {
        proof {
            assert(known.filter(pred)[0] == known.filter(pred).last());
        }
        Some(found)
    } else {
        None
    }
}

impl FuzzyParser {
    pub fn new(known_values: Vec<String>, inferable_prefix: Option<String>) -> (r: Self)
        ensures
            r.known_values == known_values,
            r.inferable_prefix == inferable_prefix,
    {
        Self { known_values, inferable_prefix }
    }

    /// The known-value set, for completion generation. The inferable-prefix
    /// namespace is legal as well but deliberately not listed here.
    pub fn possible_values(&self) -> (r: &Vec<String>)
        ensures
            r == &self.known_values,
    {
        &self.known_values
    }

    /// The failure report for `value`.
    pub fn error(&self, value: &str) -> (e: FuzzyError)
        ensures
            e.value@ == value@,
            e.valid_values.deep_view() == spec_valid_values(
                match self.inferable_prefix {
                    Some(p) => Some(p@),
                    None => None,
                },
                self.known_values.deep_view(),
            ),
    {
        candidate_report(&self.known_values, &self.inferable_prefix, value)
    }

    /// Open-domain resolution: the unique case-insensitive known match in its
    /// canonical casing, or the token unchanged.
    pub fn parse_without_inferable_prefix(&self, value: &str) -> (r: String)
        ensures
            r@ == resolve_open(self.known_values.deep_view(), value@),
    {
        resolve_open_token(&self.known_values, value)
    }

    /// Prefixed-namespace resolution: a token already carrying the prefix
    /// stands as it is; otherwise it must abbreviate exactly one known value,
    /// which it resolves to under the prefix, and anything else is refused
    /// with the candidate report.
    pub fn parse_with_inferable_prefix(&self, value: &str, inferable_prefix: &str) -> (r: Result<
        String,
        FuzzyError,
    >)
        ensures
            is_prefix_of(inferable_prefix@, value@) ==> (r matches Ok(s) && s@ == value@),
            !is_prefix_of(inferable_prefix@, value@) && abbrev_matches(
                self.known_values.deep_view(),
                value@,
            ).len() == 1 ==> (r matches Ok(s) && s@ == inferable_prefix@ + abbrev_matches(
                self.known_values.deep_view(),
                value@,
            )[0]),
            !is_prefix_of(inferable_prefix@, value@) && abbrev_matches(
                self.known_values.deep_view(),
                value@,
            ).len() != 1 ==> (r matches Err(e) && e.value@ == value@
                && e.valid_values.deep_view() == spec_valid_values(
                match self.inferable_prefix {
                    Some(p) => Some(p@),
                    None => None,
                },
                self.known_values.deep_view(),
            )),
    {
        if starts_with(value, inferable_prefix) {
            return Ok(String::from_str(value));
        }
        match abbrev_unique(&self.known_values, value) {
            Some(i) => Ok(concat2(inferable_prefix, self.known_values[i].as_str())),
            None => Err(self.error(value)),
        }
    }

    /// Resolve `value` in whichever mode this matcher was built with.
    pub fn parse_ref(&self, value: &str) -> (r: Result<String, FuzzyError>)
        ensures
            self.inferable_prefix is None ==> (r matches Ok(s) && s@ == resolve_open(
                self.known_values.deep_view(),
                value@,
            )),
            self.inferable_prefix matches Some(p) ==> {
                &&& is_prefix_of(p@, value@) ==> (r matches Ok(s) && s@ == value@)
                &&& !is_prefix_of(p@, value@) && abbrev_matches(
                    self.known_values.deep_view(),
                    value@,
                ).len() == 1 ==> (r matches Ok(s) && s@ == p@ + abbrev_matches(
                    self.known_values.deep_view(),
                    value@,
                )[0])
                &&& !is_prefix_of(p@, value@) && abbrev_matches(
                    self.known_values.deep_view(),
                    value@,
                ).len() != 1 ==> (r matches Err(e) && e.value@ == value@
                    && e.valid_values.deep_view() == spec_valid_values(
                    Some(p@),
                    self.known_values.deep_view(),
                ))
            },
    {
        match &self.inferable_prefix {
            None => Ok(self.parse_without_inferable_prefix(value)),
            Some(p) => {
                let prefix = p.clone();
                self.parse_with_inferable_prefix(value, prefix.as_str())
            },
        }
    }
}

/// The two spellings of a boolean option value.
pub open spec fn bool_str(b: bool) -> Seq<char> {
    if b {
        seq!['t', 'r', 'u', 'e']
    } else {
        seq!['f', 'a', 'l', 's', 'e']
    }
}

/// A token that is neither `true` nor `false` where a boolean was expected.
#[derive(Debug)]
pub struct BoolParseError {
    pub value: String,
}

/// A boolean argument value, spelled `true` or `false`.
#[derive(Clone, Copy)]
pub struct Bool(pub bool);

impl Bool {
    pub fn from_str(s: &str) -> (r: Result<Bool, BoolParseError>)
        ensures
            s@ == bool_str(true) ==> (r matches Ok(b) && b.0),
            s@ == bool_str(false) ==> (r matches Ok(b) && !b.0),
            s@ != bool_str(true) && s@ != bool_str(false) ==> (r matches Err(e) && e.value@ == s@),
    {
        proof {
            reveal_strlit("true");
            reveal_strlit("false");
            assert("true"@ =~= bool_str(true));
            assert("false"@ =~= bool_str(false));
        }
        if crate::strutil::str_eq(s, "true") {
            Ok(Bool(true))
        } else if crate::strutil::str_eq(s, "false") {
            Ok(Bool(false))
        } else {
            Err(BoolParseError { value: String::from_str(s) })
        }
    }

    pub fn as_str(&self) -> (r: &'static str)
        ensures
            r@ == bool_str(self.0),
    {
        proof {
            reveal_strlit("true");
            reveal_strlit("false");
            assert("true"@ =~= bool_str(true));
            assert("false"@ =~= bool_str(false));
        }
        if self.0 {
            "true"
        } else {
            "false"
        }
    }
}

/// Rebuild the argument vector that an option-set value would have been
/// parsed from, so layered defaults can be re-expressed as explicit
/// `--flag=value` tokens.
pub trait ArgsToVec {
    fn args_to_vec(&self) -> Vec<String>;
}

/// Mark a boolean option fully settable: bare flag, `=true` and `=false`
/// spellings, so a layered default can be overridden either way later.
pub trait SettableBool {
    fn settable_bool(self) -> Self;
}

/// Mark a list option overriding: a later occurrence replaces the whole
/// value instead of accumulating.
pub trait OverridingVec {
    fn overriding_vec(self) -> Self;
}

} // verus!

