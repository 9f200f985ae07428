//! The resolved command-line surface: global options, one struct per
//! subcommand, and the quirks mode. The argument-grammar front end that fills
//! these in is an external collaborator; everything here is plain data and
//! the pure rules over it.

use vstd::prelude::*;

verus! {

use crate::fuzzy::{FuzzyError, abbrev_matches, candidate_report, abbrev_unique, spec_valid_values};
use crate::strutil::{is_prefix_of, starts_with, concat2};
use vstd::string::StringExecFns;

/// The project-shape quirks mode: a generic project, or one needing the
/// specific accommodations of an LLVM-style source tree.
#[derive(Clone, Copy, Debug, PartialEq, Eq, Structural)]
pub enum Quirks {
    Generic,
    Llvm,
}

/// The spelling of a quirks mode as an option value.
pub open spec fn quirks_str(q: Quirks) -> Seq<char> {
    match q {
        Quirks::Generic => seq!['n', 'o', 'n', 'e'],
        Quirks::Llvm => seq!['l', 'l', 'v', 'm'],
    }
}

impl Quirks {
    pub fn as_str(&self) -> (r: &'static str)
        ensures
            r@ == quirks_str(*self),
    {
        proof {
            reveal_strlit("none");
            reveal_strlit("llvm");
            assert("none"@ =~= quirks_str(Quirks::Generic));
            assert("llvm"@ =~= quirks_str(Quirks::Llvm));
        }
        match self {
            Quirks::Generic => "none",
            Quirks::Llvm => "llvm",
        }
    }
}

/// The global options, shared by every subcommand.
pub struct Cli {
    /// Source directory, if given explicitly.
    pub source: Option<String>,
    /// Binary (build) directory, if given explicitly.
    pub binary: Option<String>,
    /// Build config; the front end defaults it to `Release`.
    pub config: String,
    /// Shorthand that forces the `Debug` config.
    pub debug: bool,
    /// Print the plan instead of executing it.
    pub dry_run: bool,
    /// Explicit quirks mode, bypassing detection.
    pub quirks: Option<Quirks>,
    /// The subcommand.
    pub command: Command,
}

/// The build config that every planned command uses: `Debug` when the
/// shorthand is set, the configured value otherwise.
pub open spec fn spec_final_config(cli: &Cli) -> Seq<char> {
    if cli.debug {
        seq!['D', 'e', 'b', 'u', 'g']
    } else {
        cli.config@
    }
}

impl Cli {
    pub fn final_config(&self) -> (r: String)
        ensures
            r@ == spec_final_config(self),
    {
        if self.debug {
            proof {
                reveal_strlit("Debug");
                assert("Debug"@ =~= spec_final_config(self));
            }
            String::from_str("Debug")
        } else {
            self.config.clone()
        }
    }
}

pub enum Command {
    Configure(Configure),
    Build(Build),
    Lit(Lit),
    Activate(Activate),
    Deactivate(Deactivate),
}

/// Options of the configure subcommand.
pub struct Configure {
    /// Entries joined into the prefix-path cache variable.
    pub prefix_path: Vec<String>,
    /// Generator name.
    pub generator: String,
    /// Shorthand that forces the `Unix Makefiles` generator.
    pub makefiles: bool,
    /// Extra compiler flags, appended to both language flag variables.
    pub flag: Vec<String>,
    /// Enable the address and undefined-behavior sanitizers.
    pub san: bool,
    /// Enable expensive checks.
    pub expensive_checks: bool,
    /// Projects to enable; a documented default set applies when absent.
    pub enable_projects: Option<Vec<String>>,
    /// Targets to build; the host-native target is implied when any is given.
    pub targets_to_build: Option<Vec<String>>,
    /// Targets to build, verbatim, without the implied host-native target.
    pub targets_to_build_alt: Option<Vec<String>>,
    /// Trailing arguments forwarded verbatim.
    pub args: Vec<String>,
}

/// Options of the build subcommand.
pub struct Build {
    /// Trailing arguments forwarded to the build tool.
    pub args: Vec<String>,
}

/// Options of the test-selection subcommand.
pub struct Lit {
    /// Print the selected tests instead of running them.
    pub print_only: bool,
    /// Print a shell line exporting the expected-failure list.
    pub xfail_export: bool,
    /// Write the result database after the run.
    pub update_resultdb: bool,
    /// Run a named test group through the build tool instead.
    pub group: Option<String>,
    /// Select at most the first failing test.
    pub first: bool,
    /// Fully verbose test output.
    pub verbose: bool,
    /// Explicit test paths; when given, the result database is not consulted.
    pub tests: Vec<String>,
    /// Trailing arguments forwarded to the test runner.
    pub args: Vec<String>,
}

/// The subcommand that prints shell statements entering the global options.
pub struct Activate {}

/// The subcommand that prints shell statements undoing an activation.
pub struct Deactivate {}

/// A value parser over an incomplete known-value set where, unlike the open
/// matcher, a token without the inferrable prefix must abbreviate exactly one
/// known value, and a token is otherwise taken as typed.
#[derive(Clone)]
pub struct FuzzyParser {
    pub known_values: Vec<String>,
    pub inferrable_prefix: Option<String>,
}

impl FuzzyParser {
    pub fn new(known_values: Vec<String>, inferrable_prefix: Option<String>) -> (r: Self)
        ensures
            r.known_values == known_values,
            r.inferrable_prefix == inferrable_prefix,
    {
        Self { known_values, inferrable_prefix }
    }

    /// The known-value set, for completion generation.
    pub fn possible_values(&self) -> (r: &Vec<String>)
        ensures
            r == &self.known_values,
    {
        &self.known_values
    }

    /// The failure report for `value`.
    pub fn error(&self, value: &str) -> (e: FuzzyError)
        ensures
            e.value@ == value@,
            e.valid_values.deep_view() == spec_valid_values(
                match self.inferrable_prefix {
                    Some(p) => Some(p@),
                    None => None,
                },
                self.known_values.deep_view(),
            ),
    {
        candidate_report(&self.known_values, &self.inferrable_prefix, value)
    }

    /// Without an inferrable prefix any token is legal and stands as typed.
    pub fn parse_ref_without_inferrable_prefix(&self, value: &str) -> (r: Result<
        String,
        FuzzyError,
    >)
        ensures
            r matches Ok(s) && s@ == value@,
    {
        Ok(String::from_str(value))
    }

    /// Prefixed-namespace resolution, as in the open matcher's prefixed mode.
    pub fn parse_ref_with_inferrable_prefix(&self, value: &str, inferrable_prefix: &str) -> (r:
        Result<String, FuzzyError>)
        ensures
            is_prefix_of(inferrable_prefix@, value@) ==> (r matches Ok(s) && s@ == value@),
            !is_prefix_of(inferrable_prefix@, value@) && abbrev_matches(
                self.known_values.deep_view(),
                value@,
            ).len() == 1 ==> (r matches Ok(s) && s@ == inferrable_prefix@ + abbrev_matches(
                self.known_values.deep_view(),
                value@,
            )[0]),
            !is_prefix_of(inferrable_prefix@, value@) && abbrev_matches(
                self.known_values.deep_view(),
                value@,
            ).len() != 1 ==> (r matches Err(e) && e.value@ == value@
                && e.valid_values.deep_view() == spec_valid_values(
                match self.inferrable_prefix {
                    Some(p) => Some(p@),
                    None => None,
                },
                self.known_values.deep_view(),
            )),
    {
        if starts_with(value, inferrable_prefix) {
            return Ok(String::from_str(value));
        }
        match abbrev_unique(&self.known_values, value) {
            Some(i) => Ok(concat2(inferrable_prefix, self.known_values[i].as_str())),
            None => Err(self.error(value)),
        }
    }

    /// Resolve `value` in whichever mode this parser was built with.
    pub fn parse_ref(&self, value: &str) -> (r: Result<String, FuzzyError>)
        ensures
            self.inferrable_prefix is None ==> (r matches Ok(s) && s@ == value@),
            self.inferrable_prefix matches Some(p) ==> {
                &&& is_prefix_of(p@, value@) ==> (r matches Ok(s) && s@ == value@)
                &&& !is_prefix_of(p@, value@) && abbrev_matches(
                    self.known_values.deep_view(),
                    value@,
                ).len() == 1 ==> (r matches Ok(s) && s@ == p@ + abbrev_matches(
                    self.known_values.deep_view(),
                    value@,
                )[0])
                &&& !is_prefix_of(p@, value@) && abbrev_matches(
                    self.known_values.deep_view(),
                    value@,
                ).len() != 1 ==> (r matches Err(e) && e.value@ == value@
                    && e.valid_values.deep_view() == spec_valid_values(
                    Some(p@),
                    self.known_values.deep_view(),
                ))
            },
    {
        match &self.inferrable_prefix {
            None => self.parse_ref_without_inferrable_prefix(value),
            Some(p) => {
                let prefix = p.clone();
                self.parse_ref_with_inferrable_prefix(value, prefix.as_str())
            },
        }
    }
}

} // verus!
