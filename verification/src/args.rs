//! The layered argument resolver: a line-oriented config file partitioned
//! into sections, global defaults re-expressed as explicit `--flag=value`
//! tokens, and the ordering that makes later layers win under the front
//! end's last-occurrence-wins semantics.

use vstd::prelude::*;

verus! {

use crate::cli::{Quirks, quirks_str};
use crate::fuzzy::{Bool, bool_str};
use crate::strutil::{is_prefix_of, starts_with, concat2, append_all};
use vstd::string::StrSliceExecFns;
use vstd::string::StringExecFns;

/// A config line starting with `-` is an argument of the current section.
pub open spec fn is_argument_line(line: Seq<char>) -> bool {
    line.len() > 0 && line[0] == '-'
}

/// ASCII whitespace, as trimmed off config lines.
pub open spec fn is_space(c: char) -> bool {
    c == ' ' || c == '\t' || c == '\n' || c == '\r' || c == '\u{b}' || c == '\u{c}'
}

/// A config line that is blank or whose first non-blank character is `#` is
/// skipped.
pub open spec fn is_skip_line(line: Seq<char>) -> bool
    decreases line.len(),
{
    if line.len() == 0 {
        true
    } else if is_space(line[0]) {
        is_skip_line(line.drop_first())
    } else {
        line[0] == '#'
    }
}

/// Arguments of the empty (global) section apply everywhere; others apply
/// when the invoked subcommand token is a prefix of the section label.
pub open spec fn section_matches(section: Seq<char>, sub: Seq<char>) -> bool {
    section.len() == 0 || is_prefix_of(sub, section)
}

/// The arguments that a scan of `lines` yields for subcommand `sub`,
/// starting in section `section`: argument lines of matching sections in
/// file order, with any other non-skipped line relabelling the section.
pub open spec fn slurp_from(lines: Seq<Seq<char>>, sub: Seq<char>, section: Seq<char>) -> Seq<
    Seq<char>,
>
    decreases lines.len(),
{
    if lines.len() == 0 {
        Seq::empty()
    } else {
        let line = lines[0];
        let rest = lines.drop_first();
        if is_argument_line(line) {
            if section_matches(section, sub) {
                seq![line] + slurp_from(rest, sub, section)
            } else {
                slurp_from(rest, sub, section)
            }
        } else if is_skip_line(line) {
            slurp_from(rest, sub, section)
        } else {
            slurp_from(rest, sub, line)
        }
    }
}

/// The arguments the whole file yields for `sub`: the scan starts in the
/// global section.
pub open spec fn config_args(lines: Seq<Seq<char>>, sub: Seq<char>) -> Seq<Seq<char>> {
    slurp_from(lines, sub, Seq::empty())
}

fn space_char(c: char) -> (r: bool)
    ensures
        r == is_space(c),
{
    c == ' ' || c == '\t' || c == '\n' || c == '\r' || c == '\u{b}' || c == '\u{c}'
}

proof fn lemma_skip_line_tail(line: Seq<char>, i: int)
    requires
        0 <= i <= line.len(),
        forall|j: int| 0 <= j < i ==> is_space(line[j]),
    ensures
        is_skip_line(line) == is_skip_line(line.skip(i)),
    decreases i,
{
    if i > 0 {
        lemma_skip_line_tail(line, i - 1);
        assert(line.skip(i - 1).drop_first() =~= line.skip(i));
    } else {
        assert(line.skip(0) =~= line);
    }
}

fn line_is_skip(line: &str) -> (r: bool)
    ensures
        r == is_skip_line(line@),
{
    let len = line.unicode_len();
    let mut i: usize = 0;
    while i < len
        invariant
            len == line@.len(),
            0 <= i <= len,
            forall|j: int| 0 <= j < i ==> is_space(line@[j]),
        decreases len - i,
    {
        let c = line.get_char(i);
        if !space_char(c) {
            proof {
                lemma_skip_line_tail(line@, i as int);
                assert(line@.skip(i as int)[0] == line@[i as int]);
            }
            return c == '#';
        }
        i += 1;
    }
    proof {
        lemma_skip_line_tail(line@, len as int);
        assert(line@.skip(len as int) =~= Seq::<char>::empty());
    }
    true
}

fn line_is_argument(line: &str) -> (r: bool)
    ensures
        r == is_argument_line(line@),
{
    line.unicode_len() > 0 && line.get_char(0) == '-'
}

fn in_section(section: &str, subcommand_prefix: &str) -> (r: bool)
    ensures
        r == section_matches(section@, subcommand_prefix@),
{
    section.unicode_len() == 0 || starts_with(section, subcommand_prefix)
}

/// The config-file layer: the lines of the directive file, or nothing when
/// no file is configured (which yields no arguments and is not an error).
pub struct Config {
    pub lines: Option<Vec<String>>,
}

/// The arguments the layer yields for `sub`.
pub open spec fn config_args_of(config: &Config, sub: Seq<char>) -> Seq<Seq<char>> {
    match config.lines {
        Some(lines) => config_args(lines.deep_view(), sub),
        None => Seq::empty(),
    }
}

impl Config {
    /// Append every argument applying to `subcommand_prefix` onto `out`, in
    /// file order.
    pub fn slurp_into(&self, subcommand_prefix: &str, out: &mut Vec<String>)
        ensures
            final(out).deep_view() == old(out).deep_view() + config_args_of(
                self,
                subcommand_prefix@,
            ),
    {
        let lines = match &self.lines {
            Some(lines) => lines,
            None => {
                proof {
                    assert(out.deep_view() =~= out.deep_view() + Seq::<Seq<char>>::empty());
                }
                return ;
            },
        };
        let ghost all = lines.deep_view();
        let ghost base = out.deep_view();
        let ghost sub = subcommand_prefix@;
        let mut section = String::new();
        let mut i: usize = 0;
        proof {
            assert(all.skip(0) =~= all);
        }
        while i < lines.len()
            invariant
                all == lines.deep_view(),
                all.len() == lines.len(),
                sub == subcommand_prefix@,
                0 <= i <= lines.len(),
                base + config_args(all, sub) == out.deep_view() + slurp_from(
                    all.skip(i as int),
                    sub,
                    section@,
                ),
            decreases lines.len() - i,
        {
            let ghost rem = all.skip(i as int);
            proof {
                assert(rem[0] == all[i as int]);
                assert(rem.drop_first() =~= all.skip(i as int + 1));
            }
            let line = &lines[i];
            if line_is_argument(line.as_str()) {
                if in_section(section.as_str(), subcommand_prefix) {
                    let ghost before = out.deep_view();
                    out.push(line.clone());
                    proof {
                        assert(out.deep_view() =~= before.push(all[i as int]));
                        assert(before.push(all[i as int]) + slurp_from(
                            all.skip(i as int + 1),
                            sub,
                            section@,
                        ) =~= before + (seq![all[i as int]] + slurp_from(
                            all.skip(i as int + 1),
                            sub,
                            section@,
                        )));
                    }
                }
            } else if line_is_skip(line.as_str()) {
            } else {
                section = line.clone();
            }
            i += 1;
        }
        proof {
            assert(all.skip(lines.len() as int) =~= Seq::<Seq<char>>::empty());
            assert(out.deep_view() + Seq::<Seq<char>>::empty() =~= out.deep_view());
        }
    }
}

/// The global options as the front end hands them back before resolution,
/// each optional so that only explicitly supplied values are re-expressed.
pub struct Globals {
    pub source: Option<String>,
    pub binary: Option<String>,
    pub config: Option<String>,
    pub debug: Option<Bool>,
    pub dry_run: Option<Bool>,
    pub quirks: Option<Quirks>,
}

/// One `--flag=value` token when the value is present, nothing otherwise.
pub open spec fn opt_flag_arg(name: Seq<char>, v: Option<Seq<char>>) -> Seq<Seq<char>> {
    match v {
        Some(s) => seq![name + s],
        None => Seq::empty(),
    }
}

/// Every supplied global option re-expressed as an explicit `--flag=value`
/// token, in a fixed field order.
pub open spec fn globals_args(g: &Globals) -> Seq<Seq<char>> {
    opt_flag_arg(
        "--source="@,
        match g.source {
            Some(s) => Some(s@),
            None => None,
        },
    ) + opt_flag_arg(
        "--binary="@,
        match g.binary {
            Some(s) => Some(s@),
            None => None,
        },
    ) + opt_flag_arg(
        "--config="@,
        match g.config {
            Some(s) => Some(s@),
            None => None,
        },
    ) + opt_flag_arg(
        "--debug="@,
        match g.debug {
            Some(b) => Some(bool_str(b.0)),
            None => None,
        },
    ) + opt_flag_arg(
        "--dry-run="@,
        match g.dry_run {
            Some(b) => Some(bool_str(b.0)),
            None => None,
        },
    ) + opt_flag_arg(
        "--quirks="@,
        match g.quirks {
            Some(q) => Some(quirks_str(q)),
            None => None,
        },
    )
}

impl Globals {
    /// Rebuild the explicit `--flag=value` tokens for every supplied global.
    pub fn args_to_vec(&self) -> (r: Vec<String>)
        ensures
            r.deep_view() == globals_args(self),
    {
        let mut v: Vec<String> = Vec::new();
        let ghost s0 = Seq::<Seq<char>>::empty();
        match &self.source {
            Some(s) => v.push(concat2("--source=", s.as_str())),
            None => {},
        }
        let ghost s1 = opt_flag_arg(
            "--source="@,
            match &self.source {
                Some(s) => Some(s@),
                None => None,
            },
        );
        proof {
            assert(v.deep_view() =~= s1);
        }
        match &self.binary {
            Some(s) => v.push(concat2("--binary=", s.as_str())),
            None => {},
        }
        let ghost s2 = s1 + opt_flag_arg(
            "--binary="@,
            match &self.binary {
                Some(s) => Some(s@),
                None => None,
            },
        );
        proof {
            assert(v.deep_view() =~= s2);
        }
        match &self.config {
            Some(s) => v.push(concat2("--config=", s.as_str())),
            None => {},
        }
        let ghost s3 = s2 + opt_flag_arg(
            "--config="@,
            match &self.config {
                Some(s) => Some(s@),
                None => None,
            },
        );
        proof {
            assert(v.deep_view() =~= s3);
        }
        match &self.debug {
            Some(b) => v.push(concat2("--debug=", b.as_str())),
            None => {},
        }
        let ghost s4 = s3 + opt_flag_arg(
            "--debug="@,
            match self.debug {
                Some(b) => Some(bool_str(b.0)),
                None => None,
            },
        );
        proof {
            assert(v.deep_view() =~= s4);
        }
        match &self.dry_run {
            Some(b) => v.push(concat2("--dry-run=", b.as_str())),
            None => {},
        }
        let ghost s5 = s4 + opt_flag_arg(
            "--dry-run="@,
            match self.dry_run {
                Some(b) => Some(bool_str(b.0)),
                None => None,
            },
        );
        proof {
            assert(v.deep_view() =~= s5);
        }
        match &self.quirks {
            Some(q) => v.push(concat2("--quirks=", q.as_str())),
            None => {},
        }
        proof {
            assert(v.deep_view() =~= globals_args(self));
        }
        v
    }
}

impl Globals {
    /// Fill every unset option from `fallback`, field by field: explicitly
    /// supplied values win over environment-sourced defaults.
    pub fn or(self, fallback: Globals) -> (r: Globals)
        ensures
            r.source == (if self.source is Some {
                self.source
            } else {
                fallback.source
            }),
            r.binary == (if self.binary is Some {
                self.binary
            } else {
                fallback.binary
            }),
            r.config == (if self.config is Some {
                self.config
            } else {
                fallback.config
            }),
            r.debug == (if self.debug is Some {
                self.debug
            } else {
                fallback.debug
            }),
            r.dry_run == (if self.dry_run is Some {
                self.dry_run
            } else {
                fallback.dry_run
            }),
            r.quirks == (if self.quirks is Some {
                self.quirks
            } else {
                fallback.quirks
            }),
    {
        Globals {
            source: match self.source {
                Some(s) => Some(s),
                None => fallback.source,
            },
            binary: match self.binary {
                Some(s) => Some(s),
                None => fallback.binary,
            },
            config: match self.config {
                Some(s) => Some(s),
                None => fallback.config,
            },
            debug: match self.debug {
                Some(b) => Some(b),
                None => fallback.debug,
            },
            dry_run: match self.dry_run {
                Some(b) => Some(b),
                None => fallback.dry_run,
            },
            quirks: match self.quirks {
                Some(q) => Some(q),
                None => fallback.quirks,
            },
        }
    }
}

impl crate::fuzzy::ArgsToVec for Globals {
    fn args_to_vec(&self) -> Vec<String> {
        Globals::args_to_vec(self)
    }
}

/// The final argument vector for a subcommand invocation: program and
/// subcommand token, then the config-file layer, then the re-expressed
/// globals, then any help flags, then the literal trailing tokens. Later
/// entries win under the front end's last-occurrence-wins rule, so the
/// config file is the weakest layer and literal user input the strongest.
pub open spec fn assembled_args(
    program: Option<Seq<char>>,
    sub: Seq<char>,
    cfg: Seq<Seq<char>>,
    globals: &Globals,
    help_short: bool,
    help_long: bool,
    sub_args: Seq<Seq<char>>,
) -> Seq<Seq<char>> {
    (match program {
        Some(p) => seq![p],
        None => Seq::empty(),
    }) + seq![sub] + cfg + globals_args(globals) + (if help_short {
        seq!["-h"@]
    } else {
        Seq::empty()
    }) + (if help_long {
        seq!["--help"@]
    } else {
        Seq::empty()
    }) + sub_args
}

/// Assemble the final argument vector; see `assembled_args` for the layering.
pub fn assemble_args(
    program: &Option<String>,
    sub: &str,
    config: &Config,
    globals: &Globals,
    help_short: bool,
    help_long: bool,
    sub_args: &Vec<String>,
) -> (r: Vec<String>)
    ensures
        r.deep_view() == assembled_args(
            match program {
                Some(p) => Some(p@),
                None => None,
            },
            sub@,
            config_args_of(config, sub@),
            globals,
            help_short,
            help_long,
            sub_args.deep_view(),
        ),
{
    let ghost gprog = match program {
        Some(p) => Some(p@),
        None => None,
    };
    let mut v: Vec<String> = Vec::new();
    match program {
        Some(p) => v.push(p.clone()),
        None => {},
    }
    v.push(String::from_str(sub));
    let ghost s1 = (match gprog {
        Some(p) => seq![p],
        None => Seq::<Seq<char>>::empty(),
    }) + seq![sub@];
    proof {
        assert(v.deep_view() =~= s1);
    }
    config.slurp_into(sub, &mut v);
    let ghost s2 = s1 + config_args_of(config, sub@);
    let g = globals.args_to_vec();
    append_all(&mut v, &g);
    let ghost s3 = s2 + globals_args(globals);
    if help_short {
        v.push(String::from_str("-h"));
    }
    let ghost s4 = s3 + (if help_short {
        seq!["-h"@]
    } else {
        Seq::<Seq<char>>::empty()
    });
    proof {
        assert(v.deep_view() =~= s4);
    }
    if help_long {
        v.push(String::from_str("--help"));
    }
    let ghost s5 = s4 + (if help_long {
        seq!["--help"@]
    } else {
        Seq::<Seq<char>>::empty()
    });
    proof {
        assert(v.deep_view() =~= s5);
    }
    append_all(&mut v, sub_args);
    proof {
        assert(v.deep_view() =~= assembled_args(
            gprog,
            sub@,
            config_args_of(config, sub@),
            globals,
            help_short,
            help_long,
            sub_args.deep_view(),
        ));
    }
    v
}

/// The value that argument token `arg` supplies for option `flag`: the text
/// after `flag=`, or `true` for the bare settable-boolean spelling.
pub open spec fn arg_gives(arg: Seq<char>, flag: Seq<char>) -> Option<Seq<char>> {
    if arg == flag {
        Some(bool_str(true))
    } else if is_prefix_of(flag + seq!['='], arg) {
        Some(arg.skip(flag.len() as int + 1))
    } else {
        None
    }
}

/// The value of `flag` under last-occurrence-wins resolution of `args`.
pub open spec fn last_flag_value(args: Seq<Seq<char>>, flag: Seq<char>) -> Option<Seq<char>>
    decreases args.len(),
{
    if args.len() == 0 {
        None
    } else if arg_gives(args.last(), flag) is Some {
        arg_gives(args.last(), flag)
    } else {
        last_flag_value(args.drop_last(), flag)
    }
}

/// Last-occurrence-wins resolution of concatenated layers: a later layer
/// that mentions the flag at all decides its value.
pub proof fn lemma_last_value_concat(a: Seq<Seq<char>>, b: Seq<Seq<char>>, flag: Seq<char>)
    ensures
        last_flag_value(a + b, flag) == (match last_flag_value(b, flag) {
            Some(v) => Some(v),
            None => last_flag_value(a, flag),
        }),
    decreases b.len(),
{
    if b.len() == 0 {
        assert(a + b =~= a);
    } else {
        assert((a + b).last() == b.last());
        assert((a + b).drop_last() =~= a + b.drop_last());
        lemma_last_value_concat(a, b.drop_last(), flag);
    }
}

/// Resolution precedence. For any option, with the layers assembled in the
/// order [config file, environment-sourced defaults, command line] and
/// resolved by last occurrence, the command-line value wins when present,
/// else the environment default, else the config-file value. The value of a
/// token is its whole `--flag=value` payload, so the rule is the same for
/// scalar options and for overriding list options, whose payload is replaced
/// wholesale.
pub proof fn lemma_resolution_precedence(
    cfg: Seq<Seq<char>>,
    env: Seq<Seq<char>>,
    cli: Seq<Seq<char>>,
    flag: Seq<char>,
)
    ensures
        last_flag_value(cfg + env + cli, flag) == (match last_flag_value(cli, flag) {
            Some(z) => Some(z),
            None => match last_flag_value(env, flag) {
                Some(y) => Some(y),
                None => last_flag_value(cfg, flag),
            },
        }),
{
    lemma_last_value_concat(cfg + env, cli, flag);
    lemma_last_value_concat(cfg, env, flag);
    assert(cfg + env + cli =~= (cfg + env) + cli);
}

} // verus!
