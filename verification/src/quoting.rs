//! Shell quoting of planned arguments, the word-splitting model that makes
//! dry-run output re-parseable, and the model of what the activation and
//! deactivation snippets do to the shell environment.

use vstd::prelude::*;

verus! {

/// Characters the bash quoter passes through untouched wherever they land
/// in a word: ASCII letters, digits, and `, . / _ - : @ +`.
pub open spec fn is_shell_inert(c: char) -> bool {
    (97 <= c as int && c as int <= 122) || (65 <= c as int && c as int <= 90) || (48 <= c as int
        && c as int <= 57) || c == ',' || c == '.' || c == '/' || c == '_' || c == '-' || c == ':'
        || c == '@' || c == '+'
}

pub open spec fn all_shell_inert(s: Seq<char>) -> bool {
    forall|i: int| 0 <= i < s.len() ==> is_shell_inert(s[i])
}

/// What the bash quoter returns for `s`; a function of `s` alone.
pub uninterp spec fn bash_quoted(s: Seq<char>) -> Seq<char>;

/// Relies on shell_quote::Bash::quote: the result depends on the input
/// alone; an empty string becomes a pair of single quotes, and a non-empty
/// string of inert characters is returned unchanged.
#[verifier::external_body]
pub fn bash_quote(s: &str) -> (r: String)
    ensures
        r@ == bash_quoted(s@),
        s@.len() == 0 ==> r@ == seq!['\'', '\''],
        s@.len() > 0 && all_shell_inert(s@) ==> r@ == s@,
{
    <shell_quote::Bash as shell_quote::Quote<String>>::quote(s)
}

/// `s` split at every space: always at least one word, empty words where
/// spaces meet.
pub open spec fn split_spaces(s: Seq<char>) -> Seq<Seq<char>>
    decreases s.len(),
{
    if s.len() == 0 {
        seq![Seq::empty()]
    } else if s[0] == ' ' {
        seq![Seq::<char>::empty()] + split_spaces(s.drop_first())
    } else {
        let rest = split_spaces(s.drop_first());
        seq![seq![s[0]] + rest[0]] + rest.drop_first()
    }
}

pub open spec fn no_space(s: Seq<char>) -> bool {
    forall|i: int| 0 <= i < s.len() ==> s[i] != ' '
}

proof fn lemma_split_len(s: Seq<char>)
    ensures
        split_spaces(s).len() >= 1,
    decreases s.len(),
{
    if s.len() > 0 {
        lemma_split_len(s.drop_first());
    }
}

proof fn lemma_split_single(s: Seq<char>)
    requires
        no_space(s),
    ensures
        split_spaces(s) == seq![s],
    decreases s.len(),
{
    if s.len() == 0 {
        assert(s =~= Seq::<char>::empty());
        assert(split_spaces(s) =~~= seq![s]);
    } else {
        lemma_split_single(s.drop_first());
        assert(seq![s[0]] + s.drop_first() =~= s);
        assert(split_spaces(s) =~~= seq![s]);
    }
}

proof fn lemma_split_word_prefix(a: Seq<char>, t: Seq<char>)
    requires
        no_space(a),
    ensures
        split_spaces(a + seq![' '] + t) == seq![a] + split_spaces(t),
    decreases a.len(),
{
    lemma_split_len(t);
    if a.len() == 0 {
        assert((a + seq![' '] + t)[0] == ' ');
        assert((a + seq![' '] + t).drop_first() =~= t);
        assert(a =~= Seq::<char>::empty());
        assert(split_spaces(a + seq![' '] + t) =~~= seq![a] + split_spaces(t));
    } else {
        let s = a + seq![' '] + t;
        assert(s[0] == a[0]);
        assert(s[0] != ' ');
        assert(s.drop_first() =~= a.drop_first() + seq![' '] + t);
        lemma_split_word_prefix(a.drop_first(), t);
        let rest = split_spaces(s.drop_first());
        assert(rest == seq![a.drop_first()] + split_spaces(t));
        assert(rest[0] == a.drop_first());
        assert(seq![s[0]] + rest[0] =~= a);
        assert(rest.drop_first() =~= split_spaces(t));
        assert(split_spaces(s) =~~= seq![a] + split_spaces(t));
    }
}

/// Splitting on spaces undoes joining with a space, for any nonempty word
/// list whose words hold no space. This is what makes a dry-run line parse
/// back into exactly the word list it was rendered from.
pub proof fn lemma_split_join(parts: Seq<Seq<char>>)
    requires
        parts.len() >= 1,
        forall|i: int| 0 <= i < parts.len() ==> no_space(#[trigger] parts[i]),
    ensures
        split_spaces(crate::strutil::join_with(parts, seq![' '])) == parts,
    decreases parts.len(),
{
    if parts.len() == 1 {
        lemma_split_single(parts[0]);
        assert(split_spaces(crate::strutil::join_with(parts, seq![' '])) =~= parts);
    } else {
        lemma_split_join(parts.drop_first());
        let rest = crate::strutil::join_with(parts.drop_first(), seq![' ']);
        assert(crate::strutil::join_with(parts, seq![' ']) == parts[0] + seq![' '] + rest);
        lemma_split_word_prefix(parts[0], rest);
        assert(seq![parts[0]] + parts.drop_first() =~= parts);
    }
}

/// The index of the first occurrence of `pat` in `s` at or after `i`.
pub open spec fn find_from(pat: Seq<char>, s: Seq<char>, i: int) -> Option<int>
    decreases s.len() - i,
{
    if i < 0 || i + pat.len() > s.len() {
        None
    } else if pat.len() == 0 || s.subrange(i, i + pat.len()) == pat {
        Some(i)
    } else {
        find_from(pat, s, i + 1)
    }
}

/// `s` with its first occurrence of `pat` removed, if there is one.
pub open spec fn remove_first(pat: Seq<char>, s: Seq<char>) -> Seq<char> {
    match find_from(pat, s, 0) {
        Some(i) => s.subrange(0, i) + s.subrange(i + pat.len(), s.len() as int),
        None => s,
    }
}

/// The shell state the activation snippets speak about: the three tracked
/// variables and the search path.
pub ghost struct ShellEnv {
    pub cm_src: Option<Seq<char>>,
    pub cm_bin: Option<Seq<char>>,
    pub cm_cfg: Option<Seq<char>>,
    pub path: Seq<char>,
}

/// The search-path segment an activation prepends: the `bin` subdirectory
/// of the binary path, with the trailing separator.
pub open spec fn bin_segment(bin: Seq<char>) -> Seq<char> {
    bin + seq!['/', 'b', 'i', 'n', ':']
}

/// The effect of evaluating the activation snippet: the three variables are
/// exported and the binary path's `bin` subdirectory is prepended to the
/// search path.
pub open spec fn activate_env(
    env: ShellEnv,
    src: Seq<char>,
    bin: Seq<char>,
    cfg: Seq<char>,
) -> ShellEnv {
    ShellEnv {
        cm_src: Some(src),
        cm_bin: Some(bin),
        cm_cfg: Some(cfg),
        path: bin_segment(bin) + env.path,
    }
}

/// The effect of evaluating the deactivation snippet: the three variables
/// are unset, and where the tracked binary path was non-empty the first
/// occurrence of its `bin` segment is stripped from the search path. The
/// snippet's substitution is modelled literally; glob characters inside the
/// tracked path are outside this model.
pub open spec fn deactivate_env(env: ShellEnv) -> ShellEnv {
    ShellEnv {
        cm_src: None,
        cm_bin: None,
        cm_cfg: None,
        path: match env.cm_bin {
            Some(b) => if b.len() > 0 {
                remove_first(bin_segment(b), env.path)
            } else {
                env.path
            },
            None => env.path,
        },
    }
}

/// Activation followed by deactivation leaves the three tracked variables
/// unset and restores the search path to its pre-activation value, for a
/// non-empty binary path and a single activation.
pub proof fn lemma_activate_then_deactivate(
    env: ShellEnv,
    src: Seq<char>,
    bin: Seq<char>,
    cfg: Seq<char>,
)
    requires
        bin.len() > 0,
    ensures
        deactivate_env(activate_env(env, src, bin, cfg)) == (ShellEnv {
            cm_src: None,
            cm_bin: None,
            cm_cfg: None,
            path: env.path,
        }),
{
    let pat = bin_segment(bin);
    let p = pat + env.path;
    assert(p.subrange(0, pat.len() as int) =~= pat);
    assert(find_from(pat, p, 0) == Some(0int));
    assert(p.subrange(0, 0) + p.subrange(pat.len() as int, p.len() as int) =~= env.path);
}

} // verus!
