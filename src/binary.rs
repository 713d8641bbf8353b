//! The binary checker: presence on the search path, and a best-effort version.

use vstd::prelude::*;
use vstd::string::StringExecFns;
use crate::checks::CheckResult;
use crate::config::BinaryCheck;
use crate::text::{
    chars_of, string_of, push_range, shorten_chars, str_eq, is_whitespace, is_ascii_digit, is_ws,
    is_digit, has_content, shorten,
};

verus! {

/// Longest fallback text taken from a version line.
pub const LINE_LIMIT: usize = 50;

/// A character that survives the trimming of a version token.
pub open spec fn keep(c: char) -> bool {
    is_digit(c) || c == '.'
}

pub open spec fn strip_front(t: Seq<char>) -> Seq<char>
    decreases t.len(),
{
    if t.len() > 0 && !keep(t[0]) {
        strip_front(t.drop_first())
    } else {
        t
    }
}

pub open spec fn strip_back(t: Seq<char>) -> Seq<char>
    decreases t.len(),
{
    if t.len() > 0 && !keep(t.last()) {
        strip_back(t.drop_last())
    } else {
        t
    }
}

/// A token without its leading and trailing characters that are neither digits nor dots.
pub open spec fn cleaned(t: Seq<char>) -> Seq<char> {
    strip_back(strip_front(t))
}

/// A cleaned token that reads as a version: it starts with a digit and holds a dot.
pub open spec fn is_version_core(c: Seq<char>) -> bool {
    c.len() > 0 && is_digit(c[0]) && c.contains('.')
}

/// A whitespace-separated token of `s` begins at `i`.
pub open spec fn token_start(s: Seq<char>, i: int) -> bool {
    0 <= i < s.len() && !is_ws(s[i]) && (i == 0 || is_ws(s[i - 1]))
}

/// The end of the run of non-whitespace characters that begins at `i`.
pub open spec fn token_end(s: Seq<char>, i: int) -> int
    decreases s.len() - i,
{
    if 0 <= i < s.len() && !is_ws(s[i]) {
        token_end(s, i + 1)
    } else {
        i
    }
}

/// The cleaned form of the first token at or after `i` that reads as a version.
pub open spec fn version_from(s: Seq<char>, i: int) -> Option<Seq<char>>
    decreases s.len() - i,
{
    if i < 0 || i >= s.len() {
        None
    } else if token_start(s, i) && is_version_core(cleaned(s.subrange(i, token_end(s, i)))) {
        Some(cleaned(s.subrange(i, token_end(s, i))))
    } else {
        version_from(s, i + 1)
    }
}

/// What a version line reduces to: `v` and the first version-like token, or
/// else the line itself, shortened.
pub open spec fn extracted(line: Seq<char>) -> Seq<char> {
    match version_from(line, 0) {
        Some(c) => seq!['v'] + c,
        None => shorten(line, LINE_LIMIT as nat),
    }
}

/// The end of the line that begins at `i`: the next newline, or the end of `s`.
pub open spec fn line_end(s: Seq<char>, i: int) -> int
    decreases s.len() - i,
{
    if 0 <= i < s.len() && s[i] != '\n' {
        line_end(s, i + 1)
    } else {
        i
    }
}

pub open spec fn line_start(s: Seq<char>, i: int) -> bool {
    0 <= i < s.len() && (i == 0 || s[i - 1] == '\n')
}

/// The line that begins at `i`, without its terminator (`\n` or `\r\n`).
pub open spec fn line_at(s: Seq<char>, i: int) -> Seq<char> {
    let e = line_end(s, i);
    let l = s.subrange(i, e);
    if e < s.len() && l.len() > 0 && l.last() == '\r' {
        l.drop_last()
    } else {
        l
    }
}

/// The first line at or after `i` that holds a character other than whitespace.
pub open spec fn first_line(s: Seq<char>, i: int) -> Option<Seq<char>>
    decreases s.len() - i,
{
    if i < 0 || i >= s.len() {
        None
    } else if line_start(s, i) && has_content(line_at(s, i)) {
        Some(line_at(s, i))
    } else {
        first_line(s, i + 1)
    }
}

/// What a process printed for one version flag.
pub struct FlagOutput {
    pub success: bool,
    pub stdout: String,
    pub stderr: String,
}

/// The flags tried, in order, to learn a binary's version.
pub open spec fn version_flags() -> Seq<Seq<char>> {
    seq!["--version"@, "-version"@, "-V"@, "version"@]
}

/// The one flag whose output is read even when the process reports failure.
pub open spec fn lenient_flag() -> Seq<char> {
    "-V"@
}

/// The first line with content, from standard output and then standard error.
pub open spec fn output_line(o: FlagOutput) -> Option<Seq<char>> {
    match first_line(o.stdout@, 0) {
        Some(l) => Some(l),
        None => first_line(o.stderr@, 0),
    }
}

/// The version that one attempt yields, given what the process printed (or
/// `None` when it could not be run).
pub open spec fn flag_outcome(flag: Seq<char>, output: Option<FlagOutput>) -> Option<Seq<char>> {
    match output {
        None => None,
        Some(o) => if !o.success && flag != lenient_flag() {
            None
        } else {
            match output_line(o) {
                Some(l) => Some(extracted(l)),
                None => None,
            }
        },
    }
}

/// What the version lookup asks for next.
pub enum VersionStep {
    /// Run the binary with the flag of this index in the flag list.
    Run(usize),
    /// The lookup is over, with the version if one was found.
    Done(Option<String>),
}

/// The version as shown, with a placeholder where none was read.
pub open spec fn version_text(version: Option<Seq<char>>) -> Seq<char> {
    match version {
        Some(v) => v,
        None => "unknown version"@,
    }
}

/// The message of a binary check, given where the binary was found and the version read.
pub open spec fn binary_message(path: Option<Seq<char>>, version: Option<Seq<char>>) -> Seq<char> {
    match path {
        None => "not found in PATH"@,
        Some(p) => version_text(version) + " ("@ + p + ")"@,
    }
}

fn token_end_exec(s: &Vec<char>, i: usize) -> (e: usize)
    requires
        i <= s@.len(),
    ensures
        e as int == token_end(s@, i as int),
        i <= e <= s@.len(),
{
    let mut j: usize = i;
    while j < s.len() && !is_whitespace(s[j])
        invariant
            i <= j <= s@.len(),
            token_end(s@, j as int) == token_end(s@, i as int),
        decreases s.len() - j,
    {
        j = j + 1;
    }
    j
}

/// The bounds of the cleaned form of `s[a..b]`.
fn clean_range(s: &Vec<char>, a: usize, b: usize) -> (r: (usize, usize))
    requires
        a <= b <= s@.len(),
    ensures
        a <= r.0 <= r.1 <= b,
        s@.subrange(r.0 as int, r.1 as int) == cleaned(s@.subrange(a as int, b as int)),
{
    let mut lo: usize = a;
    while lo < b && !(is_ascii_digit(s[lo]) || s[lo] == '.')
        invariant
            a <= lo <= b <= s@.len(),
            strip_front(s@.subrange(a as int, b as int)) == strip_front(s@.subrange(lo as int, b as int)),
        decreases b - lo,
    {
        assert(s@.subrange(lo as int, b as int).drop_first() =~= s@.subrange(lo + 1, b as int));
        lo = lo + 1;
    }
    let mut hi: usize = b;
    while hi > lo && !(is_ascii_digit(s[hi - 1]) || s[hi - 1] == '.')
        invariant
            a <= lo <= hi <= b <= s@.len(),
            strip_front(s@.subrange(a as int, b as int)) == s@.subrange(lo as int, b as int),
            strip_back(s@.subrange(lo as int, b as int)) == strip_back(s@.subrange(lo as int, hi as int)),
        decreases hi - lo,
    {
        assert(s@.subrange(lo as int, hi as int).drop_last() =~= s@.subrange(lo as int, hi - 1));
        hi = hi - 1;
    }
    (lo, hi)
}

/// True when `s[lo..hi]` reads as a version.
fn is_version_range(s: &Vec<char>, lo: usize, hi: usize) -> (r: bool)
    requires
        lo <= hi <= s@.len(),
    ensures
        r == is_version_core(s@.subrange(lo as int, hi as int)),
{
    let ghost c = s@.subrange(lo as int, hi as int);
    if lo == hi || !is_ascii_digit(s[lo]) {
        return false;
    }
    let mut k: usize = lo;
    while k < hi
        invariant
            lo <= k <= hi <= s@.len(),
            lo < hi,
            is_digit(s@[lo as int]),
            c == s@.subrange(lo as int, hi as int),
            forall|m: int| lo <= m < k ==> s@[m] != '.',
        decreases hi - k,
    {
        if s[k] == '.' {
            assert(c[k - lo] == '.');
            assert(c[0] == s@[lo as int]);
            assert(c.contains('.'));
            return true;
        }
        k = k + 1;
    }
    assert forall|m: int| 0 <= m < c.len() implies c[m] != '.' by {
        assert(c[m] == s@[lo + m]);
    }
    false
}

/// Reduces a version line to `v` followed by its first version-like token,
/// or, when it has none, to the line itself cut to fifty characters.
pub fn extract_version(line: &str) -> (r: String)
    ensures
        r@ == extracted(line@),
{
    let s = chars_of(line);
    let mut i: usize = 0;
    while i < s.len()
        invariant
            s@ == line@,
            i <= s@.len(),
            version_from(s@, 0) == version_from(s@, i as int),
        decreases s.len() - i,
    {
        if !is_whitespace(s[i]) && (i == 0 || is_whitespace(s[i - 1])) {
            let e = token_end_exec(&s, i);
            let (lo, hi) = clean_range(&s, i, e);
            if is_version_range(&s, lo, hi) {
                let mut out: Vec<char> = vec!['v'];
                push_range(&mut out, &s, lo, hi);
                assert(out@ =~= seq!['v'] + s@.subrange(lo as int, hi as int));
                return string_of(&out);
            }
        }
        i = i + 1;
    }
    shorten_chars(&s, LINE_LIMIT)
}

fn line_end_exec(s: &Vec<char>, i: usize) -> (e: usize)
    requires
        i <= s@.len(),
    ensures
        e as int == line_end(s@, i as int),
        i <= e <= s@.len(),
{
    let mut j: usize = i;
    while j < s.len() && s[j] != '\n'
        invariant
            i <= j <= s@.len(),
            line_end(s@, j as int) == line_end(s@, i as int),
        decreases s.len() - j,
    {
        j = j + 1;
    }
    j
}

fn has_content_range(s: &Vec<char>, a: usize, b: usize) -> (r: bool)
    requires
        a <= b <= s@.len(),
    ensures
        r == has_content(s@.subrange(a as int, b as int)),
{
    let ghost t = s@.subrange(a as int, b as int);
    let mut k: usize = a;
    while k < b
        invariant
            a <= k <= b <= s@.len(),
            t == s@.subrange(a as int, b as int),
            forall|m: int| a <= m < k ==> is_ws(s@[m]),
        decreases b - k,
    {
        if !is_whitespace(s[k]) {
            assert(!is_ws(t[k - a]));
            return true;
        }
        k = k + 1;
    }
    assert forall|m: int| 0 <= m < t.len() implies is_ws(#[trigger] t[m]) by {
        assert(t[m] == s@[a + m]);
    }
    false
}

/// The bounds of the first line of `s` with content.
fn first_line_exec(s: &Vec<char>) -> (r: Option<(usize, usize)>)
    ensures
        match r {
            Some((a, b)) => a <= b <= s@.len() && first_line(s@, 0) == Some(s@.subrange(a as int, b as int)),
            None => first_line(s@, 0) is None,
        },
{
    let mut i: usize = 0;
    while i < s.len()
        invariant
            i <= s@.len(),
            first_line(s@, 0) == first_line(s@, i as int),
        decreases s.len() - i,
    {
        if i == 0 || s[i - 1] == '\n' {
            let e = line_end_exec(s, i);
            let b = if e < s.len() && e > i && s[e - 1] == '\r' { e - 1 } else { e };
            assert(line_at(s@, i as int) =~= s@.subrange(i as int, b as int));
            if has_content_range(s, i, b) {
                return Some((i, b));
            }
        }
        i = i + 1;
    }
    None
}

/// The version that running the binary with `flag` yields, given what the
/// process printed, or `None` where it could not be run.
pub fn try_version_flag(flag: &str, output: Option<FlagOutput>) -> (r: Option<String>)
    ensures
        r.deep_view() == flag_outcome(flag@, output),
{
    match output {
        None => None,
        Some(o) => {
            if !o.success && !str_eq(flag, "-V") {
                return None;
            }
            let out = chars_of(o.stdout.as_str());
            let err = chars_of(o.stderr.as_str());
            let (s, range) = match first_line_exec(&out) {
                Some(range) => (out, range),
                None => match first_line_exec(&err) {
                    Some(range) => (err, range),
                    None => {
                        return None;
                    },
                },
            };
            let (a, b) = range;
            let mut piece: Vec<char> = Vec::new();
            push_range(&mut piece, &s, a, b);
            let text = string_of(&piece);
            Some(extract_version(text.as_str()))
        },
    }
}

/// The flag of index `i` in the flag list.
pub fn version_flag(i: usize) -> (r: Option<&'static str>)
    ensures
        i < version_flags().len() ==> r is Some && r->0@ == version_flags()[i as int],
        i >= version_flags().len() ==> r is None,
{
    match i {
        0 => Some("--version"),
        1 => Some("-version"),
        2 => Some("-V"),
        3 => Some("version"),
        _ => None,
    }
}

/// The step of the version lookup that follows running the flag of index
/// `attempt` with the given output: the version where that attempt yields
/// one, else the next flag, else the end of the lookup without a version.
/// The lookup begins with `VersionStep::Run(0)`.
pub fn get_version(attempt: usize, output: Option<FlagOutput>) -> (r: VersionStep)
    ensures
        attempt >= version_flags().len() ==> r == VersionStep::Done(None),
        attempt < version_flags().len() ==> match flag_outcome(version_flags()[attempt as int], output) {
            Some(v) => r is Done && r->Done_0.deep_view() == Some(v),
            None => if attempt + 1 < version_flags().len() {
                r == VersionStep::Run((attempt + 1) as usize)
            } else {
                r == VersionStep::Done(None)
            },
        },
{
    match version_flag(attempt) {
        None => VersionStep::Done(None),
        Some(flag) => match try_version_flag(flag, output) {
            Some(v) => VersionStep::Done(Some(v)),
            None => if attempt + 1 < 4 {
                VersionStep::Run(attempt + 1)
            } else {
                VersionStep::Done(None)
            },
        },
    }
}

/// Relies on `which::which`: the full path of the executable that the search
/// path resolves `name` to, shown as text, or `None` where there is none. What
/// comes back depends on the file system and the environment.
#[verifier::external_body]
fn which_path(name: &str) -> (r: Option<String>) {
    which::which(name).ok().map(|p| p.display().to_string())
}

/// Looks the binary up on the search path.
pub fn locate_binary(binary: &BinaryCheck) -> (r: Option<String>) {
    which_path(binary.name())
}

/// The result of checking `binary`, given where the search path resolved it
/// (`None` where it did not) and the version read from it, if any.
pub fn check_binary(binary: &BinaryCheck, path: Option<String>, version: Option<String>) -> (r: CheckResult)
    ensures
        r.check_type@ == "Binary"@,
        r.name@ == binary.spec_name(),
        r.passed == path is Some,
        r.message@ == binary_message(path.deep_view(), version.deep_view()),
        path is None ==> r.message@ == "not found in PATH"@,
{
    let name = binary.name();
    match path {
        None => CheckResult::fail("Binary", name, String::from_str("not found in PATH")),
        Some(p) => {
            let mut m = match version {
                Some(v) => v,
                None => String::from_str("unknown version"),
            };
            m.append(" (");
            m.append(p.as_str());
            m.append(")");
            CheckResult::pass("Binary", name, m)
        },
    }
}

} // verus!
