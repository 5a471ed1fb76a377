//! CLI parsing of the loader.  The command line looks like this:
//!
//! `[--load=module-id-of-kernel] [--loggers=serial,debugcon]`
//!
//! The `--load=` value is the first maximal run of filename-like
//! characters after the leftmost occurrence of the option that has at
//! least one such character.  The `--loggers=` value is a comma-separated
//! list of lowercase words after the leftmost occurrence of the option;
//! unknown words are skipped.  A missing option leaves its field empty;
//! parsing itself never fails.

use vstd::prelude::*;

verus! {

use vstd::string::StrSliceExecFns;
use vstd::string::StringExecFns;

/// The logging backends that the command line can name.
#[derive(Copy, Clone, Debug, PartialEq, Eq, Structural)]
pub enum SupportedLogger {
    Debugcon,
    Serial,
}

/// True for the characters a `--load=` value may consist of: ASCII
/// `A` through `z` (which includes the underscore), digits, `-` and `.`.
pub open spec fn is_load_char(c: char) -> bool {
    ||| 65 <= c as int <= 122
    ||| 48 <= c as int <= 57
    ||| c as int == 45
    ||| c as int == 46
}

/// True for lowercase ASCII letters, the alphabet of logger names.
pub open spec fn is_logger_char(c: char) -> bool {
    97 <= c as int <= 122
}

/// The `--load=` value alphabet, as a predicate value.
pub open spec fn load_char_pred() -> spec_fn(char) -> bool {
    |c: char| is_load_char(c)
}

/// The logger-name alphabet, as a predicate value.
pub open spec fn logger_char_pred() -> spec_fn(char) -> bool {
    |c: char| is_logger_char(c)
}

/// Length of the longest run of characters satisfying `p` at `i`.
pub open spec fn spec_run_len(s: Seq<char>, i: int, p: spec_fn(char) -> bool) -> nat
    decreases s.len() - i,
{
    if 0 <= i < s.len() && p(s[i]) {
        1 + spec_run_len(s, i + 1, p)
    } else {
        0
    }
}

/// True when the whole `--load=` option matches at position `i`: the
/// option text followed by at least one value character.
pub open spec fn spec_load_match_at(s: Seq<char>, i: int) -> bool {
    &&& 0 <= i
    &&& i + 8 <= s.len()
    &&& s[i] == '-'
    &&& s[i + 1] == '-'
    &&& s[i + 2] == 'l'
    &&& s[i + 3] == 'o'
    &&& s[i + 4] == 'a'
    &&& s[i + 5] == 'd'
    &&& s[i + 6] == '='
    &&& is_load_char(s[i + 7])
}

/// Position of the leftmost `--load=` match at or after `i`.
pub open spec fn spec_find_load(s: Seq<char>, i: int) -> Option<int>
    decreases s.len() - i,
{
    if spec_load_match_at(s, i) {
        Some(i)
    } else if i < s.len() {
        spec_find_load(s, i + 1)
    } else {
        None
    }
}

/// The `--load=` value of the command line: the maximal run of value
/// characters after the leftmost match, empty when there is none.
pub open spec fn spec_load(s: Seq<char>) -> Seq<char> {
    match spec_find_load(s, 0) {
        Some(i) => s.subrange(i + 7, i + 7 + spec_run_len(s, i + 7, load_char_pred())),
        None => Seq::empty(),
    }
}

/// True when the `--loggers=` option text stands at position `i`.
pub open spec fn spec_loggers_match_at(s: Seq<char>, i: int) -> bool {
    &&& 0 <= i
    &&& i + 10 <= s.len()
    &&& s[i] == '-'
    &&& s[i + 1] == '-'
    &&& s[i + 2] == 'l'
    &&& s[i + 3] == 'o'
    &&& s[i + 4] == 'g'
    &&& s[i + 5] == 'g'
    &&& s[i + 6] == 'e'
    &&& s[i + 7] == 'r'
    &&& s[i + 8] == 's'
    &&& s[i + 9] == '='
}

/// Position of the leftmost `--loggers=` option at or after `i`.
pub open spec fn spec_find_loggers(s: Seq<char>, i: int) -> Option<int>
    decreases s.len() - i,
{
    if spec_loggers_match_at(s, i) {
        Some(i)
    } else if i < s.len() {
        spec_find_loggers(s, i + 1)
    } else {
        None
    }
}

/// The logger named by one list entry, or nothing for an unknown name.
pub open spec fn spec_known_logger(tok: Seq<char>) -> Option<SupportedLogger> {
    if tok == seq!['d', 'e', 'b', 'u', 'g', 'c', 'o', 'n'] {
        Some(SupportedLogger::Debugcon)
    } else if tok == seq!['s', 'e', 'r', 'i', 'a', 'l'] {
        Some(SupportedLogger::Serial)
    } else {
        None
    }
}

/// The known loggers of the comma-separated list starting at `p`: each
/// entry is a maximal run of lowercase letters, entries are separated by
/// single commas, and the list ends before anything else.  Unknown
/// entries are skipped.
pub open spec fn spec_loggers_from(s: Seq<char>, p: int) -> Seq<SupportedLogger>
    decreases s.len() - p,
{
    let n = spec_run_len(s, p, logger_char_pred());
    if !(0 <= p <= s.len()) || n == 0 {
        Seq::empty()
    } else {
        let tok = s.subrange(p, p + n);
        let rest = if p + n + 1 < s.len() && s[p + n] == ',' && is_logger_char(s[p + n + 1]) {
            spec_loggers_from(s, p + n + 1)
        } else {
            Seq::empty()
        };
        match spec_known_logger(tok) {
            Some(l) => seq![l] + rest,
            None => rest,
        }
    }
}

/// The loggers selected by the command line.
pub open spec fn spec_loggers(s: Seq<char>) -> Seq<SupportedLogger> {
    match spec_find_loggers(s, 0) {
        Some(i) => spec_loggers_from(s, i + 10),
        None => Seq::empty(),
    }
}

/// The configuration the command line selects.
#[derive(Debug)]
pub struct CliArgs {
    /// The logging backends to enable, in the order they were named.
    pub loggers: Vec<SupportedLogger>,
    /// The module identifier of the kernel to load; empty when absent.
    pub load: String,
}

/// Compares two string slices character by character.
fn str_eq(a: &str, b: &str) -> (r: bool)
    ensures
        r == (a@ == b@),
{
    let n = a.unicode_len();
    if n != b.unicode_len() {
        return false;
    }
    let mut i: usize = 0;
    while i < n
        invariant
            0 <= i <= n,
            n == a@.len(),
            n == b@.len(),
            forall|j: int| 0 <= j < i ==> a@[j] == b@[j],
        decreases n - i,
    {
        if a.get_char(i) != b.get_char(i) {
            return false;
        }
        i += 1;
    }
    proof {
        assert(a@ =~= b@);
    }
    true
}

impl SupportedLogger {
    /// Resolves a logger name from the command line; unknown names are
    /// reported so that the caller can skip them.
    pub fn from_str(name: &str) -> (r: Result<SupportedLogger, ()>)
        ensures
            match spec_known_logger(name@) {
                Some(l) => r == Result::<SupportedLogger, ()>::Ok(l),
                None => r is Err,
            },
    {
        proof {
            reveal_strlit("debugcon");
            reveal_strlit("serial");
            assert("debugcon"@ =~= seq!['d', 'e', 'b', 'u', 'g', 'c', 'o', 'n']);
            assert("serial"@ =~= seq!['s', 'e', 'r', 'i', 'a', 'l']);
        }
        if str_eq(name, "debugcon") {
            Ok(SupportedLogger::Debugcon)
        } else if str_eq(name, "serial") {
            Ok(SupportedLogger::Serial)
        } else {
            Err(())
        }
    }
}

/// Whether the character may appear in a `--load=` value.
fn is_load_char_exec(c: char) -> (r: bool)
    ensures
        r == is_load_char(c),
{
    let u = c as u32;
    (65 <= u && u <= 122) || (48 <= u && u <= 57) || u == 45 || u == 46
}

/// Whether the character may appear in a logger name.
fn is_logger_char_exec(c: char) -> (r: bool)
    ensures
        r == is_logger_char(c),
{
    let u = c as u32;
    97 <= u && u <= 122
}

/// Length of the longest run of `--load=` value characters at `i`.
fn run_load_len(s: &str, i: usize) -> (r: usize)
    requires
        i <= s@.len(),
    ensures
        r == spec_run_len(s@, i as int, load_char_pred()),
        i + r <= s@.len(),
    decreases s@.len() - i,
{
    if i < s.unicode_len() && is_load_char_exec(s.get_char(i)) {
        1 + run_load_len(s, i + 1)
    } else {
        0
    }
}

/// Length of the longest run of logger-name characters at `i`.
fn run_logger_len(s: &str, i: usize) -> (r: usize)
    requires
        i <= s@.len(),
    ensures
        r == spec_run_len(s@, i as int, logger_char_pred()),
        i + r <= s@.len(),
    decreases s@.len() - i,
{
    if i < s.unicode_len() && is_logger_char_exec(s.get_char(i)) {
        1 + run_logger_len(s, i + 1)
    } else {
        0
    }
}

/// Whether the whole `--load=` option matches at `i`.
fn load_match_at(s: &str, i: usize) -> (r: bool)
    requires
        i <= s@.len(),
    ensures
        r == spec_load_match_at(s@, i as int),
{
    let n = s.unicode_len();
    if n < 8 || i > n - 8 {
        return false;
    }
    s.get_char(i) == '-' && s.get_char(i + 1) == '-' && s.get_char(i + 2) == 'l' && s.get_char(
        i + 3,
    ) == 'o' && s.get_char(i + 4) == 'a' && s.get_char(i + 5) == 'd' && s.get_char(i + 6) == '='
        && is_load_char_exec(s.get_char(i + 7))
}

/// Whether the `--loggers=` option text stands at `i`.
fn loggers_match_at(s: &str, i: usize) -> (r: bool)
    requires
        i <= s@.len(),
    ensures
        r == spec_loggers_match_at(s@, i as int),
{
    let n = s.unicode_len();
    if n < 10 || i > n - 10 {
        return false;
    }
    s.get_char(i) == '-' && s.get_char(i + 1) == '-' && s.get_char(i + 2) == 'l' && s.get_char(
        i + 3,
    ) == 'o' && s.get_char(i + 4) == 'g' && s.get_char(i + 5) == 'g' && s.get_char(i + 6) == 'e'
        && s.get_char(i + 7) == 'r' && s.get_char(i + 8) == 's' && s.get_char(i + 9) == '='
}

/// Leftmost `--load=` match at or after `i`.
fn find_load_pos(s: &str, i: usize) -> (r: Option<usize>)
    requires
        i <= s@.len(),
    ensures
        match r {
            Some(j) => spec_find_load(s@, i as int) == Some(j as int) && spec_load_match_at(
                s@,
                j as int,
            ),
            None => spec_find_load(s@, i as int) is None,
        },
    decreases s@.len() - i,
{
    if load_match_at(s, i) {
        Some(i)
    } else if i < s.unicode_len() {
        find_load_pos(s, i + 1)
    } else {
        None
    }
}

/// Leftmost `--loggers=` option at or after `i`.
fn find_loggers_pos(s: &str, i: usize) -> (r: Option<usize>)
    requires
        i <= s@.len(),
    ensures
        match r {
            Some(j) => spec_find_loggers(s@, i as int) == Some(j as int) && spec_loggers_match_at(
                s@,
                j as int,
            ),
            None => spec_find_loggers(s@, i as int) is None,
        },
    decreases s@.len() - i,
{
    if loggers_match_at(s, i) {
        Some(i)
    } else if i < s.unicode_len() {
        find_loggers_pos(s, i + 1)
    } else {
        None
    }
}

/// Collects the known loggers of the comma-separated list starting at `p`.
fn collect_loggers(s: &str, p: usize, out: &mut Vec<SupportedLogger>)
    requires
        p <= s@.len(),
    ensures
        final(out)@ == old(out)@ + spec_loggers_from(s@, p as int),
    decreases s@.len() - p,
{
    let len = s.unicode_len();
    let n = run_logger_len(s, p);
    if n == 0 {
        proof {
            assert(out@ =~= old(out)@ + spec_loggers_from(s@, p as int));
        }
        return ;
    }
    let tok = s.substring_char(p, p + n);
    match SupportedLogger::from_str(tok) {
        Ok(l) => out.push(l),
        Err(_) => (),
    }
    let end = p + n;
    if end < len && s.get_char(end) == ',' && end + 1 < len && is_logger_char_exec(
        s.get_char(end + 1),
    ) {
        collect_loggers(s, end + 1, out);
    }
    proof {
        assert(out@ =~= old(out)@ + spec_loggers_from(s@, p as int));
    }
}

impl CliArgs {
    /// Parses the command line.  Parsing never fails: missing or
    /// malformed options simply leave their field empty.
    pub fn from_str(cmdline: &str) -> (r: Result<CliArgs, ()>)
        ensures
            r matches Ok(args) && args.load@ == spec_load(cmdline@) && args.loggers@
                == spec_loggers(cmdline@),
    {
        // Binds the character count to a `usize`, which the position
        // arithmetic below needs.
        let _chars = cmdline.unicode_len();
        let load: String = match find_load_pos(cmdline, 0) {
            Some(i) => {
                let n = run_load_len(cmdline, i + 7);
                cmdline.substring_char(i + 7, i + 7 + n).to_owned()
            },
            None => String::new(),
        };
        proof {
            assert(load@ =~= spec_load(cmdline@));
        }
        let mut loggers: Vec<SupportedLogger> = Vec::new();
        match find_loggers_pos(cmdline, 0) {
            Some(i) => {
                collect_loggers(cmdline, i + 10, &mut loggers);
            },
            None => (),
        }
        proof {
            assert(loggers@ =~= spec_loggers(cmdline@));
        }
        Ok(CliArgs { loggers, load })
    }
}

} // verus!
