//! The root resolver: the single directory under which per-service
//! subdirectories live, from (in priority order) an explicit override, the
//! persisted configuration value, or the current working directory. The
//! caller reads the configuration file itself and hands its raw contents in;
//! resolution never fails, an unreadable or empty value only falls through.

use vstd::prelude::*;

use crate::opt_view;

verus! {

/// The whitespace that surrounds a configured value and is ignored.
pub open spec fn spec_is_space(c: char) -> bool {
    c == ' ' || c == '\t' || c == '\n' || c == '\r'
}

/// Drop leading whitespace.
pub open spec fn spec_trim_front(s: Seq<char>) -> Seq<char>
    decreases s.len(),
{
    if s.len() > 0 && spec_is_space(s[0]) {
        spec_trim_front(s.drop_first())
    } else {
        s
    }
}

/// Drop trailing whitespace.
pub open spec fn spec_trim_back(s: Seq<char>) -> Seq<char>
    decreases s.len(),
{
    if s.len() > 0 && spec_is_space(s.last()) {
        spec_trim_back(s.drop_last())
    } else {
        s
    }
}

/// Drop leading and trailing whitespace.
pub open spec fn spec_trim(s: Seq<char>) -> Seq<char> {
    spec_trim_back(spec_trim_front(s))
}

/// Whether `c` counts as surrounding whitespace.
pub fn is_space(c: char) -> (r: bool)
    ensures
        r == spec_is_space(c),
{
    c == ' ' || c == '\t' || c == '\n' || c == '\r'
}

/// Dropping whitespace from the front of `s` leaves its suffix from the first
/// non-whitespace character on.
proof fn lemma_trim_front_at(s: Seq<char>, lo: int)
    requires
        0 <= lo <= s.len(),
        forall|j: int| 0 <= j < lo ==> spec_is_space(s[j]),
        lo < s.len() ==> !spec_is_space(s[lo]),
    ensures
        spec_trim_front(s) == s.subrange(lo, s.len() as int),
    decreases lo,
{
    if lo == 0 {
        if s.len() == 0 || !spec_is_space(s[0]) {
            assert(spec_trim_front(s) == s);
            assert(s.subrange(0, s.len() as int) =~= s);
        }
    } else {
        let rest = s.drop_first();
        assert(spec_is_space(s[0]));
        assert(spec_trim_front(s) == spec_trim_front(rest));
        assert(forall|j: int| 0 <= j < lo - 1 ==> spec_is_space(rest[j]));
        lemma_trim_front_at(rest, lo - 1);
        assert(rest.subrange(lo - 1, rest.len() as int) =~= s.subrange(lo, s.len() as int));
    }
}

/// Dropping whitespace from the back of `s` leaves its prefix up to the last
/// non-whitespace character.
proof fn lemma_trim_back_at(s: Seq<char>, hi: int)
    requires
        0 <= hi <= s.len(),
        forall|j: int| hi <= j < s.len() ==> spec_is_space(s[j]),
        hi > 0 ==> !spec_is_space(s[hi - 1]),
    ensures
        spec_trim_back(s) == s.subrange(0, hi),
    decreases s.len() - hi,
{
    if hi == s.len() {
        if s.len() == 0 || !spec_is_space(s.last()) {
            assert(spec_trim_back(s) == s);
            assert(s.subrange(0, s.len() as int) =~= s);
        }
    } else {
        let rest = s.drop_last();
        assert(spec_is_space(s.last()));
        assert(spec_trim_back(s) == spec_trim_back(rest));
        assert(forall|j: int| hi <= j < rest.len() ==> rest[j] == s[j] && spec_is_space(rest[j]));
        lemma_trim_back_at(rest, hi);
        assert(rest.subrange(0, hi) =~= s.subrange(0, hi));
    }
}

/// Trim surrounding whitespace from `s`.
pub fn trim_spaces(s: &str) -> (r: String)
    ensures
        r@ == spec_trim(s@),
{
    let n = s.unicode_len();
    let mut lo: usize = 0;
    while lo < n && is_space(s.get_char(lo))
        invariant
            lo <= n,
            n == s@.len(),
            forall|j: int| 0 <= j < lo ==> spec_is_space(s@[j]),
        decreases n - lo,
    {
        lo += 1;
    }
    proof {
        lemma_trim_front_at(s@, lo as int);
    }
    let ghost front = s@.subrange(lo as int, n as int);
    let mut hi: usize = n;
    while hi > lo && is_space(s.get_char(hi - 1))
        invariant
            lo <= hi <= n,
            n == s@.len(),
            forall|j: int| hi <= j < n ==> spec_is_space(s@[j]),
        decreases hi,
    {
        hi -= 1;
    }
    proof {
        assert(forall|j: int| hi - lo <= j < front.len() ==> front[j] == s@[j + lo]
            && spec_is_space(front[j]));
        assert(hi > lo ==> front[hi - lo - 1] == s@[hi - 1]);
        lemma_trim_back_at(front, hi - lo);
    }
    let piece = s.substring_char(lo, hi);
    proof {
        assert(piece@ =~= front.subrange(0, hi - lo));
    }
    String::from_str(piece)
}

/// The persisted configuration value held in the configuration file's raw
/// contents: the contents with surrounding whitespace trimmed, or nothing
/// where only whitespace is left.
pub fn config_root_value(contents: &str) -> (r: Option<String>)
    ensures
        spec_trim(contents@).len() == 0 ==> r is None,
        spec_trim(contents@).len() > 0 ==> (r matches Some(p) && p@ == spec_trim(contents@)),
{
    let t = trim_spaces(contents);
    if t.as_str().unicode_len() == 0 {
        None
    } else {
        Some(t)
    }
}

/// The resolved project root: the explicit override where one is given and
/// non-empty, else the trimmed configuration value where one is present and
/// non-empty, else the current working directory. Resolution never fails.
pub open spec fn spec_resolve_root(
    explicit: Option<Seq<char>>,
    config: Option<Seq<char>>,
    cwd: Seq<char>,
) -> Seq<char> {
    if explicit is Some && explicit.unwrap().len() > 0 {
        explicit.unwrap()
    } else if config is Some && spec_trim(config.unwrap()).len() > 0 {
        spec_trim(config.unwrap())
    } else {
        cwd
    }
}

/// Resolve the project root from an explicit override, the raw contents of
/// the configuration file where it could be read, and the current working
/// directory.
pub fn resolve_root(explicit: &Option<String>, config: &Option<String>, cwd: &str) -> (r: String)
    ensures
        r@ == spec_resolve_root(opt_view(*explicit), opt_view(*config), cwd@),
{
    match explicit {
        Some(e) => {
            if e.as_str().unicode_len() > 0 {
                return e.clone();
            }
        },
        None => {},
    }
    match config {
        Some(c) => {
            match config_root_value(c.as_str()) {
                Some(v) => v,
                None => String::from_str(cwd),
            }
        },
        None => String::from_str(cwd),
    }
}

/// Relies on dirs::home_dir: the path of the user's home directory, where one
/// can be determined. The result depends on the environment alone, so nothing
/// is assumed of it.
#[verifier::external_body]
fn home_dir_string() -> (r: Option<String>) {
    dirs::home_dir().map(|p| p.to_string_lossy().into_owned())
}

/// The fixed location of the configuration file, relative to the user's home
/// directory.
pub open spec fn spec_config_rel() -> Seq<char> {
    "/.config/doc.conf"@
}

/// The configuration file's path under a given home directory: the fixed
/// relative location appended to it.
pub fn config_path(home: &str) -> (r: String)
    ensures
        r@ == home@ + spec_config_rel(),
{
    let mut p = String::from_str(home);
    p.append("/.config/doc.conf");
    p
}

/// The well-known location of the persisted configuration file: the fixed
/// relative path under the user's home directory, or nothing where no home
/// directory can be determined. The home value itself depends on the
/// environment; `config_path` fixes what is made of it.
pub fn config_location() -> (r: Option<String>)
    ensures
        r matches Some(p) ==> spec_config_rel().is_suffix_of(p@),
{
    match home_dir_string() {
        Some(h) => {
            let p = config_path(h.as_str());
            proof {
                crate::errors::lemma_suffix_of_concat(h@, spec_config_rel());
            }
            Some(p)
        },
        None => None,
    }
}

/// Law: root resolution precedence. With an explicit override, a populated
/// configuration value and a working directory all available, the override
/// wins; without an override the configuration value wins; with neither the
/// working directory is returned.
pub proof fn lemma_root_precedence(explicit: Seq<char>, config: Seq<char>, cwd: Seq<char>)
    requires
        explicit.len() > 0,
        spec_trim(config).len() > 0,
    ensures
        spec_resolve_root(Some(explicit), Some(config), cwd) == explicit,
        spec_resolve_root(None, Some(config), cwd) == spec_trim(config),
        spec_resolve_root(None, None, cwd) == cwd,
{
}

} // verus!
