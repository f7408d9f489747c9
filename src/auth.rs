//! Which files make up a cached login, under which directory name, and which
//! user name a run asked the download tool to remember.
use vstd::prelude::*;
use crate::text::{
    alnum_at, chars_of, chars_equal, contains_chars, contains_seq, has_at, is_ascii_alnum,
    lower, lower_at, matches_at, split_words, string_of, words,
};

verus! {

/// ASCII lower-case of every character.
pub open spec fn lower_seq(s: Seq<char>) -> Seq<char> {
    Seq::new(s.len(), |i: int| lower(s[i]))
}

fn lower_chars(s: &[char]) -> (r: Vec<char>)
    ensures
        r@ == lower_seq(s@),
{
    let mut out: Vec<char> = Vec::new();
    let mut i: usize = 0;
    while i < s.len()
        invariant
            i <= s@.len(),
            out@ == lower_seq(s@).subrange(0, i as int),
        decreases s@.len() - i,
    {
        out.push(lower_at(s[i]));
        i = i + 1;
        assert(out@ =~= lower_seq(s@).subrange(0, i as int));
    }
    assert(lower_seq(s@).subrange(0, s@.len() as int) =~= lower_seq(s@));
    out
}

/// Login files kept at the root of a cached login.
pub open spec fn is_root_auth_name(name: Seq<char>) -> bool {
    let l = lower_seq(name);
    has_at(l, 0, "ssfn"@) || l == "sentry.bin"@ || l == "config.json"@ || l
        == "loginusers.vdf"@
}

/// Login files kept under the `config` directory of a cached login.
pub open spec fn is_config_auth_name(name: Seq<char>) -> bool {
    let l = lower_seq(name);
    l == "loginusers.vdf"@ || l == "config.vdf"@ || l == "config.json"@ || l == "sentry.bin"@
}

fn eq_lit(v: &Vec<char>, lit: &str) -> (r: bool)
    ensures
        r == (v@ == lit@),
{
    let l = chars_of(lit);
    chars_equal(v.as_slice(), l.as_slice())
}

/// Whether a file at the root of the tool's directory belongs to a cached login
/// (letters compared without case).
pub fn is_auth_root_file(name: &str) -> (r: bool)
    ensures
        r == is_root_auth_name(name@),
{
    let l = lower_chars(chars_of(name).as_slice());
    let ssfn = chars_of("ssfn");
    if matches_at(l.as_slice(), 0, ssfn.as_slice()) {
        return true;
    }
    eq_lit(&l, "sentry.bin") || eq_lit(&l, "config.json") || eq_lit(&l, "loginusers.vdf")
}

/// Whether a file of the tool's `config` directory belongs to a cached login
/// (letters compared without case).
pub fn is_auth_config_file(name: &str) -> (r: bool)
    ensures
        r == is_config_auth_name(name@),
{
    let l = lower_chars(chars_of(name).as_slice());
    eq_lit(&l, "loginusers.vdf") || eq_lit(&l, "config.vdf") || eq_lit(&l, "config.json")
        || eq_lit(&l, "sentry.bin")
}

/// What one character of a user name becomes in a directory name.
pub open spec fn user_char(c: char) -> char {
    if is_ascii_alnum(c) || c == '-' || c == '_' || c == '.' {
        c
    } else {
        '_'
    }
}

/// `s` without leading underscores.
pub open spec fn strip_start_underscores(s: Seq<char>) -> Seq<char>
    decreases s.len(),
{
    if s.len() > 0 && s[0] == '_' {
        strip_start_underscores(s.subrange(1, s.len() as int))
    } else {
        s
    }
}

/// `s` without trailing underscores.
pub open spec fn strip_end_underscores(s: Seq<char>) -> Seq<char>
    decreases s.len(),
{
    if s.len() > 0 && s.last() == '_' {
        strip_end_underscores(s.drop_last())
    } else {
        s
    }
}

/// The directory name of a user's cached login: characters other than ASCII
/// letters, digits, `-`, `_` and `.` become `_`, underscores are stripped from
/// both ends, and an empty result becomes `user`.
pub open spec fn user_chars(username: Seq<char>) -> Seq<char> {
    Seq::new(username.len(), |i: int| user_char(username[i]))
}

pub open spec fn auth_dir_name(username: Seq<char>) -> Seq<char> {
    let mapped = user_chars(username);
    let t = strip_end_underscores(strip_start_underscores(mapped));
    if t.len() == 0 {
        "user"@
    } else {
        t
    }
}

/// The directory name under which a user's login is cached.
pub fn sanitize_auth_username(username: &str) -> (r: String)
    ensures
        r@ == auth_dir_name(username@),
{
    let s = chars_of(username);
    let ghost mapped = user_chars(username@);
    let mut m: Vec<char> = Vec::new();
    let mut i: usize = 0;
    while i < s.len()
        invariant
            s@ == username@,
            mapped == user_chars(username@),
            i <= s@.len(),
            m@ == mapped.subrange(0, i as int),
        decreases s@.len() - i,
    {
        let c = s[i];
        assert(mapped[i as int] == user_char(c));
        if alnum_at(c) || c == '-' || c == '_' || c == '.' {
            m.push(c);
        } else {
            m.push('_');
        }
        i = i + 1;
        assert(m@ =~= mapped.subrange(0, i as int));
    }
    assert(mapped.subrange(0, s@.len() as int) =~= mapped);
    let mut a: usize = 0;
    while a < m.len() && m[a] == '_'
        invariant
            a <= m@.len(),
            m@ == mapped,
            strip_start_underscores(m@.subrange(a as int, m@.len() as int))
                == strip_start_underscores(mapped),
        decreases m@.len() - a,
    {
        assert(m@.subrange(a as int, m@.len() as int).subrange(1, m@.len() - a) =~= m@.subrange(
            a + 1,
            m@.len() as int,
        ));
        a = a + 1;
    }
    let ghost t = m@.subrange(a as int, m@.len() as int);
    let mut b: usize = m.len();
    while b > a && m[b - 1] == '_'
        invariant
            a <= b <= m@.len(),
            t == m@.subrange(a as int, m@.len() as int),
            strip_end_underscores(m@.subrange(a as int, b as int)) == strip_end_underscores(t),
        decreases b,
    {
        assert(m@.subrange(a as int, b as int).drop_last() =~= m@.subrange(a as int, b - 1));
        b = b - 1;
    }
    if a == b {
        "user".to_string()
    } else {
        string_of(&crate::text::slice_chars(m.as_slice(), a, b))
    }
}

/// The word after the first `-username` word of a list, when there is one.
pub open spec fn word_after_flag(ws: Seq<Seq<char>>, from: int) -> Option<Seq<char>>
    decreases ws.len() - from,
{
    if from < 0 || from >= ws.len() {
        None
    } else if ws[from] == "-username"@ {
        if from + 1 < ws.len() {
            Some(ws[from + 1])
        } else {
            None
        }
    } else {
        word_after_flag(ws, from + 1)
    }
}

/// The user name that a line echoing the tool's command line asked it to
/// remember: only a line holding both `-remember-password` and `-username`.
pub open spec fn remembered_user(line: Seq<char>) -> Option<Seq<char>> {
    if contains_seq(line, "-remember-password"@) && contains_seq(line, "-username"@) {
        word_after_flag(words(line), 0)
    } else {
        None
    }
}

/// Reads the remembered user name out of a line of the tool's output.
pub fn remembered_username(line: &str) -> (r: Option<String>)
    ensures
        r matches Some(u) ==> remembered_user(line@) == Some(u@),
        r is None ==> remembered_user(line@) is None,
{
    let s = chars_of(line);
    let rp = chars_of("-remember-password");
    let un = chars_of("-username");
    if !contains_chars(s.as_slice(), rp.as_slice()) || !contains_chars(s.as_slice(), un.as_slice()) {
        return None;
    }
    let ws = split_words(s.as_slice());
    let ghost w = words(line@);
    let mut i: usize = 0;
    while i < ws.len()
        invariant
            un@ == "-username"@,
            ws@.len() == w.len(),
            forall|k: int| 0 <= k < ws@.len() ==> (#[trigger] ws@[k])@ == w[k],
            i <= ws@.len(),
            word_after_flag(w, i as int) == word_after_flag(w, 0),
            remembered_user(line@) == word_after_flag(w, 0),
        decreases ws@.len() - i,
    {
        if chars_equal(ws[i].as_slice(), un.as_slice()) {
            if i + 1 < ws.len() {
                return Some(string_of(&ws[i + 1]));
            }
            return None;
        }
        i = i + 1;
    }
    None
}

} // verus!
