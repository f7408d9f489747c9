//! The grammar of the download tool's console lines: one recognizer per kind
//! of line, each found at its leftmost position in the line.
use vstd::prelude::*;
use crate::text::{
    chars_of, digits_end, has_at, has_at_nocase, is_ascii_digit, is_space, lower, lower_at,
    matches_at, matches_at_nocase, scan_digits, scan_spaces, spaces_end, digit_at, space_at,
};

verus! {

/// The first result of `f` at a position in `from..end`.
pub open spec fn first_from<T>(f: spec_fn(int) -> Option<T>, from: int, end: int) -> Option<T>
    decreases end - from,
{
    if from >= end {
        None
    } else if f(from) is Some {
        f(from)
    } else {
        first_from(f, from + 1, end)
    }
}

/// `s[i..i+w.len()]` is `w`, with the first letter in either case.
pub open spec fn word_at(s: Seq<char>, i: int, w: Seq<char>) -> bool {
    &&& w.len() > 0
    &&& 0 <= i && i + w.len() <= s.len()
    &&& lower(s[i]) == lower(w[0])
    &&& forall|k: int| 1 <= k < w.len() ==> #[trigger] s[i + k] == w[k]
}

pub fn word_at_exec(s: &[char], i: usize, w: &[char]) -> (r: bool)
    ensures
        r == word_at(s@, i as int, w@),
{
    let n = s.len();
    if w.len() == 0 || i > n || w.len() > n - i {
        return false;
    }
    if lower_at(s[i]) != lower_at(w[0]) {
        return false;
    }
    let mut k: usize = 1;
    while k < w.len()
        invariant
            n == s@.len(),
            i + w@.len() <= n,
            1 <= k <= w@.len(),
            forall|j: int| 1 <= j < k ==> #[trigger] s@[i + j] == w@[j],
        decreases w@.len() - k,
    {
        if s[i + k] != w[k] {
            return false;
        }
        k = k + 1;
    }
    true
}

/// After `[Dd]epot` at `i`: one or more spaces, then digits; the bounds of the digits.
pub open spec fn depot_id_at(s: Seq<char>, i: int) -> Option<(int, int)> {
    if !word_at(s, i, "depot"@) {
        None
    } else {
        let p = i + 5;
        let q = spaces_end(s, p);
        let r = digits_end(s, q);
        if q > p && r > q {
            Some((q, r))
        } else {
            None
        }
    }
}

/// `[Dd]epot <id> "<name>"`: the bounds of the id and of the name.
pub open spec fn depot_name_at(s: Seq<char>, i: int) -> Option<(int, int, int, int)> {
    match depot_id_at(s, i) {
        None => None,
        Some((q, r)) => {
            let t = spaces_end(s, r);
            if t > r && t < s.len() && s[t] == '"' {
                let u = quote_end(s, t + 1);
                if u > t + 1 && u < s.len() {
                    Some((q, r, t + 1, u))
                } else {
                    None
                }
            } else {
                None
            }
        },
    }
}

/// Index of the first `"` at or after `from` (or the length).
pub open spec fn quote_end(s: Seq<char>, from: int) -> int
    decreases s.len() - from,
{
    if from < 0 || from >= s.len() || s[from] == '"' {
        from
    } else {
        quote_end(s, from + 1)
    }
}

pub open spec fn is_dash(c: char) -> bool {
    c == '-' || c == '\u{2013}'
}

/// `[Dd]epot <id> - [Mm]anifest <id>`: the bounds of both ids.
pub open spec fn depot_manifest_at(s: Seq<char>, i: int) -> Option<(int, int, int, int)> {
    match depot_id_at(s, i) {
        None => None,
        Some((q, r)) => {
            let t = spaces_end(s, r);
            if t < s.len() && is_dash(s[t]) {
                let u = spaces_end(s, t + 1);
                match manifest_id_at(s, u) {
                    Some((a, b)) => Some((q, r, a, b)),
                    None => None,
                }
            } else {
                None
            }
        },
    }
}

/// `[Mm]anifest <id>` at `i`: the bounds of the id.
pub open spec fn manifest_id_at(s: Seq<char>, i: int) -> Option<(int, int)> {
    if !word_at(s, i, "manifest"@) {
        None
    } else {
        let p = i + 8;
        let q = spaces_end(s, p);
        let r = digits_end(s, q);
        if q > p && r > q {
            Some((q, r))
        } else {
            None
        }
    }
}

pub fn quote_scan(s: &[char], from: usize) -> (r: usize)
    requires
        from <= s@.len(),
    ensures
        r == quote_end(s@, from as int),
        from <= r <= s@.len(),
{
    let mut i = from;
    while i < s.len() && s[i] != '"'
        invariant
            from <= i <= s@.len(),
            quote_end(s@, i as int) == quote_end(s@, from as int),
        decreases s@.len() - i,
    {
        i = i + 1;
    }
    i
}

pub fn depot_id_exec(s: &[char], i: usize, depot: &[char]) -> (r: Option<(usize, usize)>)
    requires
        depot@ == "depot"@,
    ensures
        r matches Some((a, b)) ==> depot_id_at(s@, i as int) == Some((a as int, b as int)) && a
            < b <= s@.len(),
        r is None ==> depot_id_at(s@, i as int) is None,
{
    let n = s.len();
    if !word_at_exec(s, i, depot) {
        return None;
    }
    proof {
        reveal_strlit("depot");
    }
    let p = i + 5;
    let q = scan_spaces(s, p);
    let r = scan_digits(s, q);
    if q > p && r > q {
        Some((q, r))
    } else {
        None
    }
}

pub fn manifest_id_exec(s: &[char], i: usize, manifest: &[char]) -> (r: Option<(usize, usize)>)
    requires
        manifest@ == "manifest"@,
        i <= s@.len(),
    ensures
        r matches Some((a, b)) ==> manifest_id_at(s@, i as int) == Some((a as int, b as int))
            && a < b <= s@.len(),
        r is None ==> manifest_id_at(s@, i as int) is None,
{
    let n = s.len();
    if !word_at_exec(s, i, manifest) {
        return None;
    }
    proof {
        reveal_strlit("manifest");
    }
    let p = i + 8;
    let q = scan_spaces(s, p);
    let r = scan_digits(s, q);
    if q > p && r > q {
        Some((q, r))
    } else {
        None
    }
}

} // verus!

verus! {

pub open spec fn depot_name_f(s: Seq<char>) -> spec_fn(int) -> Option<(int, int, int, int)> {
    |i: int| depot_name_at(s, i)
}

pub open spec fn depot_manifest_f(s: Seq<char>) -> spec_fn(int) -> Option<(int, int, int, int)> {
    |i: int| depot_manifest_at(s, i)
}

pub open spec fn depot_id_f(s: Seq<char>) -> spec_fn(int) -> Option<(int, int)> {
    |i: int| depot_id_at(s, i)
}

pub open spec fn manifest_id_f(s: Seq<char>) -> spec_fn(int) -> Option<(int, int)> {
    |i: int| manifest_id_at(s, i)
}

/// Leftmost `[Dd]epot <id> "<name>"` of a line.
pub open spec fn find_depot_name(s: Seq<char>) -> Option<(int, int, int, int)> {
    first_from(depot_name_f(s), 0, s.len() as int)
}

/// Leftmost `[Dd]epot <id> - [Mm]anifest <id>` of a line.
pub open spec fn find_depot_manifest(s: Seq<char>) -> Option<(int, int, int, int)> {
    first_from(depot_manifest_f(s), 0, s.len() as int)
}

/// Leftmost `[Dd]epot <id>` of a line.
pub open spec fn find_depot_id(s: Seq<char>) -> Option<(int, int)> {
    first_from(depot_id_f(s), 0, s.len() as int)
}

/// Leftmost `[Mm]anifest <id>` of a line.
pub open spec fn find_manifest_id(s: Seq<char>) -> Option<(int, int)> {
    first_from(manifest_id_f(s), 0, s.len() as int)
}

pub fn depot_name_exec(s: &[char], i: usize, depot: &[char]) -> (r: Option<(usize, usize, usize, usize)>)
    requires
        depot@ == "depot"@,
    ensures
        r matches Some((a, b, c, d)) ==> depot_name_at(s@, i as int) == Some((a as int, b as int, c as int, d as int)) && a < b <= s@.len() && c < d <= s@.len(),
        r is None ==> depot_name_at(s@, i as int) is None,
{
    match depot_id_exec(s, i, depot) {
        None => None,
        Some((q, r)) => {
            let t = scan_spaces(s, r);
            if t > r && t < s.len() && s[t] == '"' {
                let u = quote_scan(s, t + 1);
                if u > t + 1 && u < s.len() {
                    Some((q, r, t + 1, u))
                } else {
                    None
                }
            } else {
                None
            }
        },
    }
}

pub fn depot_manifest_exec(s: &[char], i: usize, depot: &[char], manifest: &[char]) -> (r: Option<(usize, usize, usize, usize)>)
    requires
        depot@ == "depot"@,
        manifest@ == "manifest"@,
    ensures
        r matches Some((a, b, c, d)) ==> depot_manifest_at(s@, i as int) == Some((a as int, b as int, c as int, d as int)) && a < b <= s@.len() && c < d <= s@.len(),
        r is None ==> depot_manifest_at(s@, i as int) is None,
{
    match depot_id_exec(s, i, depot) {
        None => None,
        Some((q, r)) => {
            let t = scan_spaces(s, r);
            if t < s.len() && (s[t] == '-' || s[t] == '\u{2013}') {
                let u = scan_spaces(s, t + 1);
                match manifest_id_exec(s, u, manifest) {
                    Some((a, b)) => Some((q, r, a, b)),
                    None => None,
                }
            } else {
                None
            }
        },
    }
}

pub fn search_depot_name(s: &[char]) -> (r: Option<(usize, usize, usize, usize)>)
    ensures
        r matches Some((a, b, c, d)) ==> find_depot_name(s@) == Some((a as int, b as int, c as int, d as int)) && a < b <= s@.len() && c < d <= s@.len(),
        r is None ==> find_depot_name(s@) is None,
{
    let depot = chars_of("depot");
    let mut i: usize = 0;
    while i < s.len()
        invariant
            depot@ == "depot"@,
            i <= s@.len(),
            first_from(depot_name_f(s@), i as int, s@.len() as int) == find_depot_name(s@),
        decreases s@.len() - i,
    {
        let m = depot_name_exec(s, i, depot.as_slice());
        if m.is_some() {
            return m;
        }
        i = i + 1;
    }
    None
}

pub fn search_depot_manifest(s: &[char]) -> (r: Option<(usize, usize, usize, usize)>)
    ensures
        r matches Some((a, b, c, d)) ==> find_depot_manifest(s@) == Some((a as int, b as int, c as int, d as int)) && a < b <= s@.len() && c < d <= s@.len(),
        r is None ==> find_depot_manifest(s@) is None,
{
    let depot = chars_of("depot");
    let manifest = chars_of("manifest");
    let mut i: usize = 0;
    while i < s.len()
        invariant
            depot@ == "depot"@,
            manifest@ == "manifest"@,
            i <= s@.len(),
            first_from(depot_manifest_f(s@), i as int, s@.len() as int) == find_depot_manifest(s@),
        decreases s@.len() - i,
    {
        let m = depot_manifest_exec(s, i, depot.as_slice(), manifest.as_slice());
        if m.is_some() {
            return m;
        }
        i = i + 1;
    }
    None
}

pub fn search_depot_id(s: &[char]) -> (r: Option<(usize, usize)>)
    ensures
        r matches Some((a, b)) ==> find_depot_id(s@) == Some((a as int, b as int)) && a < b <= s@.len(),
        r is None ==> find_depot_id(s@) is None,
{
    let depot = chars_of("depot");
    let mut i: usize = 0;
    while i < s.len()
        invariant
            depot@ == "depot"@,
            i <= s@.len(),
            first_from(depot_id_f(s@), i as int, s@.len() as int) == find_depot_id(s@),
        decreases s@.len() - i,
    {
        let m = depot_id_exec(s, i, depot.as_slice());
        if m.is_some() {
            return m;
        }
        i = i + 1;
    }
    None
}

pub fn search_manifest_id(s: &[char]) -> (r: Option<(usize, usize)>)
    ensures
        r matches Some((a, b)) ==> find_manifest_id(s@) == Some((a as int, b as int)) && a < b <= s@.len(),
        r is None ==> find_manifest_id(s@) is None,
{
    let manifest = chars_of("manifest");
    let mut i: usize = 0;
    while i < s.len()
        invariant
            manifest@ == "manifest"@,
            i <= s@.len(),
            first_from(manifest_id_f(s@), i as int, s@.len() as int) == find_manifest_id(s@),
        decreases s@.len() - i,
    {
        let m = manifest_id_exec(s, i, manifest.as_slice());
        if m.is_some() {
            return m;
        }
        i = i + 1;
    }
    None
}

} // verus!

verus! {

/// `"name" "<value>"` at `i`: the bounds of the value.
pub open spec fn appinfo_name_at(s: Seq<char>, i: int) -> Option<(int, int)> {
    if !has_at(s, i, "\"name\""@) {
        None
    } else {
        let p = i + 6;
        let q = spaces_end(s, p);
        if q > p && q < s.len() && s[q] == '"' {
            let u = quote_end(s, q + 1);
            if u > q + 1 && u < s.len() {
                Some((q + 1, u))
            } else {
                None
            }
        } else {
            None
        }
    }
}

pub open spec fn is_assign(c: char) -> bool {
    c == '=' || c == ':'
}

/// `[Bb]uild[Ii][Dd] = <digits>` at `i`: the bounds of the digits.
pub open spec fn build_id_at(s: Seq<char>, i: int) -> Option<(int, int)> {
    if !(0 <= i && i + 7 <= s.len() && lower(s[i]) == 'b' && s[i + 1] == 'u' && s[i + 2] == 'i'
        && s[i + 3] == 'l' && s[i + 4] == 'd' && lower(s[i + 5]) == 'i' && lower(s[i + 6])
        == 'd') {
        None
    } else {
        let q = spaces_end(s, i + 7);
        if q < s.len() && is_assign(s[q]) {
            let a = spaces_end(s, q + 1);
            let b = digits_end(s, a);
            if b > a {
                Some((a, b))
            } else {
                None
            }
        } else {
            None
        }
    }
}

/// Index of the first ASCII digit at or after `from` (or the length).
pub open spec fn nondigits_end(s: Seq<char>, from: int) -> int
    decreases s.len() - from,
{
    if from < 0 || from >= s.len() || is_ascii_digit(s[from]) {
        from
    } else {
        nondigits_end(s, from + 1)
    }
}

/// After a keyword ending at `p`: any non-digits, then nine or more digits.
pub open spec fn epoch_digits_after(s: Seq<char>, p: int) -> Option<(int, int)> {
    let j = nondigits_end(s, p);
    let k = digits_end(s, j);
    if k - j >= 9 {
        Some((j, k))
    } else {
        None
    }
}

/// Index of the first character at or after `from` that is neither `_` nor white space.
pub open spec fn gap_end(s: Seq<char>, from: int) -> int
    decreases s.len() - from,
{
    if from < 0 || from >= s.len() || !(s[from] == '_' || is_space(s[from])) {
        from
    } else {
        gap_end(s, from + 1)
    }
}

/// The kinds of epoch-bearing fields.
pub enum EpochField {
    TimeUpdated,
    LastUpdated,
    BuildDate,
}

/// An epoch-bearing field of the given kind at `i` (letters in any case): the
/// bounds of its digits.
pub open spec fn epoch_field_at(s: Seq<char>, i: int, kind: EpochField) -> Option<(int, int)> {
    match kind {
        EpochField::TimeUpdated => {
            if has_at_nocase(s, i, "timeupdated"@) {
                epoch_digits_after(s, i + 11)
            } else {
                None
            }
        },
        EpochField::LastUpdated => {
            if has_at_nocase(s, i, "last"@) && has_at_nocase(s, spaces_end(s, i + 4), "updated"@) {
                epoch_digits_after(s, spaces_end(s, i + 4) + 7)
            } else {
                None
            }
        },
        EpochField::BuildDate => {
            if has_at_nocase(s, i, "build"@) && has_at_nocase(s, gap_end(s, i + 5), "date"@) {
                epoch_digits_after(s, gap_end(s, i + 5) + 4)
            } else {
                None
            }
        },
    }
}

/// Index of the first `)` or line feed at or after `from` (or the length).
pub open spec fn paren_end(s: Seq<char>, from: int) -> int
    decreases s.len() - from,
{
    if from < 0 || from >= s.len() || s[from] == ')' || s[from] == '\n' {
        from
    } else {
        paren_end(s, from + 1)
    }
}

/// `manifest <id> (<text>)` at `i` (letters in any case), the text being the
/// shortest non-empty one: the bounds of the id and of the text.
pub open spec fn manifest_time_at(s: Seq<char>, i: int) -> Option<(int, int, int, int)> {
    if !has_at_nocase(s, i, "manifest"@) {
        None
    } else {
        let p = i + 8;
        let q = spaces_end(s, p);
        let r = digits_end(s, q);
        let t = spaces_end(s, r);
        if q > p && r > q && t > r && t < s.len() && t + 1 < s.len() && s[t] == '(' && s[t + 1] != '\n' {
            let e = paren_end(s, t + 2);
            if e < s.len() && s[e] == ')' {
                Some((q, r, t + 1, e))
            } else {
                None
            }
        } else {
            None
        }
    }
}

/// What may follow `installdir =`: optional spaces, an optional quote, then a
/// character that is neither a quote nor a line feed.
pub open spec fn installdir_tail(s: Seq<char>, p: int) -> bool
    decreases s.len() - p,
{
    if p < 0 || p >= s.len() {
        false
    } else if s[p] == '\n' {
        installdir_tail(s, p + 1)
    } else if s[p] == '"' {
        p + 1 < s.len() && s[p + 1] != '"' && s[p + 1] != '\n'
    } else {
        true
    }
}

/// `installdir = <value>` at `i`.
pub open spec fn installdir_at(s: Seq<char>, i: int) -> bool {
    has_at(s, i, "installdir"@) && {
        let q = spaces_end(s, i + 10);
        q < s.len() && is_assign(s[q]) && installdir_tail(s, q + 1)
    }
}

pub open spec fn appinfo_name_f(s: Seq<char>) -> spec_fn(int) -> Option<(int, int)> {
    |i: int| appinfo_name_at(s, i)
}

pub open spec fn build_id_f(s: Seq<char>) -> spec_fn(int) -> Option<(int, int)> {
    |i: int| build_id_at(s, i)
}

pub open spec fn epoch_field_f(s: Seq<char>, kind: EpochField) -> spec_fn(int) -> Option<
    (int, int),
> {
    |i: int| epoch_field_at(s, i, kind)
}

pub open spec fn manifest_time_f(s: Seq<char>) -> spec_fn(int) -> Option<(int, int, int, int)> {
    |i: int| manifest_time_at(s, i)
}

pub open spec fn installdir_f(s: Seq<char>) -> spec_fn(int) -> Option<()> {
    |i: int|
        if installdir_at(s, i) {
            Some(())
        } else {
            None
        }
}

/// Leftmost `"name" "<value>"` of a line.
pub open spec fn find_appinfo_name(s: Seq<char>) -> Option<(int, int)> {
    first_from(appinfo_name_f(s), 0, s.len() as int)
}

/// Leftmost build-id field of a line.
pub open spec fn find_build_id(s: Seq<char>) -> Option<(int, int)> {
    first_from(build_id_f(s), 0, s.len() as int)
}

/// Leftmost epoch-bearing field of the given kind in a line.
pub open spec fn find_epoch_field(s: Seq<char>, kind: EpochField) -> Option<(int, int)> {
    first_from(epoch_field_f(s, kind), 0, s.len() as int)
}

/// Leftmost `manifest <id> (<text>)` of a line.
pub open spec fn find_manifest_time(s: Seq<char>) -> Option<(int, int, int, int)> {
    first_from(manifest_time_f(s), 0, s.len() as int)
}

/// Whether a line holds an `installdir` field.
pub open spec fn has_installdir(s: Seq<char>) -> bool {
    first_from(installdir_f(s), 0, s.len() as int) is Some
}

} // verus!

verus! {

fn nondigits_scan(s: &[char], from: usize) -> (r: usize)
    requires
        from <= s@.len(),
    ensures
        r == nondigits_end(s@, from as int),
        from <= r <= s@.len(),
{
    let mut i = from;
    while i < s.len() && !digit_at(s[i])
        invariant
            from <= i <= s@.len(),
            nondigits_end(s@, i as int) == nondigits_end(s@, from as int),
        decreases s@.len() - i,
    {
        i = i + 1;
    }
    i
}

fn gap_scan(s: &[char], from: usize) -> (r: usize)
    requires
        from <= s@.len(),
    ensures
        r == gap_end(s@, from as int),
        from <= r <= s@.len(),
{
    let mut i = from;
    while i < s.len() && (s[i] == '_' || space_at(s[i]))
        invariant
            from <= i <= s@.len(),
            gap_end(s@, i as int) == gap_end(s@, from as int),
        decreases s@.len() - i,
    {
        i = i + 1;
    }
    i
}

fn paren_scan(s: &[char], from: usize) -> (r: usize)
    requires
        from <= s@.len(),
    ensures
        r == paren_end(s@, from as int),
        from <= r <= s@.len(),
{
    let mut i = from;
    while i < s.len() && s[i] != ')' && s[i] != '\n'
        invariant
            from <= i <= s@.len(),
            paren_end(s@, i as int) == paren_end(s@, from as int),
        decreases s@.len() - i,
    {
        i = i + 1;
    }
    i
}

fn installdir_tail_exec(s: &[char], p: usize) -> (r: bool)
    ensures
        r == installdir_tail(s@, p as int),
{
    let mut i = p;
    while i < s.len() && s[i] == '\n'
        invariant
            p <= i,
            installdir_tail(s@, i as int) == installdir_tail(s@, p as int),
        decreases s@.len() - i,
    {
        i = i + 1;
    }
    if i >= s.len() {
        false
    } else if s[i] == '"' {
        i + 1 < s.len() && s[i + 1] != '"' && s[i + 1] != '\n'
    } else {
        true
    }
}

fn epoch_digits_exec(s: &[char], p: usize) -> (r: Option<(usize, usize)>)
    requires
        p <= s@.len(),
    ensures
        r matches Some((a, b)) ==> epoch_digits_after(s@, p as int) == Some((a as int, b as int))
            && a < b <= s@.len(),
        r is None ==> epoch_digits_after(s@, p as int) is None,
{
    let j = nondigits_scan(s, p);
    let k = scan_digits(s, j);
    if k - j >= 9 {
        Some((j, k))
    } else {
        None
    }
}

pub struct Keywords {
    pub depot: Vec<char>,
    pub manifest: Vec<char>,
    pub name_field: Vec<char>,
    pub timeupdated: Vec<char>,
    pub last: Vec<char>,
    pub updated: Vec<char>,
    pub build: Vec<char>,
    pub date: Vec<char>,
    pub installdir: Vec<char>,
}

impl Keywords {
    pub open spec fn wf(&self) -> bool {
        &&& self.depot@ == "depot"@
        &&& self.manifest@ == "manifest"@
        &&& self.name_field@ == "\"name\""@
        &&& self.timeupdated@ == "timeupdated"@
        &&& self.last@ == "last"@
        &&& self.updated@ == "updated"@
        &&& self.build@ == "build"@
        &&& self.date@ == "date"@
        &&& self.installdir@ == "installdir"@
    }

    pub fn new() -> (r: Keywords)
        ensures
            r.wf(),
    {
        Keywords {
            depot: chars_of("depot"),
            manifest: chars_of("manifest"),
            name_field: chars_of("\"name\""),
            timeupdated: chars_of("timeupdated"),
            last: chars_of("last"),
            updated: chars_of("updated"),
            build: chars_of("build"),
            date: chars_of("date"),
            installdir: chars_of("installdir"),
        }
    }
}

fn appinfo_name_exec(s: &[char], i: usize, kw: &Keywords) -> (r: Option<(usize, usize)>)
    requires
        kw.wf(),
    ensures
        r matches Some((a, b)) ==> appinfo_name_at(s@, i as int) == Some((a as int, b as int))
            && a < b <= s@.len(),
        r is None ==> appinfo_name_at(s@, i as int) is None,
{
    let n = s.len();
    if !matches_at(s, i, kw.name_field.as_slice()) {
        return None;
    }
    proof {
        reveal_strlit("\"name\"");
    }
    let p = i + 6;
    let q = scan_spaces(s, p);
    if q > p && q < s.len() && s[q] == '"' {
        let u = quote_scan(s, q + 1);
        if u > q + 1 && u < s.len() {
            Some((q + 1, u))
        } else {
            None
        }
    } else {
        None
    }
}

fn build_id_exec(s: &[char], i: usize) -> (r: Option<(usize, usize)>)
    ensures
        r matches Some((a, b)) ==> build_id_at(s@, i as int) == Some((a as int, b as int)) && a
            < b <= s@.len(),
        r is None ==> build_id_at(s@, i as int) is None,
{
    let n = s.len();
    if !(i <= n && 7 <= n - i && lower_at(s[i]) == 'b' && s[i + 1] == 'u' && s[i + 2] == 'i'
        && s[i + 3] == 'l' && s[i + 4] == 'd' && lower_at(s[i + 5]) == 'i' && lower_at(s[i + 6])
        == 'd') {
        return None;
    }
    let q = scan_spaces(s, i + 7);
    if q < s.len() && (s[q] == '=' || s[q] == ':') {
        let a = scan_spaces(s, q + 1);
        let b = scan_digits(s, a);
        if b > a {
            Some((a, b))
        } else {
            None
        }
    } else {
        None
    }
}

fn epoch_field_exec(s: &[char], i: usize, kind: &EpochField, kw: &Keywords) -> (r: Option<
    (usize, usize),
>)
    requires
        kw.wf(),
    ensures
        r matches Some((a, b)) ==> epoch_field_at(s@, i as int, *kind) == Some(
            (a as int, b as int),
        ) && a < b <= s@.len(),
        r is None ==> epoch_field_at(s@, i as int, *kind) is None,
{
    let n = s.len();
    proof {
        reveal_strlit("timeupdated");
        reveal_strlit("last");
        reveal_strlit("updated");
        reveal_strlit("build");
        reveal_strlit("date");
    }
    match kind {
        EpochField::TimeUpdated => {
            if matches_at_nocase(s, i, kw.timeupdated.as_slice()) {
                epoch_digits_exec(s, i + 11)
            } else {
                None
            }
        },
        EpochField::LastUpdated => {
            if matches_at_nocase(s, i, kw.last.as_slice()) {
                let q = scan_spaces(s, i + 4);
                if matches_at_nocase(s, q, kw.updated.as_slice()) {
                    epoch_digits_exec(s, q + 7)
                } else {
                    None
                }
            } else {
                None
            }
        },
        EpochField::BuildDate => {
            if matches_at_nocase(s, i, kw.build.as_slice()) {
                let q = gap_scan(s, i + 5);
                if matches_at_nocase(s, q, kw.date.as_slice()) {
                    epoch_digits_exec(s, q + 4)
                } else {
                    None
                }
            } else {
                None
            }
        },
    }
}

fn manifest_time_exec(s: &[char], i: usize, kw: &Keywords) -> (r: Option<
    (usize, usize, usize, usize),
>)
    requires
        kw.wf(),
    ensures
        r matches Some((a, b, c, d)) ==> manifest_time_at(s@, i as int) == Some(
            (a as int, b as int, c as int, d as int),
        ) && a < b <= s@.len() && c < d <= s@.len(),
        r is None ==> manifest_time_at(s@, i as int) is None,
{
    let n = s.len();
    if !matches_at_nocase(s, i, kw.manifest.as_slice()) {
        return None;
    }
    proof {
        reveal_strlit("manifest");
    }
    let p = i + 8;
    let q = scan_spaces(s, p);
    let r = scan_digits(s, q);
    let t = scan_spaces(s, r);
    if q > p && r > q && t > r && t < s.len() && t + 1 < s.len() && s[t] == '(' && s[t + 1] != '\n' {
        let e = paren_scan(s, t + 2);
        if e < s.len() && s[e] == ')' {
            Some((q, r, t + 1, e))
        } else {
            None
        }
    } else {
        None
    }
}

fn installdir_exec(s: &[char], i: usize, kw: &Keywords) -> (r: bool)
    requires
        kw.wf(),
    ensures
        r == installdir_at(s@, i as int),
{
    let n = s.len();
    if !matches_at(s, i, kw.installdir.as_slice()) {
        return false;
    }
    proof {
        reveal_strlit("installdir");
    }
    let q = scan_spaces(s, i + 10);
    q < s.len() && (s[q] == '=' || s[q] == ':') && installdir_tail_exec(s, q + 1)
}

pub fn search_appinfo_name(s: &[char], kw: &Keywords) -> (r: Option<(usize, usize)>)
    requires
        kw.wf(),
    ensures
        r matches Some((a, b)) ==> find_appinfo_name(s@) == Some((a as int, b as int)) && a < b
            <= s@.len(),
        r is None ==> find_appinfo_name(s@) is None,
{
    let mut i: usize = 0;
    while i < s.len()
        invariant
            i <= s@.len(),
            first_from(appinfo_name_f(s@), i as int, s@.len() as int) == find_appinfo_name(s@),
            kw.wf(),
        decreases s@.len() - i,
    {
        let m = appinfo_name_exec(s, i, kw);
        if m.is_some() {
            return m;
        }
        i = i + 1;
    }
    None
}

pub fn search_build_id(s: &[char]) -> (r: Option<(usize, usize)>)
    ensures
        r matches Some((a, b)) ==> find_build_id(s@) == Some((a as int, b as int)) && a < b
            <= s@.len(),
        r is None ==> find_build_id(s@) is None,
{
    let mut i: usize = 0;
    while i < s.len()
        invariant
            i <= s@.len(),
            first_from(build_id_f(s@), i as int, s@.len() as int) == find_build_id(s@),
        decreases s@.len() - i,
    {
        let m = build_id_exec(s, i);
        if m.is_some() {
            return m;
        }
        i = i + 1;
    }
    None
}

pub fn search_epoch_field(s: &[char], kind: &EpochField, kw: &Keywords) -> (r: Option<
    (usize, usize),
>)
    requires
        kw.wf(),
    ensures
        r matches Some((a, b)) ==> find_epoch_field(s@, *kind) == Some((a as int, b as int))
            && a < b <= s@.len(),
        r is None ==> find_epoch_field(s@, *kind) is None,
{
    let mut i: usize = 0;
    while i < s.len()
        invariant
            i <= s@.len(),
            first_from(epoch_field_f(s@, *kind), i as int, s@.len() as int) == find_epoch_field(
                s@,
                *kind,
            ),
            kw.wf(),
        decreases s@.len() - i,
    {
        let m = epoch_field_exec(s, i, kind, kw);
        if m.is_some() {
            return m;
        }
        i = i + 1;
    }
    None
}

pub fn search_manifest_time(s: &[char], kw: &Keywords) -> (r: Option<
    (usize, usize, usize, usize),
>)
    requires
        kw.wf(),
    ensures
        r matches Some((a, b, c, d)) ==> find_manifest_time(s@) == Some(
            (a as int, b as int, c as int, d as int),
        ) && a < b <= s@.len() && c < d <= s@.len(),
        r is None ==> find_manifest_time(s@) is None,
{
    let mut i: usize = 0;
    while i < s.len()
        invariant
            i <= s@.len(),
            first_from(manifest_time_f(s@), i as int, s@.len() as int) == find_manifest_time(
                s@,
            ),
            kw.wf(),
        decreases s@.len() - i,
    {
        let m = manifest_time_exec(s, i, kw);
        if m.is_some() {
            return m;
        }
        i = i + 1;
    }
    None
}

pub fn search_installdir(s: &[char], kw: &Keywords) -> (r: bool)
    requires
        kw.wf(),
    ensures
        r == has_installdir(s@),
{
    let mut i: usize = 0;
    while i < s.len()
        invariant
            i <= s@.len(),
            first_from(installdir_f(s@), i as int, s@.len() as int) is Some == has_installdir(
                s@,
            ),
            kw.wf(),
        decreases s@.len() - i,
    {
        if installdir_exec(s, i, kw) {
            return true;
        }
        i = i + 1;
    }
    false
}

} // verus!

verus! {

/// The AM/PM mark after a time of day.
#[derive(Clone, Copy, PartialEq, Eq, Structural)]
pub enum Meridiem {
    Unmarked,
    Am,
    Pm,
}

/// Calendar fields as written in a line, before any check of their ranges.
#[derive(Clone, Copy)]
pub struct ClockFields {
    pub year: u32,
    pub month: u32,
    pub day: u32,
    pub hour: u32,
    pub minute: u32,
    pub second: u32,
    pub meridiem: Meridiem,
}

pub open spec fn digit_run(s: Seq<char>, from: int, to: int) -> bool {
    0 <= from <= to <= s.len() && forall|k: int| from <= k < to ==> is_ascii_digit(#[trigger] s[k])
}

pub open spec fn value_of(s: Seq<char>, from: int, to: int) -> u32 {
    crate::text::digits_value(s.subrange(from, to)) as u32
}

/// End of one or two digits at `i` followed by `sep`, or -1.
pub open spec fn one_or_two(s: Seq<char>, i: int, sep: char) -> int {
    if 0 <= i && i + 2 < s.len() && is_ascii_digit(s[i]) && is_ascii_digit(s[i + 1]) && s[i + 2]
        == sep {
        i + 2
    } else if 0 <= i && i + 1 < s.len() && is_ascii_digit(s[i]) && s[i + 1] == sep {
        i + 1
    } else {
        -1
    }
}

/// `M/D/YYYY h:mm:ss[ AM|PM]` at `i`, month, day and hour of one or two digits.
pub open spec fn dotnet_at(s: Seq<char>, i: int) -> Option<ClockFields> {
    let me = one_or_two(s, i, '/');
    let de = one_or_two(s, me + 1, '/');
    let y = de + 1;
    let q = spaces_end(s, y + 4);
    let he = one_or_two(s, q, ':');
    let mi = he + 1;
    let se = mi + 3;
    if me < 0 || de < 0 || !digit_run(s, y, y + 4) || q <= y + 4 || he < 0 || !digit_run(
        s,
        mi,
        mi + 2,
    ) || mi + 2 >= s.len() || s[mi + 2] != ':' || !digit_run(s, se, se + 2) {
        None
    } else {
        let a = spaces_end(s, se + 2);
        let mark = if a + 1 < s.len() && s[a] == 'A' && s[a + 1] == 'M' {
            Meridiem::Am
        } else if a + 1 < s.len() && s[a] == 'P' && s[a + 1] == 'M' {
            Meridiem::Pm
        } else {
            Meridiem::Unmarked
        };
        Some(
            ClockFields {
                year: value_of(s, y, y + 4),
                month: value_of(s, i, me),
                day: value_of(s, me + 1, de),
                hour: value_of(s, q, he),
                minute: value_of(s, mi, mi + 2),
                second: value_of(s, se, se + 2),
                meridiem: mark,
            },
        )
    }
}

/// `YYYY-MM-DD HH:MM:SS` (or with `T` between date and time) at `i`.
pub open spec fn iso_at(s: Seq<char>, i: int) -> Option<ClockFields> {
    if 0 <= i && i + 19 <= s.len() && digit_run(s, i, i + 4) && s[i + 4] == '-' && digit_run(
        s,
        i + 5,
        i + 7,
    ) && s[i + 7] == '-' && digit_run(s, i + 8, i + 10) && (s[i + 10] == ' ' || s[i + 10]
        == 'T' || s[i + 10] == 't') && digit_run(s, i + 11, i + 13) && s[i + 13] == ':'
        && digit_run(s, i + 14, i + 16) && s[i + 16] == ':' && digit_run(s, i + 17, i + 19) {
        Some(
            ClockFields {
                year: value_of(s, i, i + 4),
                month: value_of(s, i + 5, i + 7),
                day: value_of(s, i + 8, i + 10),
                hour: value_of(s, i + 11, i + 13),
                minute: value_of(s, i + 14, i + 16),
                second: value_of(s, i + 17, i + 19),
                meridiem: Meridiem::Unmarked,
            },
        )
    } else {
        None
    }
}

pub open spec fn dotnet_f(s: Seq<char>) -> spec_fn(int) -> Option<ClockFields> {
    |i: int| dotnet_at(s, i)
}

pub open spec fn iso_f(s: Seq<char>) -> spec_fn(int) -> Option<ClockFields> {
    |i: int| iso_at(s, i)
}

pub open spec fn fields_small(f: ClockFields) -> bool {
    f.year < 10000 && f.month < 10000 && f.day < 10000 && f.hour < 10000 && f.minute < 10000
        && f.second < 10000
}

pub open spec fn find_dotnet(s: Seq<char>) -> Option<ClockFields> {
    first_from(dotnet_f(s), 0, s.len() as int)
}

pub open spec fn find_iso(s: Seq<char>) -> Option<ClockFields> {
    first_from(iso_f(s), 0, s.len() as int)
}

pub open spec fn pow10(n: nat) -> int
    decreases n,
{
    if n == 0 {
        1
    } else {
        10 * pow10((n - 1) as nat)
    }
}

proof fn lemma_value_bound(t: Seq<char>)
    requires
        crate::text::all_digits(t),
    ensures
        0 <= crate::text::digits_value(t) < pow10(t.len()),
    decreases t.len(),
{
    if t.len() > 0 {
        let u = t.drop_last();
        assert(crate::text::all_digits(u));
        lemma_value_bound(u);
        let a = crate::text::digits_value(u);
        let b = pow10(u.len());
        let d = t.last() as int - '0' as int;
        assert(is_ascii_digit(t[t.len() - 1]));
        assert(0 <= d <= 9);
        assert(a * 10 + d < b * 10) by (nonlinear_arith)
            requires
                0 <= a < b,
                0 <= d <= 9,
        ;
    }
}

proof fn lemma_small_value(s: Seq<char>, from: int, to: int)
    requires
        digit_run(s, from, to),
        to - from <= 4,
    ensures
        0 <= crate::text::digits_value(s.subrange(from, to)) < 10000,
{
    let t = s.subrange(from, to);
    assert(crate::text::all_digits(t));
    lemma_value_bound(t);
    assert(pow10(0) == 1);
    assert(pow10(1) == 10);
    assert(pow10(2) == 100);
    assert(pow10(3) == 1000);
    assert(pow10(4) == 10000);
}

fn small_value(s: &[char], from: usize, to: usize) -> (r: u32)
    requires
        digit_run(s@, from as int, to as int),
        to - from <= 4,
    ensures
        r == value_of(s@, from as int, to as int),
        r < 10000,
{
    let mut acc: u32 = 0;
    let mut i = from;
    proof {
        lemma_small_value(s@, from as int, to as int);
    }
    while i < to
        invariant
            from <= i <= to <= s@.len(),
            to - from <= 4,
            digit_run(s@, from as int, to as int),
            acc as int == crate::text::digits_value(s@.subrange(from as int, i as int)),
        decreases to - i,
    {
        proof {
            lemma_small_value(s@, from as int, (i + 1) as int);
        }
        assert(s@.subrange(from as int, i + 1).drop_last() =~= s@.subrange(from as int, i as int));
        acc = acc * 10 + (s[i] as u32 - '0' as u32);
        i = i + 1;
    }
    acc
}

fn digit_run_exec(s: &[char], from: usize, to: usize) -> (r: bool)
    ensures
        r == digit_run(s@, from as int, to as int),
{
    if from > to || to > s.len() {
        return false;
    }
    let mut i = from;
    while i < to
        invariant
            from <= i <= to <= s@.len(),
            forall|k: int| from <= k < i ==> is_ascii_digit(#[trigger] s@[k]),
        decreases to - i,
    {
        if !digit_at(s[i]) {
            return false;
        }
        i = i + 1;
    }
    true
}

fn one_or_two_exec(s: &[char], i: usize, sep: char) -> (r: Option<usize>)
    ensures
        r matches Some(e) ==> one_or_two(s@, i as int, sep) == e && e <= s@.len(),
        r is None ==> one_or_two(s@, i as int, sep) == -1,
{
    let n = s.len();
    if i < n && n - i > 2 && digit_at(s[i]) && digit_at(s[i + 1]) && s[i + 2] == sep {
        Some(i + 2)
    } else if i < n && n - i > 1 && digit_at(s[i]) && s[i + 1] == sep {
        Some(i + 1)
    } else {
        None
    }
}

fn dotnet_exec(s: &[char], i: usize) -> (r: Option<ClockFields>)
    ensures
        r == dotnet_at(s@, i as int),
        r matches Some(f) ==> fields_small(f),
{
    let n = s.len();
    let me = match one_or_two_exec(s, i, '/') {
        Some(e) => e,
        None => return None,
    };
    if me >= n {
        return None;
    }
    let de = match one_or_two_exec(s, me + 1, '/') {
        Some(e) => e,
        None => return None,
    };
    if de >= n || n - de < 5 {
        return None;
    }
    let y = de + 1;
    if !digit_run_exec(s, y, y + 4) {
        return None;
    }
    let q = scan_spaces(s, y + 4);
    if q <= y + 4 {
        return None;
    }
    let he = match one_or_two_exec(s, q, ':') {
        Some(e) => e,
        None => return None,
    };
    if he >= n || n - he < 3 {
        return None;
    }
    let mi = he + 1;
    if !digit_run_exec(s, mi, mi + 2) || mi + 2 >= n || s[mi + 2] != ':' {
        return None;
    }
    let se = mi + 3;
    if n - se < 2 || !digit_run_exec(s, se, se + 2) {
        return None;
    }
    let a = scan_spaces(s, se + 2);
    let mark = if a < n && n - a > 1 && s[a] == 'A' && s[a + 1] == 'M' {
        Meridiem::Am
    } else if a < n && n - a > 1 && s[a] == 'P' && s[a + 1] == 'M' {
        Meridiem::Pm
    } else {
        Meridiem::Unmarked
    };
    Some(
        ClockFields {
            year: small_value(s, y, y + 4),
            month: small_value(s, i, me),
            day: small_value(s, me + 1, de),
            hour: small_value(s, q, he),
            minute: small_value(s, mi, mi + 2),
            second: small_value(s, se, se + 2),
            meridiem: mark,
        },
    )
}

fn iso_exec(s: &[char], i: usize) -> (r: Option<ClockFields>)
    ensures
        r == iso_at(s@, i as int),
        r matches Some(f) ==> fields_small(f),
{
    let n = s.len();
    if i > n || n - i < 19 {
        return None;
    }
    if digit_run_exec(s, i, i + 4) && s[i + 4] == '-' && digit_run_exec(s, i + 5, i + 7) && s[i
        + 7] == '-' && digit_run_exec(s, i + 8, i + 10) && (s[i + 10] == ' ' || s[i + 10] == 'T'
        || s[i + 10] == 't') && digit_run_exec(s, i + 11, i + 13) && s[i + 13] == ':'
        && digit_run_exec(s, i + 14, i + 16) && s[i + 16] == ':' && digit_run_exec(
        s,
        i + 17,
        i + 19,
    ) {
        Some(
            ClockFields {
                year: small_value(s, i, i + 4),
                month: small_value(s, i + 5, i + 7),
                day: small_value(s, i + 8, i + 10),
                hour: small_value(s, i + 11, i + 13),
                minute: small_value(s, i + 14, i + 16),
                second: small_value(s, i + 17, i + 19),
                meridiem: Meridiem::Unmarked,
            },
        )
    } else {
        None
    }
}

pub fn search_dotnet(s: &[char]) -> (r: Option<ClockFields>)
    ensures
        r == find_dotnet(s@),
        r matches Some(f) ==> fields_small(f),
{
    let mut i: usize = 0;
    while i < s.len()
        invariant
            i <= s@.len(),
            first_from(dotnet_f(s@), i as int, s@.len() as int) == find_dotnet(s@),
        decreases s@.len() - i,
    {
        let m = dotnet_exec(s, i);
        if m.is_some() {
            return m;
        }
        i = i + 1;
    }
    None
}

pub fn search_iso(s: &[char]) -> (r: Option<ClockFields>)
    ensures
        r == find_iso(s@),
        r matches Some(f) ==> fields_small(f),
{
    let mut i: usize = 0;
    while i < s.len()
        invariant
            i <= s@.len(),
            first_from(iso_f(s@), i as int, s@.len() as int) == find_iso(s@),
        decreases s@.len() - i,
    {
        let m = iso_exec(s, i);
        if m.is_some() {
            return m;
        }
        i = i + 1;
    }
    None
}

} // verus!
