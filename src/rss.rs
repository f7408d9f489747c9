//! The patch-notes feed: finding a build's release date among the feed's items,
//! and a per-process cache of what the feed gave.
use vstd::prelude::*;
use crate::assoc::{assoc_get, assoc_put, StampMap};
use crate::datetime::{civil_from_epoch, UtcDateTime};
use crate::text::{
    chars_of, chars_equal, digits_end, has_at, matches_at, push_str_chars, scan_digits,
    scan_spaces, slice_chars, spaces_end, string_of, trim, trim_chars,
};

verus! {

/// Epoch seconds of an RFC 2822 date-time, when chrono reads it.
pub uninterp spec fn rfc2822_epoch(s: Seq<char>) -> Option<int>;

/// Epoch seconds of a date-time read with a chrono format string, when chrono reads it.
pub uninterp spec fn format_epoch(s: Seq<char>, fmt: Seq<char>) -> Option<int>;

/// Relies on `DateTime::parse_from_rfc2822`: the result depends on the text alone.
#[verifier::external_body]
fn parse_rfc2822_epoch(s: &str) -> (r: Option<i64>)
    ensures
        r matches Some(v) ==> rfc2822_epoch(s@) == Some(v as int),
        r is None ==> rfc2822_epoch(s@) is None,
{
    match chrono::DateTime::parse_from_rfc2822(s) {
        Ok(dt) => Some(dt.timestamp()),
        Err(_) => None,
    }
}

/// Relies on `DateTime::parse_from_str`: the result depends on the text and
/// the format alone.
#[verifier::external_body]
fn parse_format_epoch(s: &str, fmt: &str) -> (r: Option<i64>)
    ensures
        r matches Some(v) ==> format_epoch(s@, fmt@) == Some(v as int),
        r is None ==> format_epoch(s@, fmt@) is None,
{
    match chrono::DateTime::parse_from_str(s, fmt) {
        Ok(dt) => Some(dt.timestamp()),
        Err(_) => None,
    }
}

/// The instant of a feed date: RFC 2822 first, then two looser forms of the
/// trimmed text.
pub open spec fn feed_epoch(s: Seq<char>) -> Option<int> {
    if rfc2822_epoch(s) is Some {
        rfc2822_epoch(s)
    } else if format_epoch(trim(s), "%a, %d %b %Y %H:%M:%S %Z"@) is Some {
        format_epoch(trim(s), "%a, %d %b %Y %H:%M:%S %Z"@)
    } else {
        format_epoch(trim(s), "%a, %d %b %Y %H:%M:%S GMT"@)
    }
}

/// A feed date as a UTC date-time.
pub open spec fn feed_date(s: Seq<char>) -> Option<UtcDateTime> {
    match feed_epoch(s) {
        Some(v) => if i64::MIN <= v <= i64::MAX {
            civil_from_epoch(v)
        } else {
            None
        },
        None => None,
    }
}

/// Parses a feed's publication date, e.g. `Mon, 24 Feb 2025 22:02:36 GMT`.
pub fn parse_rfc2822_date(date_str: &str) -> (r: Result<UtcDateTime, String>)
    ensures
        r matches Ok(t) ==> feed_date(date_str@) == Some(t) && t.wf(),
        r is Err ==> feed_date(date_str@) is None,
{
    let mut e = parse_rfc2822_epoch(date_str);
    if e.is_none() {
        let cleaned = string_of(&trim_chars(chars_of(date_str).as_slice()));
        e = parse_format_epoch(cleaned.as_str(), "%a, %d %b %Y %H:%M:%S %Z");
        if e.is_none() {
            e = parse_format_epoch(cleaned.as_str(), "%a, %d %b %Y %H:%M:%S GMT");
        }
    }
    let parsed = match e {
        Some(v) => UtcDateTime::from_timestamp(v),
        None => None,
    };
    match parsed {
        Some(t) => Ok(t),
        None => {
            let mut msg: Vec<char> = Vec::new();
            push_str_chars(&mut msg, "Failed to parse date '");
            push_str_chars(&mut msg, date_str);
            push_str_chars(&mut msg, "'");
            Err(string_of(&msg))
        },
    }
}

/// The first position at or after `from` where `p` occurs, or -1.
pub open spec fn find_from(s: Seq<char>, from: int, p: Seq<char>) -> int
    decreases s.len() + 1 - from,
{
    if from < 0 || from > s.len() {
        -1
    } else if has_at(s, from, p) {
        from
    } else {
        find_from(s, from + 1, p)
    }
}

pub proof fn lemma_find_from(s: Seq<char>, from: int, p: Seq<char>)
    requires
        0 <= from,
    ensures
        find_from(s, from, p) == -1 || (from <= find_from(s, from, p) <= s.len() && has_at(s, find_from(s, from, p), p)),
    decreases s.len() + 1 - from,
{
    if from <= s.len() && !has_at(s, from, p) {
        lemma_find_from(s, from + 1, p);
    }
}

pub fn find_from_exec(s: &[char], from: usize, p: &[char]) -> (r: Option<usize>)
    ensures
        r matches Some(i) ==> find_from(s@, from as int, p@) == i && i <= s@.len(),
        r is None ==> find_from(s@, from as int, p@) == -1,
{
    if from > s.len() {
        return None;
    }
    let mut i = from;
    loop
        invariant
            from <= i <= s@.len(),
            find_from(s@, i as int, p@) == find_from(s@, from as int, p@),
        decreases s@.len() - i,
    {
        if matches_at(s, i, p) {
            return Some(i);
        }
        if i == s.len() {
            assert(find_from(s@, i + 1, p@) == -1);
            return None;
        }
        i = i + 1;
    }
}

/// Index of the first `<` at or after `from` (or the length).
pub open spec fn lt_end(s: Seq<char>, from: int) -> int
    decreases s.len() - from,
{
    if from < 0 || from >= s.len() || s[from] == '<' {
        from
    } else {
        lt_end(s, from + 1)
    }
}

fn lt_scan(s: &[char], from: usize) -> (r: usize)
    requires
        from <= s@.len(),
    ensures
        r == lt_end(s@, from as int),
        from <= r <= s@.len(),
{
    let mut i = from;
    while i < s.len() && s[i] != '<'
        invariant
            from <= i <= s@.len(),
            lt_end(s@, i as int) == lt_end(s@, from as int),
        decreases s@.len() - i,
    {
        i = i + 1;
    }
    i
}

/// `<tag>text</tag>` at `i`, the text without `<`: the bounds of the text.
pub open spec fn element_at(s: Seq<char>, i: int, open: Seq<char>, close: Seq<char>) -> Option<(int, int)> {
    if has_at(s, i, open) {
        let a = i + open.len();
        let b = lt_end(s, a);
        if b > a && has_at(s, b, close) {
            Some((a, b))
        } else {
            None
        }
    } else {
        None
    }
}

pub open spec fn element_f(s: Seq<char>, open: Seq<char>, close: Seq<char>) -> spec_fn(int) -> Option<(int, int)> {
    |i: int| element_at(s, i, open, close)
}

/// The leftmost `<tag>text</tag>` of a text.
pub open spec fn find_element(s: Seq<char>, open: Seq<char>, close: Seq<char>) -> Option<(int, int)> {
    crate::grammar::first_from(element_f(s, open, close), 0, s.len() as int)
}

fn find_element_exec(s: &[char], open: &[char], close: &[char]) -> (r: Option<(usize, usize)>)
    ensures
        r matches Some((a, b)) ==> find_element(s@, open@, close@) == Some((a as int, b as int)) && a < b <= s@.len(),
        r is None ==> find_element(s@, open@, close@) is None,
{
    let n = s.len();
    let mut i: usize = 0;
    while i < n
        invariant
            n == s@.len(),
            i <= n,
            crate::grammar::first_from(element_f(s@, open@, close@), i as int, n as int) == find_element(s@, open@, close@),
        decreases n - i,
    {
        if matches_at(s, i, open) {
            let a = i + open.len();
            let b = lt_scan(s, a);
            if b > a && matches_at(s, b, close) {
                return Some((a, b));
            }
        }
        i = i + 1;
    }
    None
}

/// `Build <digits>` at `i`: the bounds of the digits.
pub open spec fn build_word_at(s: Seq<char>, i: int) -> Option<(int, int)> {
    if has_at(s, i, "Build"@) {
        let q = spaces_end(s, i + 5);
        let r = digits_end(s, q);
        if q > i + 5 && r > q {
            Some((q, r))
        } else {
            None
        }
    } else {
        None
    }
}

pub open spec fn build_word_f(s: Seq<char>) -> spec_fn(int) -> Option<(int, int)> {
    |i: int| build_word_at(s, i)
}

/// The build id a feed item's title names.
pub open spec fn title_build(s: Seq<char>) -> Option<Seq<char>> {
    match crate::grammar::first_from(build_word_f(s), 0, s.len() as int) {
        Some((a, b)) => Some(s.subrange(a, b)),
        None => None,
    }
}

fn title_build_exec(s: &[char]) -> (r: Option<Vec<char>>)
    ensures
        crate::preflight::opt_view(r) == title_build(s@),
{
    let word = chars_of("Build");
    proof {
        reveal_strlit("Build");
    }
    let n = s.len();
    let mut i: usize = 0;
    while i < n
        invariant
            word@ == "Build"@,
            n == s@.len(),
            i <= n,
            crate::grammar::first_from(build_word_f(s@), i as int, n as int) == crate::grammar::first_from(build_word_f(s@), 0, n as int),
        decreases n - i,
    {
        if matches_at(s, i, word.as_slice()) {
            proof {
                reveal_strlit("Build");
            }
            let q = scan_spaces(s, i + 5);
            let r = scan_digits(s, q);
            if q > i + 5 && r > q {
                return Some(slice_chars(s, q, r));
            }
        }
        i = i + 1;
    }
    None
}

} // verus!

verus! {

/// The next `<item>…</item>` at or after `from`: the bounds of its content
/// and where the search goes on.
pub open spec fn next_item(x: Seq<char>, from: int) -> Option<(int, int, int)> {
    let i = find_from(x, from, "<item>"@);
    if i < 0 {
        None
    } else {
        let k = find_from(x, i + 6, "</item>"@);
        if k < 0 {
            None
        } else {
            Some((i + 6, k, k + 7))
        }
    }
}

/// The first item from `from` on that has a title and a publication date and
/// whose title names no build other than `target`: its publication date text.
/// `None` when no item qualifies.
pub open spec fn scan_items(x: Seq<char>, target: Option<Seq<char>>, from: int) -> Option<Seq<char>>
    decreases x.len() + 1 - from,
{
    if from < 0 || from > x.len() {
        None
    } else {
        match next_item(x, from) {
            None => None,
            Some((a, b, r)) => {
                if r <= from || r > x.len() || a > b || b > x.len() {
                    None
                } else {
                    let c = x.subrange(a, b);
                    match (find_element(c, "<title>"@, "</title>"@), find_element(c, "<pubDate>"@, "</pubDate>"@)) {
                        (Some((ta, tb)), Some((pa, pb))) => {
                            let bid = title_build(c.subrange(ta, tb));
                            if target is Some && bid is Some && bid->0 != target->0 {
                                scan_items(x, target, r)
                            } else {
                                Some(c.subrange(pa, pb))
                            }
                        },
                        _ => scan_items(x, target, r),
                    }
                }
            },
        }
    }
}

/// The publication date text of the item that dates a build: the first
/// qualifying item's; when none qualifies, the first item's.
pub open spec fn feed_item_date(x: Seq<char>, target: Option<Seq<char>>) -> Option<Seq<char>> {
    match scan_items(x, target, 0) {
        Some(d) => Some(d),
        None => if target is Some {
            scan_items(x, None, 0)
        } else {
            None
        },
    }
}

/// The release date the feed gives for a build.
pub open spec fn feed_build_date(x: Seq<char>, target: Option<Seq<char>>) -> Option<UtcDateTime> {
    match feed_item_date(x, target) {
        Some(d) => feed_date(d),
        None => None,
    }
}

struct FeedTags {
    item: Vec<char>,
    item_end: Vec<char>,
    title: Vec<char>,
    title_end: Vec<char>,
    pub_date: Vec<char>,
    pub_date_end: Vec<char>,
}

impl FeedTags {
    spec fn wf(&self) -> bool {
        &&& self.item@ == "<item>"@
        &&& self.item_end@ == "</item>"@
        &&& self.title@ == "<title>"@
        &&& self.title_end@ == "</title>"@
        &&& self.pub_date@ == "<pubDate>"@
        &&& self.pub_date_end@ == "</pubDate>"@
    }
}

fn scan_items_exec(x: &[char], target: &Option<Vec<char>>, tags: &FeedTags) -> (r: Option<Vec<char>>)
    requires
        tags.wf(),
    ensures
        crate::preflight::opt_view(r) == scan_items(x@, crate::preflight::opt_view(*target), 0),
{
    let ghost tv = crate::preflight::opt_view(*target);
    proof {
        reveal_strlit("<item>");
        reveal_strlit("</item>");
    }
    let n = x.len();
    let mut from: usize = 0;
    loop
        invariant
            n == x@.len(),
            tags.wf(),
            tv == crate::preflight::opt_view(*target),
            from <= x@.len(),
            scan_items(x@, tv, from as int) == scan_items(x@, tv, 0),
        decreases x@.len() - from,
    {
        proof {
            reveal_strlit("<item>");
            reveal_strlit("</item>");
        }
        let i = match find_from_exec(x, from, tags.item.as_slice()) {
            Some(i) => i,
            None => return None,
        };
        proof {
            lemma_find_from(x@, from as int, "<item>"@);
        }
        let k = match find_from_exec(x, i + 6, tags.item_end.as_slice()) {
            Some(k) => k,
            None => return None,
        };
        proof {
            lemma_find_from(x@, i + 6, "</item>"@);
        }
        let a = i + 6;
        let r = k + 7;
        let c = slice_chars(x, a, k);
        let title = find_element_exec(c.as_slice(), tags.title.as_slice(), tags.title_end.as_slice());
        let date = find_element_exec(c.as_slice(), tags.pub_date.as_slice(), tags.pub_date_end.as_slice());
        match (title, date) {
            (Some((ta, tb)), Some((pa, pb))) => {
                let bid = title_build_exec(slice_chars(c.as_slice(), ta, tb).as_slice());
                let skip = match (target, &bid) {
                    (Some(t), Some(b)) => !chars_equal(t.as_slice(), b.as_slice()),
                    _ => false,
                };
                if !skip {
                    return Some(slice_chars(c.as_slice(), pa, pb));
                }
            },
            _ => {},
        }
        from = r;
    }
}

/// Picks the publication date text that dates a build in the patch-notes
/// feed: the first item whose title names that build (or names none); failing
/// that, the newest item.
pub fn select_patchnote_date(xml: &str, target_build_id: Option<&str>) -> (r: Option<String>)
    ensures
        crate::preflight::opt_string_view(r) == feed_item_date(xml@, match target_build_id {
            Some(t) => Some(t@),
            None => None,
        }),
{
    let tags = FeedTags {
        item: chars_of("<item>"),
        item_end: chars_of("</item>"),
        title: chars_of("<title>"),
        title_end: chars_of("</title>"),
        pub_date: chars_of("<pubDate>"),
        pub_date_end: chars_of("</pubDate>"),
    };
    let x = chars_of(xml);
    let target: Option<Vec<char>> = match target_build_id {
        Some(t) => Some(chars_of(t)),
        None => None,
    };
    let first = scan_items_exec(x.as_slice(), &target, &tags);
    let chosen = match first {
        Some(d) => Some(d),
        None => if target.is_some() {
            scan_items_exec(x.as_slice(), &None, &tags)
        } else {
            None
        },
    };
    match chosen {
        Some(d) => Some(string_of(&d)),
        None => None,
    }
}

/// Finds the release date of a build in the patch-notes feed.
pub fn parse_patchnotes_rss(xml: &str, target_build_id: Option<&str>) -> (r: Result<UtcDateTime, String>)
    ensures
        r matches Ok(t) ==> t.wf() && feed_build_date(xml@, match target_build_id {
            Some(t) => Some(t@),
            None => None,
        }) == Some(t),
        r is Err ==> feed_build_date(xml@, match target_build_id {
            Some(t) => Some(t@),
            None => None,
        }) is None,
        feed_item_date(xml@, match target_build_id {
            Some(t) => Some(t@),
            None => None,
        }) is None ==> (r matches Err(e) && e@ == "No builds found in SteamDB RSS feed"@),
{
    match select_patchnote_date(xml, target_build_id) {
        Some(d) => parse_rfc2822_date(d.as_str()),
        None => Err("No builds found in SteamDB RSS feed".to_string()),
    }
}

/// Build dates the feed gave in this process, keyed by `<app id>:<build id>`
/// (`latest` without a build id).
pub struct BuildDateCache {
    pub dates: StampMap,
}

/// The cache key of a lookup.
pub open spec fn cache_key(app_id: Seq<char>, build_id: Option<Seq<char>>) -> Seq<char> {
    app_id + seq![':'] + match build_id {
        Some(b) => b,
        None => "latest"@,
    }
}

fn cache_key_exec(app_id: &str, build_id: Option<&str>) -> (r: Vec<char>)
    ensures
        r@ == cache_key(app_id@, match build_id {
            Some(b) => Some(b@),
            None => None,
        }),
{
    let mut k: Vec<char> = Vec::new();
    push_str_chars(&mut k, app_id);
    k.push(':');
    match build_id {
        Some(b) => push_str_chars(&mut k, b),
        None => push_str_chars(&mut k, "latest"),
    }
    k
}

impl BuildDateCache {
    pub fn new() -> (r: Self)
        ensures
            r.dates@ == Seq::<(Seq<char>, UtcDateTime)>::empty(),
    {
        BuildDateCache { dates: StampMap::new() }
    }

    /// The cached date of a lookup.
    pub fn get(&self, app_id: &str, build_id: Option<&str>) -> (r: Option<UtcDateTime>)
        ensures
            r == assoc_get(self.dates@, cache_key(app_id@, match build_id {
                Some(b) => Some(b@),
                None => None,
            })),
    {
        let k = cache_key_exec(app_id, build_id);
        self.dates.get(k.as_slice())
    }

    /// Remembers the date a lookup gave.
    pub fn insert(&mut self, app_id: &str, build_id: Option<&str>, date: UtcDateTime)
        ensures
            final(self).dates@ == assoc_put(old(self).dates@, cache_key(app_id@, match build_id {
                Some(b) => Some(b@),
                None => None,
            }), date),
    {
        let k = cache_key_exec(app_id, build_id);
        self.dates.put(k.as_slice(), date);
    }
}

/// Forgets every cached build date.
pub fn clear_cache(cache: &mut BuildDateCache)
    ensures
        final(cache).dates@ == Seq::<(Seq<char>, UtcDateTime)>::empty(),
{
    cache.dates.clear();
}

} // verus!
