//! The metadata-only discovery run: its lines are folded into depot, manifest,
//! name and timestamp facts, then a primary depot and a build timestamp are chosen.
use vstd::prelude::*;
use crate::assoc::{assoc_get, assoc_put, StampMap, TextMap};
use crate::datetime::UtcDateTime;
use crate::grammar::{
    find_appinfo_name, find_build_id, find_depot_id, find_depot_manifest, find_depot_name,
    find_epoch_field, find_manifest_time, has_installdir, search_appinfo_name, search_build_id,
    search_depot_id, search_depot_manifest, search_depot_name, search_epoch_field,
    search_installdir, search_manifest_time, EpochField, Keywords,
};
use crate::stamps::{epoch_stamp, parse_datetime_string, parse_epoch_timestamp, text_stamp};
use crate::text::slice_chars;

verus! {

/// What the fold over the discovery run's lines has learned so far.
pub struct ScanState {
    pub depot_manifest: Seq<(Seq<char>, Seq<char>)>,
    pub manifest_depot: Seq<(Seq<char>, Seq<char>)>,
    pub names: Seq<(Seq<char>, Seq<char>)>,
    pub depot_stamps: Seq<(Seq<char>, UtcDateTime)>,
    pub last_depot: Option<Seq<char>>,
    pub primary: Option<Seq<char>>,
    pub build_id: Option<Seq<char>>,
    pub build_stamp: Option<UtcDateTime>,
}

pub open spec fn empty_scan() -> ScanState {
    ScanState {
        depot_manifest: seq![],
        manifest_depot: seq![],
        names: seq![],
        depot_stamps: seq![],
        last_depot: None,
        primary: None,
        build_id: None,
        build_stamp: None,
    }
}

/// The build timestamp an epoch-bearing line gives: the time-updated field
/// first; only without one, the last-updated field; only without both, the
/// build-date field.
pub open spec fn line_epoch(s: Seq<char>) -> Option<UtcDateTime> {
    match find_epoch_field(s, EpochField::TimeUpdated) {
        Some((a, b)) => epoch_stamp(s.subrange(a, b)),
        None => match find_epoch_field(s, EpochField::LastUpdated) {
            Some((a, b)) => epoch_stamp(s.subrange(a, b)),
            None => match find_epoch_field(s, EpochField::BuildDate) {
                Some((a, b)) => epoch_stamp(s.subrange(a, b)),
                None => None,
            },
        },
    }
}

/// The facts of a line that names neither a depot with its name nor a depot
/// with its manifest.
pub open spec fn scan_other(st: ScanState, s: Seq<char>) -> ScanState {
    let st1 = match (find_appinfo_name(s), st.last_depot) {
        (Some((a, b)), Some(d)) => ScanState { names: assoc_put(st.names, d, s.subrange(a, b)), ..st },
        _ => st,
    };
    let st2 = match find_depot_id(s) {
        Some((a, b)) => ScanState { last_depot: Some(s.subrange(a, b)), ..st1 },
        None => st1,
    };
    let st3 = match find_build_id(s) {
        Some((a, b)) => if st2.build_id is None {
            ScanState { build_id: Some(s.subrange(a, b)), ..st2 }
        } else {
            st2
        },
        None => st2,
    };
    let st4 = if st3.build_stamp is None && line_epoch(s) is Some {
        ScanState { build_stamp: line_epoch(s), ..st3 }
    } else {
        st3
    };
    let st5 = match find_manifest_time(s) {
        Some((a, b, c, d)) => match (
            text_stamp(s.subrange(c, d)),
            assoc_get(st4.manifest_depot, s.subrange(a, b)),
        ) {
            (Some(t), Some(dep)) => ScanState {
                depot_stamps: assoc_put(st4.depot_stamps, dep, t),
                ..st4
            },
            _ => st4,
        },
        None => st4,
    };
    if has_installdir(s) && st5.primary is None && st5.last_depot is Some {
        ScanState { primary: st5.last_depot, ..st5 }
    } else {
        st5
    }
}

/// The depot-name rule: `[Dd]epot <id> "<name>"` records the name and moves the cursor.
pub open spec fn scan_depot_name(st: ScanState, s: Seq<char>) -> ScanState {
    match find_depot_name(s) {
        Some((a, b, c, d)) => ScanState {
            names: assoc_put(st.names, s.subrange(a, b), s.subrange(c, d)),
            last_depot: Some(s.subrange(a, b)),
            ..st
        },
        None => st,
    }
}

/// The depot-manifest rule: records the pair both ways and moves the cursor.
pub open spec fn scan_depot_manifest(st: ScanState, s: Seq<char>) -> ScanState {
    match find_depot_manifest(s) {
        Some((a, b, c, d)) => ScanState {
            depot_manifest: assoc_put(st.depot_manifest, s.subrange(a, b), s.subrange(c, d)),
            manifest_depot: assoc_put(st.manifest_depot, s.subrange(c, d), s.subrange(a, b)),
            last_depot: Some(s.subrange(a, b)),
            ..st
        },
        None => st,
    }
}

/// The facts of one line of the discovery run: every rule is tried on the
/// line, in order, and a line may trigger several.
pub open spec fn scan_line(st: ScanState, s: Seq<char>) -> ScanState {
    scan_other(scan_depot_manifest(scan_depot_name(st, s), s), s)
}

/// The facts of all lines, in order.
pub open spec fn scan_lines(lines: Seq<Seq<char>>) -> ScanState
    decreases lines.len(),
{
    if lines.len() == 0 {
        empty_scan()
    } else {
        scan_line(scan_lines(lines.drop_last()), lines.last())
    }
}

/// The executable form of `ScanState`.
pub struct Scanner {
    pub depot_manifest: TextMap,
    pub manifest_depot: TextMap,
    pub names: TextMap,
    pub depot_stamps: StampMap,
    pub last_depot: Option<Vec<char>>,
    pub primary: Option<Vec<char>>,
    pub build_id: Option<Vec<char>>,
    pub build_stamp: Option<UtcDateTime>,
}

pub open spec fn opt_view(o: Option<Vec<char>>) -> Option<Seq<char>> {
    match o {
        Some(v) => Some(v@),
        None => None,
    }
}

impl Scanner {
    pub open spec fn view(&self) -> ScanState {
        ScanState {
            depot_manifest: self.depot_manifest@,
            manifest_depot: self.manifest_depot@,
            names: self.names@,
            depot_stamps: self.depot_stamps@,
            last_depot: opt_view(self.last_depot),
            primary: opt_view(self.primary),
            build_id: opt_view(self.build_id),
            build_stamp: self.build_stamp,
        }
    }

    pub open spec fn wf(&self) -> bool {
        &&& self.build_stamp matches Some(t) ==> t.wf()
        &&& crate::assoc::stamps_wf(self.depot_stamps@)
    }

    pub fn new() -> (r: Scanner)
        ensures
            r.view() == empty_scan(),
            r.wf(),
    {
        Scanner {
            depot_manifest: TextMap::new(),
            manifest_depot: TextMap::new(),
            names: TextMap::new(),
            depot_stamps: StampMap::new(),
            last_depot: None,
            primary: None,
            build_id: None,
            build_stamp: None,
        }
    }

    fn line_epoch_exec(s: &[char], kw: &Keywords) -> (r: Option<UtcDateTime>)
        requires
            kw.wf(),
        ensures
            r == line_epoch(s@),
            r matches Some(t) ==> t.wf(),
    {
        match search_epoch_field(s, &EpochField::TimeUpdated, kw) {
            Some((a, b)) => parse_epoch_timestamp(slice_chars(s, a, b).as_slice()),
            None => match search_epoch_field(s, &EpochField::LastUpdated, kw) {
                Some((a, b)) => parse_epoch_timestamp(slice_chars(s, a, b).as_slice()),
                None => match search_epoch_field(s, &EpochField::BuildDate, kw) {
                    Some((a, b)) => parse_epoch_timestamp(slice_chars(s, a, b).as_slice()),
                    None => None,
                },
            },
        }
    }

    fn other_line(&mut self, s: &[char], kw: &Keywords)
        requires
            kw.wf(),
            old(self).wf(),
        ensures
            final(self).wf(),
            final(self).view() == scan_other(old(self).view(), s@),
    {
        let ghost st = self.view();
        match search_appinfo_name(s, kw) {
            Some((a, b)) => {
                match &self.last_depot {
                    Some(d) => {
                        let dv = d.clone();
                        self.names.put(dv.as_slice(), slice_chars(s, a, b).as_slice());
                    },
                    None => {},
                }
            },
            None => {},
        }
        match search_depot_id(s) {
            Some((a, b)) => {
                self.last_depot = Some(slice_chars(s, a, b));
            },
            None => {},
        }
        match search_build_id(s) {
            Some((a, b)) => {
                if self.build_id.is_none() {
                    self.build_id = Some(slice_chars(s, a, b));
                }
            },
            None => {},
        }
        if self.build_stamp.is_none() {
            let e = Self::line_epoch_exec(s, kw);
            if e.is_some() {
                self.build_stamp = e;
            }
        }
        match search_manifest_time(s, kw) {
            Some((a, b, c, d)) => {
                let stamp = parse_datetime_string(slice_chars(s, c, d).as_slice());
                let dep = self.manifest_depot.get(slice_chars(s, a, b).as_slice());
                match (stamp, dep) {
                    (Some(t), Some(dv)) => {
                        self.depot_stamps.put(dv.as_slice(), t);
                    },
                    _ => {},
                }
            },
            None => {},
        }
        if search_installdir(s, kw) && self.primary.is_none() && self.last_depot.is_some() {
            self.primary = self.last_depot.clone();
        }
    }

    /// Folds one line into what is known.
    pub fn scan(&mut self, s: &[char], kw: &Keywords)
        requires
            kw.wf(),
            old(self).wf(),
        ensures
            final(self).wf(),
            final(self).view() == scan_line(old(self).view(), s@),
    {
        match search_depot_name(s) {
            Some((a, b, c, d)) => {
                let id = slice_chars(s, a, b);
                self.names.put(id.as_slice(), slice_chars(s, c, d).as_slice());
                self.last_depot = Some(id);
            },
            None => {},
        }
        match search_depot_manifest(s) {
            Some((a, b, c, d)) => {
                let id = slice_chars(s, a, b);
                let m = slice_chars(s, c, d);
                self.depot_manifest.put(id.as_slice(), m.as_slice());
                self.manifest_depot.put(m.as_slice(), id.as_slice());
                self.last_depot = Some(id);
            },
            None => {},
        }
        self.other_line(s, kw);
    }
}

} // verus!

verus! {

/// A depot found by the discovery run.
pub struct PreflightDepotInfo {
    pub depot_id: String,
    pub manifest_id: String,
    pub depot_name: Option<String>,
}

/// What the discovery run yields.
pub struct PreflightResult {
    /// Depots found, sorted by numeric id.
    pub depots: Vec<PreflightDepotInfo>,
    /// Primary depot id.
    pub primary_depot_id: Option<String>,
    /// Build id, when a line gives one.
    pub build_id: Option<String>,
    /// Build release date-time, when known.
    pub build_datetime_utc: Option<UtcDateTime>,
    /// The lines the result was read from.
    pub raw_output: Vec<String>,
}

/// Without any `depot - manifest` line: each `[Mm]anifest <id>` pairs with the
/// last `[Dd]epot <id>` seen, the depot mention of a line counting first.
pub open spec fn loose_pairs(lines: Seq<Seq<char>>) -> (Option<Seq<char>>, Seq<(Seq<char>, Seq<char>)>)
    decreases lines.len(),
{
    if lines.len() == 0 {
        (None, seq![])
    } else {
        let (last, pairs) = loose_pairs(lines.drop_last());
        let s = lines.last();
        let last2 = match find_depot_id(s) {
            Some((a, b)) => Some(s.subrange(a, b)),
            None => last,
        };
        let pairs2 = match (crate::grammar::find_manifest_id(s), last2) {
            (Some((a, b)), Some(d)) => assoc_put(pairs, d, s.subrange(a, b)),
            _ => pairs,
        };
        (last2, pairs2)
    }
}

/// The sort key of a depot id: its numeric value, zero when it is not a number.
pub open spec fn id_key(id: Seq<char>) -> u64 {
    match crate::text::parse_u64_spec(id) {
        Some(v) => v,
        None => 0,
    }
}

/// Where an entry of key `k` goes in a sorted list: after every entry whose key
/// is not greater.
pub open spec fn insert_pos(t: Seq<(Seq<char>, Seq<char>)>, k: u64, from: int) -> int
    decreases t.len() - from,
{
    if from < 0 || from >= t.len() {
        t.len() as int
    } else if id_key(t[from].0) > k {
        from
    } else {
        insert_pos(t, k, from + 1)
    }
}

/// The entries sorted by numeric id; entries of equal key keep their order.
pub open spec fn sort_pairs(s: Seq<(Seq<char>, Seq<char>)>) -> Seq<(Seq<char>, Seq<char>)>
    decreases s.len(),
{
    if s.len() == 0 {
        s
    } else {
        let t = sort_pairs(s.drop_last());
        t.insert(insert_pos(t, id_key(s.last().0), 0), s.last())
    }
}

/// The first id of a list that is not a shared depot.
pub open spec fn first_unshared(t: Seq<(Seq<char>, Seq<char>)>, from: int) -> Option<Seq<char>>
    decreases t.len() - from,
{
    if from < 0 || from >= t.len() {
        None
    } else if !crate::depots::is_shared(t[from].0) {
        Some(t[from].0)
    } else {
        first_unshared(t, from + 1)
    }
}

/// The depot-manifest pairs of the run, sorted by numeric depot id.
pub open spec fn preflight_pairs(lines: Seq<Seq<char>>) -> Seq<(Seq<char>, Seq<char>)> {
    let st = scan_lines(lines);
    if st.depot_manifest.len() == 0 {
        sort_pairs(loose_pairs(lines).1)
    } else {
        sort_pairs(st.depot_manifest)
    }
}

/// The primary depot: the one an `installdir` line follows, else the first
/// non-shared depot by numeric id, else the first depot.
pub open spec fn preflight_primary(lines: Seq<Seq<char>>) -> Option<Seq<char>> {
    let st = scan_lines(lines);
    let t = preflight_pairs(lines);
    if st.primary is Some {
        st.primary
    } else if t.len() == 0 {
        None
    } else if first_unshared(t, 0) is Some {
        first_unshared(t, 0)
    } else {
        Some(t[0].0)
    }
}

/// The build timestamp: an epoch-bearing line's, else the primary depot's manifest time.
pub open spec fn preflight_stamp(lines: Seq<Seq<char>>) -> Option<UtcDateTime> {
    let st = scan_lines(lines);
    if st.build_stamp is Some {
        st.build_stamp
    } else {
        match preflight_primary(lines) {
            Some(p) => assoc_get(st.depot_stamps, p),
            None => None,
        }
    }
}

pub open spec fn lines_view(lines: Seq<String>) -> Seq<Seq<char>> {
    lines.map_values(|l: String| l@)
}

pub open spec fn opt_string_view(o: Option<String>) -> Option<Seq<char>> {
    match o {
        Some(s) => Some(s@),
        None => None,
    }
}

impl PreflightResult {
    /// The result read from `lines`.
    pub open spec fn describes(&self, lines: Seq<Seq<char>>) -> bool {
        let t = preflight_pairs(lines);
        let st = scan_lines(lines);
        &&& self.depots@.len() == t.len()
        &&& forall|i: int|
            0 <= i < t.len() ==> {
                &&& (#[trigger] self.depots@[i]).depot_id@ == t[i].0
                &&& self.depots@[i].manifest_id@ == t[i].1
                &&& opt_string_view(self.depots@[i].depot_name) == assoc_get(st.names, t[i].0)
            }
        &&& opt_string_view(self.primary_depot_id) == preflight_primary(lines)
        &&& opt_string_view(self.build_id) == st.build_id
        &&& self.build_datetime_utc == preflight_stamp(lines)
        &&& lines_view(self.raw_output@) == lines
    }
}

} // verus!

verus! {

fn id_key_exec(id: &[char]) -> (r: u64)
    ensures
        r == id_key(id@),
{
    match crate::text::parse_u64(id) {
        Some(v) => v,
        None => 0,
    }
}

pub open spec fn pairs_view(v: Seq<(Vec<char>, Vec<char>)>) -> Seq<(Seq<char>, Seq<char>)> {
    Seq::new(v.len(), |i: int| (v[i].0@, v[i].1@))
}

} // verus!

verus! {

pub(crate) fn sort_into(src: &Vec<(Vec<char>, Vec<char>)>) -> (r: Vec<(Vec<char>, Vec<char>)>)
    ensures
        pairs_view(r@) == sort_pairs(pairs_view(src@)),
{
    let mut out: Vec<(Vec<char>, Vec<char>)> = Vec::new();
    let mut i: usize = 0;
    while i < src.len()
        invariant
            i <= src@.len(),
            pairs_view(out@) == sort_pairs(pairs_view(src@.subrange(0, i as int))),
        decreases src@.len() - i,
    {
        let ghost pre = pairs_view(src@.subrange(0, i as int));
        let ghost cur = pairs_view(src@.subrange(0, i + 1));
        assert(cur.drop_last() =~= pre);
        let k = id_key_exec(src[i].0.as_slice());
        let mut j: usize = 0;
        while j < out.len() && id_key_exec(out[j].0.as_slice()) <= k
            invariant
                j <= out@.len(),
                insert_pos(pairs_view(out@), k, j as int) == insert_pos(pairs_view(out@), k, 0),
            decreases out@.len() - j,
        {
            j = j + 1;
        }
        let ghost before = pairs_view(out@);
        out.insert(j, (src[i].0.clone(), src[i].1.clone()));
        assert(pairs_view(out@) =~= before.insert(j as int, cur.last()));
        i = i + 1;
    }
    assert(src@.subrange(0, src@.len() as int) =~= src@);
    out
}

fn loose_pairs_exec(lines: &Vec<Vec<char>>) -> (r: TextMap)
    ensures
        r@ == loose_pairs(chars_lines(lines@)).1,
{
    let mut last: Option<Vec<char>> = None;
    let mut pairs = TextMap::new();
    let mut i: usize = 0;
    while i < lines.len()
        invariant
            i <= lines@.len(),
            (opt_view(last), pairs@) == loose_pairs(chars_lines(lines@.subrange(0, i as int))),
        decreases lines@.len() - i,
    {
        assert(chars_lines(lines@.subrange(0, i + 1)).drop_last() =~= chars_lines(
            lines@.subrange(0, i as int),
        ));
        let s = lines[i].as_slice();
        match search_depot_id(s) {
            Some((a, b)) => {
                last = Some(slice_chars(s, a, b));
            },
            None => {},
        }
        match crate::grammar::search_manifest_id(s) {
            Some((a, b)) => {
                match &last {
                    Some(d) => {
                        pairs.put(d.as_slice(), slice_chars(s, a, b).as_slice());
                    },
                    None => {},
                }
            },
            None => {},
        }
        i = i + 1;
    }
    assert(lines@.subrange(0, lines@.len() as int) =~= lines@);
    pairs
}

pub open spec fn chars_lines(v: Seq<Vec<char>>) -> Seq<Seq<char>> {
    Seq::new(v.len(), |i: int| v[i]@)
}

} // verus!

verus! {

pub(crate) fn first_unshared_exec(t: &Vec<(Vec<char>, Vec<char>)>) -> (r: Option<Vec<char>>)
    ensures
        opt_view(r) == first_unshared(pairs_view(t@), 0),
{
    let mut i: usize = 0;
    while i < t.len()
        invariant
            i <= t@.len(),
            first_unshared(pairs_view(t@), i as int) == first_unshared(pairs_view(t@), 0),
        decreases t@.len() - i,
    {
        let id = crate::text::string_of(&t[i].0);
        if !crate::depots::is_shared_depot(id.as_str()) {
            return Some(t[i].0.clone());
        }
        i = i + 1;
    }
    None
}

fn opt_string(o: &Option<Vec<char>>) -> (r: Option<String>)
    ensures
        opt_string_view(r) == opt_view(*o),
{
    match o {
        Some(v) => Some(crate::text::string_of(v)),
        None => None,
    }
}

fn scan_all(lines: &[String], kw: &Keywords) -> (r: (Vec<Vec<char>>, Vec<String>, Scanner))
    requires
        kw.wf(),
    ensures
        chars_lines(r.0@) == lines_view(lines@),
        lines_view(r.1@) == lines_view(lines@),
        r.2.view() == scan_lines(lines_view(lines@)),
        r.2.wf(),
{
    let ghost lv = lines_view(lines@);
    let mut chars: Vec<Vec<char>> = Vec::new();
    let mut raw: Vec<String> = Vec::new();
    let mut scanner = Scanner::new();
    let mut i: usize = 0;
    while i < lines.len()
        invariant
            kw.wf(),
            i <= lines@.len(),
            lv == lines_view(lines@),
            chars_lines(chars@) == lv.subrange(0, i as int),
            lines_view(raw@) == lv.subrange(0, i as int),
            scanner.view() == scan_lines(lv.subrange(0, i as int)),
            scanner.wf(),
        decreases lines@.len() - i,
    {
        let c = crate::text::chars_of(lines[i].as_str());
        scanner.scan(c.as_slice(), kw);
        chars.push(c);
        raw.push(lines[i].clone());
        assert(lv.subrange(0, i + 1).drop_last() =~= lv.subrange(0, i as int));
        i = i + 1;
        assert(chars_lines(chars@) =~= lv.subrange(0, i as int));
        assert(lines_view(raw@) =~= lv.subrange(0, i as int));
    }
    assert(lv.subrange(0, lines@.len() as int) =~= lv);
    (chars, raw, scanner)
}

fn sorted_pairs_of(chars: &Vec<Vec<char>>, scanner: &Scanner) -> (r: Vec<(Vec<char>, Vec<char>)>)
    requires
        scanner.view() == scan_lines(chars_lines(chars@)),
    ensures
        pairs_view(r@) == preflight_pairs(chars_lines(chars@)),
{
    let ghost st = scanner.view();
    if scanner.depot_manifest.len() == 0 {
        let lp = loose_pairs_exec(chars);
        assert(pairs_view(lp.entries@) =~= lp@);
        sort_into(&lp.entries)
    } else {
        assert(pairs_view(scanner.depot_manifest.entries@) =~= st.depot_manifest);
        sort_into(&scanner.depot_manifest.entries)
    }
}

fn depot_infos(sorted: &Vec<(Vec<char>, Vec<char>)>, names: &TextMap) -> (r: Vec<PreflightDepotInfo>)
    ensures
        r@.len() == sorted@.len(),
        forall|k: int|
            0 <= k < sorted@.len() ==> {
                &&& (#[trigger] r@[k]).depot_id@ == pairs_view(sorted@)[k].0
                &&& r@[k].manifest_id@ == pairs_view(sorted@)[k].1
                &&& opt_string_view(r@[k].depot_name) == assoc_get(names@, pairs_view(sorted@)[k].0)
            },
{
    let ghost t = pairs_view(sorted@);
    let mut depots: Vec<PreflightDepotInfo> = Vec::new();
    let mut j: usize = 0;
    while j < sorted.len()
        invariant
            j <= sorted@.len(),
            t == pairs_view(sorted@),
            depots@.len() == j,
            forall|k: int|
                0 <= k < j ==> {
                    &&& (#[trigger] depots@[k]).depot_id@ == t[k].0
                    &&& depots@[k].manifest_id@ == t[k].1
                    &&& opt_string_view(depots@[k].depot_name) == assoc_get(names@, t[k].0)
                },
        decreases sorted@.len() - j,
    {
        let name = names.get(sorted[j].0.as_slice());
        let info = PreflightDepotInfo {
            depot_id: crate::text::string_of(&sorted[j].0),
            manifest_id: crate::text::string_of(&sorted[j].1),
            depot_name: match &name {
                Some(n) => Some(crate::text::string_of(n)),
                None => None,
            },
        };
        depots.push(info);
        j = j + 1;
    }
    depots
}

/// Reads the discovery run's lines (both streams, in arrival order) into depot,
/// primary-depot, build-id and build-timestamp facts.
pub fn parse_preflight_output(lines: &[String]) -> (r: PreflightResult)
    ensures
        r.describes(lines_view(lines@)),
        r.build_datetime_utc matches Some(t) ==> t.wf(),
{
    let ghost lv = lines_view(lines@);
    let kw = Keywords::new();
    let (chars, raw, scanner) = scan_all(lines, &kw);
    let ghost st = scanner.view();
    let sorted = sorted_pairs_of(&chars, &scanner);
    let ghost t = preflight_pairs(lv);
    let primary: Option<Vec<char>> = if scanner.primary.is_some() {
        scanner.primary.clone()
    } else if sorted.len() == 0 {
        None
    } else {
        match first_unshared_exec(&sorted) {
            Some(p) => Some(p),
            None => Some(sorted[0].0.clone()),
        }
    };
    assert(opt_view(primary) == preflight_primary(lv));
    let stamp = if scanner.build_stamp.is_some() {
        scanner.build_stamp
    } else {
        match &primary {
            Some(p) => scanner.depot_stamps.get(p.as_slice()),
            None => None,
        }
    };
    let depots = depot_infos(&sorted, &scanner.names);
    PreflightResult {
        depots,
        primary_depot_id: opt_string(&primary),
        build_id: opt_string(&scanner.build_id),
        build_datetime_utc: stamp,
        raw_output: raw,
    }
}

} // verus!

verus! {

pub proof fn lemma_insert_pos_bounds(t: Seq<(Seq<char>, Seq<char>)>, k: u64, from: int)
    requires
        0 <= from <= t.len(),
    ensures
        from <= insert_pos(t, k, from) <= t.len(),
    decreases t.len() - from,
{
    if from < t.len() && id_key(t[from].0) <= k {
        lemma_insert_pos_bounds(t, k, from + 1);
    }
}

/// Sorting keeps the number of entries.
pub proof fn lemma_sort_len(s: Seq<(Seq<char>, Seq<char>)>)
    ensures
        sort_pairs(s).len() == s.len(),
    decreases s.len(),
{
    if s.len() > 0 {
        lemma_sort_len(s.drop_last());
        let t = sort_pairs(s.drop_last());
        lemma_insert_pos_bounds(t, id_key(s.last().0), 0);
    }
}

/// The first non-shared id of a list is one of its ids.
pub proof fn lemma_first_unshared_listed(t: Seq<(Seq<char>, Seq<char>)>, from: int)
    requires
        0 <= from,
        first_unshared(t, from) is Some,
    ensures
        exists|i: int| from <= i < t.len() && t[i].0 == first_unshared(t, from)->0,
    decreases t.len() - from,
{
    if from < t.len() && crate::depots::is_shared(t[from].0) {
        lemma_first_unshared_listed(t, from + 1);
    }
}

} // verus!

verus! {

proof fn lemma_scan_keeps_slot(st: ScanState, s: Seq<char>)
    requires
        st.build_stamp is Some,
    ensures
        scan_line(st, s).build_stamp == st.build_stamp,
{
}

proof fn lemma_scan_slot_filled(lines: Seq<Seq<char>>, i: int)
    requires
        0 <= i < lines.len(),
        crate::job_state::time_updated(lines[i]) is Some,
    ensures
        scan_lines(lines).build_stamp is Some,
    decreases lines.len(),
{
    let prev = lines.drop_last();
    if i == lines.len() - 1 {
        assert(lines.last() == lines[i]);
        assert(line_epoch(lines[i]) is Some);
    } else {
        assert(prev[i] == lines[i]);
        lemma_scan_slot_filled(prev, i);
        lemma_scan_keeps_slot(scan_lines(prev), lines.last());
    }
}

/// Timestamp priority in the discovery run: when any line carries a
/// time-updated epoch, the build timestamp comes from the epoch fields, never
/// from a manifest time, wherever the manifest lines stand.
pub proof fn lemma_epoch_line_beats_manifest_times(lines: Seq<Seq<char>>, i: int)
    requires
        0 <= i < lines.len(),
        crate::job_state::time_updated(lines[i]) is Some,
    ensures
        preflight_stamp(lines) is Some,
        preflight_stamp(lines) == scan_lines(lines).build_stamp,
{
    lemma_scan_slot_filled(lines, i);
}

} // verus!

verus! {

pub open spec fn sorted_by_id(t: Seq<(Seq<char>, Seq<char>)>) -> bool {
    forall|i: int, j: int| 0 <= i < j < t.len() ==> id_key(#[trigger] t[i].0) <= id_key(#[trigger] t[j].0)
}

proof fn lemma_insert_pos_split(t: Seq<(Seq<char>, Seq<char>)>, k: u64, from: int)
    requires
        0 <= from <= t.len(),
        sorted_by_id(t),
        forall|i: int| 0 <= i < from ==> id_key(#[trigger] t[i].0) <= k,
    ensures
        forall|i: int| 0 <= i < insert_pos(t, k, from) ==> id_key(#[trigger] t[i].0) <= k,
        forall|i: int| insert_pos(t, k, from) <= i < t.len() ==> id_key(#[trigger] t[i].0) > k,
    decreases t.len() - from,
{
    if from < t.len() {
        if id_key(t[from].0) > k {
            assert forall|i: int| from <= i < t.len() implies id_key(#[trigger] t[i].0) > k by {
                if i > from {
                    assert(id_key(t[from].0) <= id_key(t[i].0));
                }
            }
        } else {
            lemma_insert_pos_split(t, k, from + 1);
        }
    }
}

/// The sorted depot list is in ascending numeric order.
pub proof fn lemma_sort_pairs_sorted(s: Seq<(Seq<char>, Seq<char>)>)
    ensures
        sorted_by_id(sort_pairs(s)),
        sort_pairs(s).len() == s.len(),
    decreases s.len(),
{
    lemma_sort_len(s);
    if s.len() > 0 {
        lemma_sort_pairs_sorted(s.drop_last());
        let t = sort_pairs(s.drop_last());
        let x = s.last();
        let k = id_key(x.0);
        lemma_insert_pos_split(t, k, 0);
        lemma_insert_pos_bounds(t, k, 0);
        let p = insert_pos(t, k, 0);
        let u = t.insert(p, x);
        assert forall|i: int, j: int| 0 <= i < j < u.len() implies id_key(#[trigger] u[i].0) <= id_key(#[trigger] u[j].0) by {
            if j < p {
                assert(u[i] == t[i] && u[j] == t[j]);
            } else if j == p {
                assert(u[i] == t[i]);
            } else if i < p {
                assert(u[i] == t[i] && u[j] == t[j - 1]);
            } else if i == p {
                assert(u[j] == t[j - 1]);
            } else {
                assert(u[i] == t[i - 1] && u[j] == t[j - 1]);
            }
        }
    }
}

} // verus!
