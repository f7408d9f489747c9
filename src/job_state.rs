//! The record a download job accumulates while its two output streams are read:
//! depot names, manifest owners and times, and the build timestamp slot.
use vstd::prelude::*;
use crate::assoc::{assoc_get, assoc_put, StampMap, TextMap};
use crate::datetime::UtcDateTime;
use crate::grammar::{
    find_appinfo_name, find_depot_id, find_depot_manifest, find_depot_name, find_epoch_field,
    find_manifest_time, search_appinfo_name, search_depot_id, search_depot_manifest,
    search_depot_name, search_epoch_field, search_manifest_time, EpochField, Keywords,
};
use crate::preflight::{opt_string_view, opt_view, PreflightResult};
use crate::stamps::{epoch_stamp, parse_datetime_string, parse_epoch_timestamp, text_stamp};
use crate::text::{chars_of, slice_chars, str_equal};

verus! {

/// The metadata part of a job's record.
pub struct StreamFacts {
    pub depot_names: Seq<(Seq<char>, Seq<char>)>,
    pub manifest_to_depot: Seq<(Seq<char>, Seq<char>)>,
    pub manifest_stamps: Seq<(Seq<char>, UtcDateTime)>,
    pub depot_stamps: Seq<(Seq<char>, UtcDateTime)>,
    pub last_depot: Option<Seq<char>>,
    pub build_stamp: Option<UtcDateTime>,
}

/// A lower-priority epoch field of a line: last-updated, else build-date.
pub open spec fn secondary_epoch(s: Seq<char>) -> Option<UtcDateTime> {
    match find_epoch_field(s, EpochField::LastUpdated) {
        Some((a, b)) => epoch_stamp(s.subrange(a, b)),
        None => match find_epoch_field(s, EpochField::BuildDate) {
            Some((a, b)) => epoch_stamp(s.subrange(a, b)),
            None => None,
        },
    }
}

/// The time-updated epoch of a line, when it has a readable one.
pub open spec fn time_updated(s: Seq<char>) -> Option<UtcDateTime> {
    match find_epoch_field(s, EpochField::TimeUpdated) {
        Some((a, b)) => epoch_stamp(s.subrange(a, b)),
        None => None,
    }
}

/// The rules other than the depot-name and depot-manifest ones, in order: a
/// `"name"` field names the cursor depot; a depot mention moves the cursor; a
/// time-updated epoch fills an empty timestamp slot; a manifest time is
/// recorded for the manifest and its depot; a lower-priority epoch field fills
/// a slot still empty.
pub open spec fn observe_other(f: StreamFacts, s: Seq<char>) -> StreamFacts {
    let f1 = match (find_appinfo_name(s), f.last_depot) {
        (Some((a, b)), Some(d)) => StreamFacts {
            depot_names: assoc_put(f.depot_names, d, s.subrange(a, b)),
            ..f
        },
        _ => f,
    };
    let f2 = match find_depot_id(s) {
        Some((a, b)) => StreamFacts { last_depot: Some(s.subrange(a, b)), ..f1 },
        None => f1,
    };
    let f3 = if f2.build_stamp is None && time_updated(s) is Some {
        StreamFacts { build_stamp: time_updated(s), ..f2 }
    } else {
        f2
    };
    let f4 = match find_manifest_time(s) {
        Some((a, b, c, d)) => match text_stamp(s.subrange(c, d)) {
            Some(t) => {
                let m = s.subrange(a, b);
                let ms = assoc_put(f3.manifest_stamps, m, t);
                match assoc_get(f3.manifest_to_depot, m) {
                    Some(dep) => StreamFacts {
                        manifest_stamps: ms,
                        depot_stamps: assoc_put(f3.depot_stamps, dep, t),
                        ..f3
                    },
                    None => StreamFacts { manifest_stamps: ms, ..f3 },
                }
            },
            None => f3,
        },
        None => f3,
    };
    if f4.build_stamp is None && secondary_epoch(s) is Some {
        StreamFacts { build_stamp: secondary_epoch(s), ..f4 }
    } else {
        f4
    }
}

/// The depot-name rule of the download run.
pub open spec fn observe_depot_name(f: StreamFacts, s: Seq<char>) -> StreamFacts {
    match find_depot_name(s) {
        Some((a, b, c, d)) => StreamFacts {
            depot_names: assoc_put(f.depot_names, s.subrange(a, b), s.subrange(c, d)),
            last_depot: Some(s.subrange(a, b)),
            ..f
        },
        None => f,
    }
}

/// The depot-manifest rule of the download run.
pub open spec fn observe_depot_manifest(f: StreamFacts, s: Seq<char>) -> StreamFacts {
    match find_depot_manifest(s) {
        Some((a, b, c, d)) => StreamFacts {
            manifest_to_depot: assoc_put(f.manifest_to_depot, s.subrange(c, d), s.subrange(a, b)),
            last_depot: Some(s.subrange(a, b)),
            ..f
        },
        None => f,
    }
}

/// The facts one line of the download run adds: every rule is tried on the
/// line, in order, and a line may trigger several.
pub open spec fn observe_line(f: StreamFacts, s: Seq<char>) -> StreamFacts {
    observe_other(observe_depot_manifest(observe_depot_name(f, s), s), s)
}

/// The two output streams of the download tool; each has its own depot cursor.
#[derive(Clone, Copy, Debug, PartialEq, Eq, Structural)]
pub enum OutputStream {
    Stdout,
    Stderr,
}

/// Facts with the cursor of the stream being read.
pub open spec fn with_cursor(f: StreamFacts, cursor: Option<Seq<char>>) -> StreamFacts {
    StreamFacts { last_depot: cursor, ..f }
}

/// The state of the one job this process runs.
pub struct JobState {
    pub job_id: Option<String>,
    pub build_datetime_utc: Option<UtcDateTime>,
    pub depot_timestamps: StampMap,
    pub manifest_to_depot: TextMap,
    pub manifest_timestamps: StampMap,
    /// The last depot mentioned on standard output.
    pub stdout_depot: Option<Vec<char>>,
    /// The last depot mentioned on standard error.
    pub stderr_depot: Option<Vec<char>>,
    pub auth_username: Option<String>,
    pub depot_names: TextMap,
}

impl JobState {
    /// The facts both streams share (no cursor).
    pub open spec fn facts(&self) -> StreamFacts {
        StreamFacts {
            depot_names: self.depot_names@,
            manifest_to_depot: self.manifest_to_depot@,
            manifest_stamps: self.manifest_timestamps@,
            depot_stamps: self.depot_timestamps@,
            last_depot: None,
            build_stamp: self.build_datetime_utc,
        }
    }

    /// The depot cursor of a stream.
    pub open spec fn cursor(&self, st: OutputStream) -> Option<Seq<char>> {
        match st {
            OutputStream::Stdout => opt_view(self.stdout_depot),
            OutputStream::Stderr => opt_view(self.stderr_depot),
        }
    }

    /// The facts as the reader of `st` sees them.
    pub open spec fn facts_for(&self, st: OutputStream) -> StreamFacts {
        with_cursor(self.facts(), self.cursor(st))
    }

    /// Both cursors are as in `other`.
    pub open spec fn same_cursors(&self, other: JobState) -> bool {
        self.stdout_depot == other.stdout_depot && self.stderr_depot == other.stderr_depot
    }

    /// Every date-time the record holds names an existing instant.
    pub open spec fn wf(&self) -> bool {
        &&& self.build_datetime_utc matches Some(t) ==> t.wf()
        &&& crate::assoc::stamps_wf(self.depot_timestamps@)
        &&& crate::assoc::stamps_wf(self.manifest_timestamps@)
    }

    /// Whether the record belongs to job `id`.
    pub open spec fn is_job(&self, id: Seq<char>) -> bool {
        self.job_id matches Some(j) && j@ == id
    }

    /// An empty record, belonging to no job.
    pub fn new() -> (r: JobState)
        ensures
            r.wf(),
            r.job_id is None,
            r.auth_username is None,
            r.facts() == (StreamFacts {
                depot_names: seq![],
                manifest_to_depot: seq![],
                manifest_stamps: seq![],
                depot_stamps: seq![],
                last_depot: None,
                build_stamp: None,
            }),
    {
        JobState {
            job_id: None,
            build_datetime_utc: None,
            depot_timestamps: StampMap::new(),
            manifest_to_depot: TextMap::new(),
            manifest_timestamps: StampMap::new(),
            stdout_depot: None,
            stderr_depot: None,
            auth_username: None,
            depot_names: TextMap::new(),
        }
    }

    fn belongs_to(&self, job_id: &str) -> (r: bool)
        ensures
            r == self.is_job(job_id@),
    {
        match &self.job_id {
            Some(j) => str_equal(j.as_str(), job_id),
            None => false,
        }
    }

    fn observe_other_exec(&mut self, cursor: &mut Option<Vec<char>>, s: &[char], kw: &Keywords)
        requires
            kw.wf(),
            old(self).wf(),
        ensures
            final(self).wf(),
            with_cursor(final(self).facts(), opt_view(*final(cursor))) == observe_other(
                with_cursor(old(self).facts(), opt_view(*old(cursor))),
                s@,
            ),
            final(self).job_id == old(self).job_id,
            final(self).auth_username == old(self).auth_username,
            final(self).same_cursors(*old(self)),
    {
        match search_appinfo_name(s, kw) {
            Some((a, b)) => {
                match &*cursor {
                    Some(d) => {
                        let dv = d.clone();
                        self.depot_names.put(dv.as_slice(), slice_chars(s, a, b).as_slice());
                    },
                    None => {},
                }
            },
            None => {},
        }
        match search_depot_id(s) {
            Some((a, b)) => {
                *cursor = Some(slice_chars(s, a, b));
            },
            None => {},
        }
        if self.build_datetime_utc.is_none() {
            let tu = match search_epoch_field(s, &EpochField::TimeUpdated, kw) {
                Some((a, b)) => parse_epoch_timestamp(slice_chars(s, a, b).as_slice()),
                None => None,
            };
            if tu.is_some() {
                self.build_datetime_utc = tu;
            }
        }
        match search_manifest_time(s, kw) {
            Some((a, b, c, d)) => {
                match parse_datetime_string(slice_chars(s, c, d).as_slice()) {
                    Some(t) => {
                        let m = slice_chars(s, a, b);
                        self.manifest_timestamps.put(m.as_slice(), t);
                        match self.manifest_to_depot.get(m.as_slice()) {
                            Some(dep) => {
                                self.depot_timestamps.put(dep.as_slice(), t);
                            },
                            None => {},
                        }
                    },
                    None => {},
                }
            },
            None => {},
        }
        if self.build_datetime_utc.is_none() {
            let e = match search_epoch_field(s, &EpochField::LastUpdated, kw) {
                Some((a, b)) => parse_epoch_timestamp(slice_chars(s, a, b).as_slice()),
                None => match search_epoch_field(s, &EpochField::BuildDate, kw) {
                    Some((a, b)) => parse_epoch_timestamp(slice_chars(s, a, b).as_slice()),
                    None => None,
                },
            };
            if e.is_some() {
                self.build_datetime_utc = e;
            }
        }
    }

    /// Folds one line that the reader of stream `st` read into the record of
    /// job `job_id`; the stream's own depot cursor is used and moved. A record
    /// of another job, or of none, is left as it is.
    pub fn observe(&mut self, line: &str, job_id: &str, st: OutputStream)
        requires
            old(self).wf(),
        ensures
            final(self).wf(),
            old(self).is_job(job_id@) ==> final(self).facts_for(st) == observe_line(
                old(self).facts_for(st),
                line@,
            ),
            !old(self).is_job(job_id@) ==> final(self).facts() == old(self).facts()
                && final(self).same_cursors(*old(self)),
            st == OutputStream::Stdout ==> final(self).stderr_depot == old(self).stderr_depot,
            st == OutputStream::Stderr ==> final(self).stdout_depot == old(self).stdout_depot,
            final(self).job_id == old(self).job_id,
            final(self).auth_username == old(self).auth_username,
    {
        if !self.belongs_to(job_id) {
            return ;
        }
        let kw = Keywords::new();
        let v = chars_of(line);
        let s = v.as_slice();
        let mut cursor: Option<Vec<char>> = match st {
            OutputStream::Stdout => self.stdout_depot.clone(),
            OutputStream::Stderr => self.stderr_depot.clone(),
        };
        proof {
            assert(opt_view(cursor) == old(self).cursor(st));
        }
        match search_depot_name(s) {
            Some((a, b, c, d)) => {
                let id = slice_chars(s, a, b);
                self.depot_names.put(id.as_slice(), slice_chars(s, c, d).as_slice());
                cursor = Some(id);
            },
            None => {},
        }
        match search_depot_manifest(s) {
            Some((a, b, c, d)) => {
                let id = slice_chars(s, a, b);
                let m = slice_chars(s, c, d);
                self.manifest_to_depot.put(m.as_slice(), id.as_slice());
                cursor = Some(id);
            },
            None => {},
        }
        self.observe_other_exec(&mut cursor, s, &kw);
        match st {
            OutputStream::Stdout => {
                self.stdout_depot = cursor;
            },
            OutputStream::Stderr => {
                self.stderr_depot = cursor;
            },
        }
    }
}

} // verus!

verus! {

pub open spec fn no_facts() -> StreamFacts {
    StreamFacts {
        depot_names: seq![],
        manifest_to_depot: seq![],
        manifest_stamps: seq![],
        depot_stamps: seq![],
        last_depot: None,
        build_stamp: None,
    }
}

/// The user name of a request as the login cache uses it: trimmed, none when blank.
pub open spec fn request_user(username: Seq<char>) -> Option<Seq<char>> {
    if crate::text::trim(username).len() == 0 {
        None
    } else {
        Some(crate::text::trim(username))
    }
}

/// The record after the discovery run's result is folded in: its build
/// timestamp fills an empty slot, its depot names are learned.
pub open spec fn seeded_names(
    names: Seq<(Seq<char>, Seq<char>)>,
    depots: Seq<crate::preflight::PreflightDepotInfo>,
) -> Seq<(Seq<char>, Seq<char>)>
    decreases depots.len(),
{
    if depots.len() == 0 {
        names
    } else {
        let prev = seeded_names(names, depots.drop_last());
        match depots.last().depot_name {
            Some(n) => assoc_put(prev, depots.last().depot_id@, n@),
            None => prev,
        }
    }
}

impl JobState {
    fn clear_facts(&mut self)
        ensures
            final(self).wf(),
            final(self).stdout_depot is None && final(self).stderr_depot is None,
            final(self).facts() == no_facts(),
            final(self).job_id == old(self).job_id,
            final(self).auth_username == old(self).auth_username,
    {
        self.build_datetime_utc = None;
        self.depot_timestamps.clear();
        self.manifest_to_depot.clear();
        self.manifest_timestamps.clear();
        self.stdout_depot = None;
        self.stderr_depot = None;
        self.depot_names.clear();
    }

    /// Starts the record of a new job: every fact of an earlier job is dropped.
    pub fn begin(&mut self, job_id: String)
        ensures
            final(self).wf(),
            final(self).stdout_depot is None && final(self).stderr_depot is None,
            final(self).job_id == Some(job_id),
            final(self).auth_username is None,
            final(self).facts() == no_facts(),
    {
        self.clear_facts();
        self.auth_username = None;
        self.job_id = Some(job_id);
    }

    /// Ends the record of job `job_id`; a record of another job is left as it is.
    pub fn finish(&mut self, job_id: &str)
        requires
            old(self).wf(),
        ensures
            final(self).wf(),
            old(self).is_job(job_id@) ==> final(self).job_id is None && final(self).auth_username
                is None && final(self).facts() == no_facts() && final(self).stdout_depot is None
                && final(self).stderr_depot is None,
            !old(self).is_job(job_id@) ==> *final(self) == *old(self),
    {
        if self.belongs_to(job_id) {
            self.clear_facts();
            self.auth_username = None;
            self.job_id = None;
        }
    }

    /// Drops the record whatever job it belongs to (a cancelled job).
    pub fn reset(&mut self)
        ensures
            final(self).wf(),
            final(self).stdout_depot is None && final(self).stderr_depot is None,
            final(self).job_id is None,
            final(self).auth_username is None,
            final(self).facts() == no_facts(),
    {
        self.clear_facts();
        self.auth_username = None;
        self.job_id = None;
    }

    /// Records the request's user name for job `job_id`.
    pub fn record_request_user(&mut self, username: &str, job_id: &str)
        requires
            old(self).wf(),
        ensures
            final(self).wf(),
            old(self).is_job(job_id@) ==> opt_string_view(final(self).auth_username)
                == request_user(username@),
            !old(self).is_job(job_id@) ==> final(self).auth_username == old(self).auth_username,
            final(self).job_id == old(self).job_id,
            final(self).facts() == old(self).facts(),
            final(self).same_cursors(*old(self)),
    {
        if self.belongs_to(job_id) {
            let t = crate::text::trim_chars(chars_of(username).as_slice());
            if t.len() == 0 {
                self.auth_username = None;
            } else {
                self.auth_username = Some(crate::text::string_of(&t));
            }
        }
    }

    /// Records the user name a line of job `job_id` asked the tool to remember.
    pub fn note_remembered_user(&mut self, line: &str, job_id: &str)
        requires
            old(self).wf(),
        ensures
            final(self).wf(),
            old(self).is_job(job_id@) && crate::auth::remembered_user(line@) is Some
                ==> opt_string_view(final(self).auth_username) == crate::auth::remembered_user(
                line@,
            ),
            !(old(self).is_job(job_id@) && crate::auth::remembered_user(line@) is Some)
                ==> final(self).auth_username == old(self).auth_username,
            final(self).job_id == old(self).job_id,
            final(self).facts() == old(self).facts(),
            final(self).same_cursors(*old(self)),
    {
        match crate::auth::remembered_username(line) {
            Some(u) => {
                if self.belongs_to(job_id) {
                    self.auth_username = Some(u);
                }
            },
            None => {},
        }
    }

    /// The user whose login is cached for job `job_id`: the one the record
    /// holds, else the request's.
    pub fn auth_user_for(&self, request_username: &str, job_id: &str) -> (r: Option<String>)
        ensures
            opt_string_view(r) == (if self.is_job(job_id@) && self.auth_username is Some
                && request_user(self.auth_username->0@) is Some {
                Some(self.auth_username->0@)
            } else {
                request_user(request_username@)
            }),
    {
        if self.belongs_to(job_id) {
            match &self.auth_username {
                Some(u) => {
                    let t = crate::text::trim_chars(chars_of(u.as_str()).as_slice());
                    if t.len() > 0 {
                        return Some(u.clone());
                    }
                },
                None => {},
            }
        }
        let t = crate::text::trim_chars(chars_of(request_username).as_slice());
        if t.len() == 0 {
            None
        } else {
            Some(crate::text::string_of(&t))
        }
    }

    /// Folds the discovery run's result into the record of job `job_id`.
    pub fn seed_from_preflight(&mut self, result: &PreflightResult, job_id: &str)
        requires
            old(self).wf(),
            result.build_datetime_utc matches Some(t) ==> t.wf(),
        ensures
            final(self).wf(),
            old(self).is_job(job_id@) ==> final(self).facts() == (StreamFacts {
                build_stamp: if old(self).build_datetime_utc is Some {
                    old(self).build_datetime_utc
                } else {
                    result.build_datetime_utc
                },
                depot_names: seeded_names(old(self).depot_names@, result.depots@),
                ..old(self).facts()
            }),
            !old(self).is_job(job_id@) ==> final(self).facts() == old(self).facts(),
            final(self).job_id == old(self).job_id,
            final(self).auth_username == old(self).auth_username,
            final(self).same_cursors(*old(self)),
    {
        if !self.belongs_to(job_id) {
            return ;
        }
        if self.build_datetime_utc.is_none() {
            self.build_datetime_utc = result.build_datetime_utc;
        }
        let ghost names0 = self.depot_names@;
        let mut i: usize = 0;
        while i < result.depots.len()
            invariant
                i <= result.depots@.len(),
                self.depot_names@ == seeded_names(names0, result.depots@.subrange(0, i as int)),
                self.job_id == old(self).job_id,
                self.auth_username == old(self).auth_username,
                self.build_datetime_utc == (if old(self).build_datetime_utc is Some {
                    old(self).build_datetime_utc
                } else {
                    result.build_datetime_utc
                }),
                self.depot_timestamps == old(self).depot_timestamps,
                self.manifest_to_depot == old(self).manifest_to_depot,
                self.manifest_timestamps == old(self).manifest_timestamps,
                self.same_cursors(*old(self)),
                names0 == old(self).depot_names@,
                self.wf(),
            decreases result.depots@.len() - i,
        {
            assert(result.depots@.subrange(0, i + 1).drop_last() =~= result.depots@.subrange(
                0,
                i as int,
            ));
            let d = &result.depots[i];
            match &d.depot_name {
                Some(n) => {
                    let id = chars_of(d.depot_id.as_str());
                    let nv = chars_of(n.as_str());
                    self.depot_names.put(id.as_slice(), nv.as_slice());
                },
                None => {},
            }
            i = i + 1;
        }
        assert(result.depots@.subrange(0, result.depots@.len() as int) =~= result.depots@);
    }
}

} // verus!

verus! {

/// A line changes the build timestamp slot only to an epoch value of its own,
/// and only while the slot is empty: manifest times never reach the slot, and
/// the first confident source wins.
pub proof fn lemma_slot_only_from_epoch_fields(f: StreamFacts, s: Seq<char>)
    ensures
        observe_line(f, s).build_stamp == f.build_stamp || observe_line(f, s).build_stamp
            == time_updated(s) || observe_line(f, s).build_stamp == secondary_epoch(s),
        time_updated(s) is None && secondary_epoch(s) is None ==> observe_line(f, s).build_stamp
            == f.build_stamp,
        f.build_stamp is Some ==> observe_line(f, s).build_stamp == f.build_stamp,
{
}

/// The two reader threads may see a depot-manifest line and a manifest-time
/// line in either order: the manifest times, the timestamp slot and the
/// timestamp resolved through the primary depot's manifest come out the same.
pub proof fn lemma_reader_order_irrelevant(
    f: StreamFacts,
    a: Seq<char>,
    b: Seq<char>,
    primary: Seq<char>,
    primary_manifest: Seq<char>,
)
    requires
        find_depot_manifest(a) is Some,
        find_manifest_time(a) is None,
        time_updated(a) is None,
        secondary_epoch(a) is None,
    ensures
        observe_line(observe_line(f, a), b).manifest_stamps == observe_line(
            observe_line(f, b),
            a,
        ).manifest_stamps,
        observe_line(observe_line(f, a), b).build_stamp == observe_line(
            observe_line(f, b),
            a,
        ).build_stamp,
        assoc_get(observe_line(observe_line(f, a), b).manifest_stamps, primary_manifest) is Some
            ==> crate::resolver::resolved_stamp(
            None,
            observe_line(observe_line(f, a), b),
            primary,
            primary_manifest,
        ) == crate::resolver::resolved_stamp(
            None,
            observe_line(observe_line(f, b), a),
            primary,
            primary_manifest,
        ),
{
    let fa = observe_line(f, a);
    assert(fa.manifest_stamps == f.manifest_stamps);
    assert(fa.build_stamp == f.build_stamp);
    let fb = observe_line(f, b);
    assert(observe_line(fb, a).manifest_stamps == fb.manifest_stamps);
    assert(observe_line(fb, a).build_stamp == fb.build_stamp);
}

} // verus!
