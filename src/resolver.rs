//! Turning a finished download into its job record: depots found in the staged
//! output, their names, the primary depot, the build id and the build timestamp.
use vstd::prelude::*;
use crate::assoc::{assoc_get, TextMap};
use crate::datetime::UtcDateTime;
use crate::depots::{depot_name_spec, get_depot_name};
use crate::job_metadata::{BuildIdSource, DepotInfo, JobMetadataFile};
use crate::job_state::{JobState, StreamFacts};
use crate::preflight::{first_unshared, pairs_view, sort_pairs};
use crate::request::{map_platform_for_output, platform_label, JobMetadata};
use crate::text::{chars_equal, chars_of, push_str_chars, string_of};

verus! {

/// The upper-case mapping of one character.
pub uninterp spec fn upper_of(c: char) -> Seq<char>;

/// Relies on `char::to_uppercase`: the mapping depends on the character alone,
/// and maps an ASCII lower-case letter to its upper-case letter.
#[verifier::external_body]
fn uppercase_char(c: char) -> (r: Vec<char>)
    ensures
        r@ == upper_of(c),
        'a' <= c <= 'z' ==> r@ == seq![((c as u8) - 32) as char],
{
    c.to_uppercase().collect()
}

/// `s` with its first character upper-cased.
pub open spec fn capitalized(s: Seq<char>) -> Seq<char> {
    if s.len() == 0 {
        s
    } else {
        upper_of(s[0]) + s.subrange(1, s.len() as int)
    }
}

/// Capitalizes the first letter of a string.
pub fn capitalize_first(s: &str) -> (r: String)
    ensures
        r@ == capitalized(s@),
{
    let v = chars_of(s);
    if v.len() == 0 {
        return String::new();
    }
    let mut out = uppercase_char(v[0]);
    let rest = crate::text::slice_chars(v.as_slice(), 1, v.len());
    crate::text::push_all(&mut out, rest.as_slice());
    string_of(&out)
}

/// The game name: the catalog lookup's, else `app_<id>`.
pub open spec fn game_name_spec(app_id: Seq<char>, lookup: Option<Seq<char>>) -> Seq<char> {
    match lookup {
        Some(n) => n,
        None => "app_"@ + app_id,
    }
}

/// The game name from the catalog lookup's outcome.
pub fn resolve_game_name(app_id: &str, lookup: Option<String>) -> (r: String)
    ensures
        r@ == game_name_spec(app_id@, crate::preflight::opt_string_view(lookup)),
{
    match lookup {
        Some(n) => n,
        None => {
            let mut out: Vec<char> = Vec::new();
            push_str_chars(&mut out, "app_");
            push_str_chars(&mut out, app_id);
            string_of(&out)
        },
    }
}

/// A depot directory of the staged output, with the name of its first
/// manifest directory when it has one.
pub struct ScannedDepot {
    pub depot_id: String,
    pub manifest_dir: Option<String>,
}

/// The (depot, manifest) pairs of the staged output, the tool's bookkeeping
/// directory and depots without a manifest directory left out.
pub open spec fn scanned_pairs(s: Seq<ScannedDepot>) -> Seq<(Seq<char>, Seq<char>)>
    decreases s.len(),
{
    if s.len() == 0 {
        seq![]
    } else {
        let prev = scanned_pairs(s.drop_last());
        let e = s.last();
        if e.depot_id@ != ".DepotDownloader"@ && e.manifest_dir is Some {
            prev.push((e.depot_id@, e.manifest_dir->0@))
        } else {
            prev
        }
    }
}

/// The depots of the staged output, sorted by numeric id.
pub open spec fn plan_pairs(s: Seq<ScannedDepot>) -> Seq<(Seq<char>, Seq<char>)> {
    sort_pairs(scanned_pairs(s))
}

/// The primary depot: the first non-shared depot by numeric id, else the first.
pub open spec fn plan_primary(t: Seq<(Seq<char>, Seq<char>)>) -> Seq<char> {
    if first_unshared(t, 0) is Some {
        first_unshared(t, 0)->0
    } else {
        t[0].0
    }
}

/// The name of a depot: a name learned from the tool's output, else the
/// naming rule.
pub open spec fn plan_name(
    names: Seq<(Seq<char>, Seq<char>)>,
    id: Seq<char>,
    primary: Seq<char>,
    game: Seq<char>,
) -> Seq<char> {
    match assoc_get(names, id) {
        Some(n) => n,
        None => depot_name_spec(id, id == primary, game),
    }
}

/// The depots, primary depot and build id of a finished download.
pub struct DepotPlan {
    pub depots: Vec<DepotInfo>,
    pub primary_depot_id: String,
    pub build_id: String,
}

impl DepotPlan {
    /// The plan for `scanned`, naming depots from `names` and `game`.
    pub open spec fn describes(
        &self,
        scanned: Seq<ScannedDepot>,
        names: Seq<(Seq<char>, Seq<char>)>,
        game: Seq<char>,
    ) -> bool {
        let t = plan_pairs(scanned);
        let p = plan_primary(t);
        &&& t.len() > 0
        &&& self.primary_depot_id@ == p
        &&& Some(self.build_id@) == assoc_get(t, p)
        &&& self.depots@.len() == t.len()
        &&& forall|i: int|
            0 <= i < t.len() ==> {
                &&& (#[trigger] self.depots@[i]).depot_id@ == t[i].0
                &&& self.depots@[i].manifest_id@ == t[i].1
                &&& self.depots@[i].depot_name@ == plan_name(names, t[i].0, p, game)
                &&& self.depots@[i].manifest_id_used is None
            }
    }
}

} // verus!

verus! {

fn scanned_pairs_exec(scanned: &[ScannedDepot]) -> (r: Vec<(Vec<char>, Vec<char>)>)
    ensures
        pairs_view(r@) == scanned_pairs(scanned@),
{
    let mut out: Vec<(Vec<char>, Vec<char>)> = Vec::new();
    let mut i: usize = 0;
    while i < scanned.len()
        invariant
            i <= scanned@.len(),
            pairs_view(out@) == scanned_pairs(scanned@.subrange(0, i as int)),
        decreases scanned@.len() - i,
    {
        assert(scanned@.subrange(0, i + 1).drop_last() =~= scanned@.subrange(0, i as int));
        let e = &scanned[i];
        if !crate::text::str_equal(e.depot_id.as_str(), ".DepotDownloader") {
            match &e.manifest_dir {
                Some(m) => {
                    let ghost before = pairs_view(out@);
                    out.push((chars_of(e.depot_id.as_str()), chars_of(m.as_str())));
                    assert(pairs_view(out@) =~= before.push((e.depot_id@, m@)));
                },
                None => {},
            }
        }
        i = i + 1;
    }
    assert(scanned@.subrange(0, scanned@.len() as int) =~= scanned@);
    out
}

/// Finds the depots of a finished download in its staged output, sorts them by
/// numeric id, picks the primary depot and its manifest id as build id, and
/// names each depot.
pub fn plan_depots(scanned: &[ScannedDepot], state: &JobState, game_name: &str) -> (r: Result<
    DepotPlan,
    String,
>)
    ensures
        r is Ok <==> scanned_pairs(scanned@).len() > 0,
        r matches Ok(p) ==> p.describes(scanned@, state.depot_names@, game_name@),
        r matches Err(e) ==> e@ == "No depots found in download"@,
{
    let unsorted = scanned_pairs_exec(scanned);
    if unsorted.len() == 0 {
        return Err("No depots found in download".to_string());
    }
    let sorted = crate::preflight::sort_into(&unsorted);
    let ghost t = plan_pairs(scanned@);
    assert(pairs_view(sorted@) == t);
    proof {
        crate::preflight::lemma_sort_len(scanned_pairs(scanned@));
    }
    let primary: Vec<char> = match crate::preflight::first_unshared_exec(&sorted) {
        Some(p) => p,
        None => sorted[0].0.clone(),
    };
    let ghost p = plan_primary(t);
    assert(primary@ == p);
    let lookup = TextMap { entries: sorted };
    assert(lookup@ =~= t);
    let build = match lookup.get(primary.as_slice()) {
        Some(m) => m,
        None => Vec::new(),
    };
    proof {
        if first_unshared(t, 0) is Some {
            crate::preflight::lemma_first_unshared_listed(t, 0);
            let i = choose|i: int| 0 <= i < t.len() && t[i].0 == first_unshared(t, 0)->0;
            crate::assoc::lemma_listed_key_found(t, p, i);
        } else {
            crate::assoc::lemma_listed_key_found(t, p, 0);
        }
    }
    let primary_s = string_of(&primary);
    let mut depots: Vec<DepotInfo> = Vec::new();
    let mut i: usize = 0;
    while i < lookup.entries.len()
        invariant
            i <= t.len(),
            lookup@ == t,
            lookup.entries@.len() == t.len(),
            primary@ == p,
            primary_s@ == p,
            depots@.len() == i,
            forall|k: int|
                0 <= k < i ==> {
                    &&& (#[trigger] depots@[k]).depot_id@ == t[k].0
                    &&& depots@[k].manifest_id@ == t[k].1
                    &&& depots@[k].depot_name@ == plan_name(state.depot_names@, t[k].0, p, game_name@)
                    &&& depots@[k].manifest_id_used is None
                },
        decreases t.len() - i,
    {
        let id = &lookup.entries[i].0;
        assert(id@ == t[i as int].0);
        let ids = string_of(id);
        let name = match state.depot_names.get(id.as_slice()) {
            Some(n) => string_of(&n),
            None => get_depot_name(ids.as_str(), chars_equal(id.as_slice(), primary.as_slice()), game_name),
        };
        depots.push(DepotInfo {
            depot_id: ids,
            depot_name: name,
            manifest_id: string_of(&lookup.entries[i].1),
            manifest_id_used: None,
        });
        i = i + 1;
    }
    Ok(DepotPlan { depots, primary_depot_id: primary_s, build_id: string_of(&build) })
}

} // verus!

verus! {

/// The build timestamp, first source that has one: the patch-notes feed, the
/// timestamp slot of the run, the primary depot's manifest time, the primary
/// depot's own time.
pub open spec fn resolved_stamp(
    remote: Option<UtcDateTime>,
    f: StreamFacts,
    primary: Seq<char>,
    primary_manifest: Seq<char>,
) -> Option<UtcDateTime> {
    if remote is Some {
        remote
    } else if f.build_stamp is Some {
        f.build_stamp
    } else if assoc_get(f.manifest_stamps, primary_manifest) is Some {
        assoc_get(f.manifest_stamps, primary_manifest)
    } else {
        assoc_get(f.depot_stamps, primary)
    }
}

/// Picks the build timestamp of a finished download.
pub fn resolve_build_stamp(remote: Option<UtcDateTime>, state: &JobState, primary: &str, primary_manifest: &str) -> (r: Option<UtcDateTime>)
    requires
        state.wf(),
        remote matches Some(t) ==> t.wf(),
    ensures
        r == resolved_stamp(remote, state.facts(), primary@, primary_manifest@),
        r matches Some(t) ==> t.wf(),
{
    if remote.is_some() {
        return remote;
    }
    if state.build_datetime_utc.is_some() {
        return state.build_datetime_utc;
    }
    let pm = chars_of(primary_manifest);
    let m = state.manifest_timestamps.get(pm.as_slice());
    if m.is_some() {
        return m;
    }
    let p = chars_of(primary);
    state.depot_timestamps.get(p.as_slice())
}

/// Builds the record of a finished download from its plan, the game name, the
/// patch-notes feed's timestamp (if it gave one) and the job's record.
pub fn resolve_job_metadata(
    job: &JobMetadata,
    job_id: &str,
    game_name: String,
    plan: DepotPlan,
    remote: Option<UtcDateTime>,
    state: &JobState,
) -> (r: JobMetadataFile)
    requires
        state.wf(),
        remote matches Some(t) ==> t.wf(),
    ensures
        r.wf(),
        r.job_id@ == job_id@,
        r.appid@ == job.app_id@,
        r.branch@ == capitalized(job.branch@),
        r.platform@ == platform_label(job.os@),
        r.primary_depot_id == plan.primary_depot_id,
        r.game_name == game_name,
        r.build_id == plan.build_id,
        r.build_id_source == BuildIdSource::PrimaryManifestId,
        r.build_datetime_utc == resolved_stamp(
            remote,
            state.facts(),
            plan.primary_depot_id@,
            plan.build_id@,
        ),
        r.depots == plan.depots,
{
    let stamp = resolve_build_stamp(remote, state, plan.primary_depot_id.as_str(), plan.build_id.as_str());
    JobMetadataFile::new(
        job_id.to_string(),
        job.app_id.clone(),
        capitalize_first(job.branch.as_str()),
        map_platform_for_output(job.os.as_str()),
        plan.primary_depot_id,
        game_name,
        plan.build_id,
        BuildIdSource::PrimaryManifestId,
        stamp,
        plan.depots,
    )
}

/// Timestamp priority: without a feed timestamp, a timestamp the run's epoch
/// fields put in the slot is the one recorded, whatever manifest times were seen.
pub proof fn lemma_slot_beats_manifest_times(
    f: StreamFacts,
    primary: Seq<char>,
    primary_manifest: Seq<char>,
)
    requires
        f.build_stamp is Some,
    ensures
        resolved_stamp(None, f, primary, primary_manifest) == f.build_stamp,
{
}

} // verus!

verus! {

/// The name of a depot's content directory in the output: its recorded name,
/// else `depot_<id>`.
pub open spec fn content_dir_spec(depots: Seq<DepotInfo>, id: Seq<char>) -> Seq<char>
    decreases depots.len(),
{
    if depots.len() == 0 {
        "depot_"@ + id
    } else if depots[0].depot_id@ == id {
        depots[0].depot_name@
    } else {
        content_dir_spec(depots.subrange(1, depots.len() as int), id)
    }
}

/// The name of a depot's content directory in the output.
pub fn content_dir_name(metadata: &JobMetadataFile, depot_id: &str) -> (r: String)
    ensures
        r@ == content_dir_spec(metadata.depots@, depot_id@),
{
    let mut i: usize = 0;
    assert(metadata.depots@.subrange(0, metadata.depots@.len() as int) =~= metadata.depots@);
    while i < metadata.depots.len()
        invariant
            i <= metadata.depots@.len(),
            content_dir_spec(metadata.depots@.subrange(i as int, metadata.depots@.len() as int), depot_id@)
                == content_dir_spec(metadata.depots@, depot_id@),
        decreases metadata.depots@.len() - i,
    {
        let ghost rest = metadata.depots@.subrange(i as int, metadata.depots@.len() as int);
        assert(rest[0] == metadata.depots@[i as int]);
        if crate::text::str_equal(metadata.depots[i].depot_id.as_str(), depot_id) {
            return metadata.depots[i].depot_name.clone();
        }
        assert(rest.subrange(1, rest.len() as int) =~= metadata.depots@.subrange(i + 1, metadata.depots@.len() as int));
        i = i + 1;
    }
    assert(metadata.depots@.subrange(i as int, metadata.depots@.len() as int).len() == 0);
    let mut out: Vec<char> = Vec::new();
    push_str_chars(&mut out, "depot_");
    push_str_chars(&mut out, depot_id);
    string_of(&out)
}

} // verus!
