//! The finalized record of a downloaded job.
use vstd::prelude::*;
use crate::datetime::{clock_time, now_utc, UtcDateTime};

verus! {

/// Current metadata schema version.
pub const METADATA_VERSION: &'static str = "1.0.0";

/// Where the build id came from.
#[derive(Clone, Copy, Debug, PartialEq, Eq, Structural)]
pub enum BuildIdSource {
    /// The app-level build id.
    AppBuildid,
    /// The manifest id of the primary depot.
    PrimaryManifestId,
}

impl BuildIdSource {
    /// The tag the persisted record uses.
    pub fn tag(&self) -> (r: &'static str)
        ensures
            r@ == (match *self {
                BuildIdSource::AppBuildid => "app_buildid"@,
                BuildIdSource::PrimaryManifestId => "primary_manifest_id"@,
            }),
    {
        match self {
            BuildIdSource::AppBuildid => "app_buildid",
            BuildIdSource::PrimaryManifestId => "primary_manifest_id",
        }
    }
}

/// A single depot of a job.
pub struct DepotInfo {
    pub depot_id: String,
    pub depot_name: String,
    pub manifest_id: String,
    /// The manifest id actually used, when it differs and is known.
    pub manifest_id_used: Option<String>,
}

/// The record of a job, written once after a successful download.
pub struct JobMetadataFile {
    pub job_id: String,
    pub appid: String,
    pub branch: String,
    pub platform: String,
    pub primary_depot_id: String,
    pub game_name: String,
    pub build_id: String,
    pub build_id_source: BuildIdSource,
    pub build_datetime_utc: Option<UtcDateTime>,
    pub depots: Vec<DepotInfo>,
    pub appinfo_fetched_at: UtcDateTime,
    pub metadata_version: Option<String>,
}

impl JobMetadataFile {
    pub open spec fn wf(&self) -> bool {
        &&& self.appinfo_fetched_at.wf()
        &&& self.build_datetime_utc matches Some(t) ==> t.wf()
    }

    /// Makes the record; the fetch time is now by the system clock
    /// (1970-01-01T00:00:00Z when the clock reads earlier), the schema version
    /// the current one.
    pub fn new(
        job_id: String,
        appid: String,
        branch: String,
        platform: String,
        primary_depot_id: String,
        game_name: String,
        build_id: String,
        build_id_source: BuildIdSource,
        build_datetime_utc: Option<UtcDateTime>,
        depots: Vec<DepotInfo>,
    ) -> (r: Self)
        requires
            build_datetime_utc matches Some(t) ==> t.wf(),
        ensures
            r.wf(),
            r.job_id == job_id,
            r.appid == appid,
            r.branch == branch,
            r.platform == platform,
            r.primary_depot_id == primary_depot_id,
            r.game_name == game_name,
            r.build_id == build_id,
            r.build_id_source == build_id_source,
            r.build_datetime_utc == build_datetime_utc,
            r.depots == depots,
            r.metadata_version matches Some(v) && v@ == METADATA_VERSION@,
            exists|secs: Option<u64>| r.appinfo_fetched_at == clock_time(secs),
    {
        JobMetadataFile {
            job_id,
            appid,
            branch,
            platform,
            primary_depot_id,
            game_name,
            build_id,
            build_id_source,
            build_datetime_utc,
            depots,
            appinfo_fetched_at: now_utc(),
            metadata_version: Some(METADATA_VERSION.to_string()),
        }
    }
}

} // verus!
