use omnipacker::datetime::UtcDateTime;
use omnipacker::job_metadata::BuildIdSource;
use omnipacker::job_state::{JobState, OutputStream};
use omnipacker::preflight::parse_preflight_output;
use omnipacker::request::{build_depot_args, build_preflight_args, map_os_selection, map_platform_for_output, JobMetadata};
use omnipacker::resolver::{capitalize_first, plan_depots, resolve_build_stamp, resolve_game_name, resolve_job_metadata, ScannedDepot};
use omnipacker::acf::{generate_acf_content, DepotSizes, ManifestMap};

fn request(os: &str, username: &str, password: &str, qr: bool) -> JobMetadata {
    JobMetadata {
        app_id: "47410".to_string(),
        os: os.to_string(),
        branch: "public".to_string(),
        username: username.to_string(),
        password: password.to_string(),
        qr_enabled: qr,
        remember_password: false,
        skip_compression: false,
        compression_password_enabled: false,
        compression_password: String::new(),
    }
}

#[test]
fn anonymous_linux_arguments() {
    let args = build_depot_args(&request("Linux", "", "", false)).unwrap();
    assert_eq!(args, vec!["-app", "47410", "-branch", "public", "-os", "linux", "-osarch", "64"]);
}

#[test]
fn interactive_code_wins_over_user_name() {
    let args = build_depot_args(&request("Windows x86", "alice", "pw", true)).unwrap();
    assert_eq!(args, vec!["-app", "47410", "-branch", "public", "-os", "windows", "-osarch", "32", "-qr"]);
    assert!(!args.iter().any(|a| a == "-username"));
}

#[test]
fn user_name_and_password_arguments() {
    let args = build_preflight_args(&request("macOS arm64", "alice", "pw", false)).unwrap();
    assert_eq!(
        args,
        vec!["-app", "47410", "-branch", "public", "-os", "macos", "-osarch", "arm64", "-username", "alice", "-password", "pw", "-remember-password"]
    );
    assert!(!args.iter().any(|a| a == "-qr"));
}

#[test]
fn unknown_selector_and_sentinel_app_id() {
    let mut job = request("BeOS", "bob", "", false);
    job.app_id = "unknown".to_string();
    job.branch = String::new();
    let args = build_depot_args(&job).unwrap();
    assert_eq!(args, vec!["-os", "windows", "-osarch", "64", "-username", "bob", "-remember-password"]);
    assert_eq!(map_os_selection("macOS"), ("macos", "64"));
    assert_eq!(map_platform_for_output("Linux"), "Linux64");
    assert_eq!(map_platform_for_output("BeOS"), "Win64");
}

fn started(id: &str) -> JobState {
    let mut s = JobState::new();
    s.begin(id.to_string());
    s
}

#[test]
fn reader_order_does_not_change_manifest_time() {
    let a = "Depot 10 - Manifest 20";
    let b = "Manifest 20 (1/15/2024 10:30:45 AM)";
    let mut s1 = started("job");
    s1.observe(a, "job", OutputStream::Stdout);
    s1.observe(b, "job", OutputStream::Stderr);
    let mut s2 = started("job");
    s2.observe(b, "job", OutputStream::Stderr);
    s2.observe(a, "job", OutputStream::Stdout);
    let expected = UtcDateTime::from_ymd_hms(2024, 1, 15, 10, 30, 45).unwrap();
    assert_eq!(resolve_build_stamp(None, &s1, "10", "20"), Some(expected));
    assert_eq!(resolve_build_stamp(None, &s2, "10", "20"), Some(expected));
}

#[test]
fn time_updated_slot_beats_manifest_time() {
    let mut s = started("job");
    s.observe("Depot 10 - Manifest 20", "job", OutputStream::Stdout);
    s.observe("Manifest 20 (1/15/2024 10:30:45 AM)", "job", OutputStream::Stdout);
    s.observe("timeupdated 1700000000", "job", OutputStream::Stdout);
    s.observe("Manifest 20 (2/15/2024 10:30:45 AM)", "job", OutputStream::Stdout);
    let t = resolve_build_stamp(None, &s, "10", "20").unwrap();
    assert_eq!(t.timestamp(), 1700000000);
}

#[test]
fn feed_timestamp_comes_first() {
    let mut s = started("job");
    s.observe("timeupdated 1700000000", "job", OutputStream::Stdout);
    let remote = UtcDateTime::from_ymd_hms(2025, 2, 24, 22, 2, 36).unwrap();
    assert_eq!(resolve_build_stamp(Some(remote), &s, "10", "20"), Some(remote));
}

#[test]
fn other_jobs_lines_are_ignored() {
    let mut s = started("job");
    s.observe("Depot 10 \"Name\"", "other", OutputStream::Stdout);
    assert_eq!(s.depot_names.entries.len(), 0);
    s.observe("Depot 10 \"Name\"", "job", OutputStream::Stdout);
    assert_eq!(s.depot_names.entries.len(), 1);
    s.finish("job");
    assert!(s.job_id.is_none());
    assert_eq!(s.depot_names.entries.len(), 0);
}

#[test]
fn remembered_user_and_request_user() {
    let mut s = started("job");
    s.record_request_user("  alice ", "job");
    assert_eq!(s.auth_user_for("  alice ", "job"), Some("alice".to_string()));
    s.note_remembered_user("Running: dd -username bob -password x -remember-password", "job");
    assert_eq!(s.auth_user_for("alice", "job"), Some("bob".to_string()));
    assert_eq!(s.auth_user_for(" carol ", "other"), Some("carol".to_string()));
    assert_eq!(s.auth_user_for("   ", "other"), None);
}

#[test]
fn end_to_end_anonymous_linux_job() {
    let job = request("Linux", "", "", false);
    let preflight = parse_preflight_output(&[
        "Depot 228989 - Manifest 7206221393165260579".to_string(),
        "Depot 47411 - Manifest 6777399203159127119".to_string(),
    ]);
    assert_eq!(preflight.primary_depot_id, Some("47411".to_string()));

    let mut state = started("job-1");
    state.seed_from_preflight(&preflight, "job-1");
    let scanned = vec![
        ScannedDepot { depot_id: "228989".to_string(), manifest_dir: Some("7206221393165260579".to_string()) },
        ScannedDepot { depot_id: ".DepotDownloader".to_string(), manifest_dir: Some("x".to_string()) },
        ScannedDepot { depot_id: "47411".to_string(), manifest_dir: Some("6777399203159127119".to_string()) },
    ];
    let game = resolve_game_name("47410", Some("Test Game".to_string()));
    let plan = plan_depots(&scanned, &state, &game).unwrap();
    let record = resolve_job_metadata(&job, "job-1", game, plan, None, &state);
    assert_eq!(record.primary_depot_id, "47411");
    assert_eq!(record.build_id, "6777399203159127119");
    assert_eq!(record.build_id_source, BuildIdSource::PrimaryManifestId);
    assert_eq!(record.branch, "Public");
    assert_eq!(record.platform, "Linux64");
    let ids: Vec<&str> = record.depots.iter().map(|d| d.depot_id.as_str()).collect();
    assert_eq!(ids, vec!["47411", "228989"]);
    assert_eq!(record.depots[0].depot_name, "Test Game");
    assert_eq!(record.depots[1].depot_name, "Steamworks Shared");

    let acf = generate_acf_content(&record, "Test.Game", &ManifestMap::new(), &DepotSizes::new(), 0, 0);
    let installed_start = acf.find("\"InstalledDepots\"").unwrap();
    let shared_start = acf.find("\"SharedDepots\"").unwrap();
    let mounted_start = acf.find("\"MountedDepots\"").unwrap();
    let installed = &acf[installed_start..shared_start];
    let shared = &acf[shared_start..mounted_start];
    let mounted = &acf[mounted_start..];
    assert!(installed.contains("\"47411\""));
    assert!(!installed.contains("228989"));
    assert!(shared.contains("\"228989\"\t\t\"228980\""));
    assert!(mounted.contains("\"228989\"\t\t\"7206221393165260579\""));
    assert!(mounted.contains("\"47411\"\t\t\"6777399203159127119\""));
}

#[test]
fn no_depots_is_an_error() {
    let state = started("j");
    let scanned = vec![ScannedDepot { depot_id: "10".to_string(), manifest_dir: None }];
    let r = plan_depots(&scanned, &state, "G");
    assert_eq!(r.err(), Some("No depots found in download".to_string()));
}

#[test]
fn fallback_game_name_and_capitals() {
    assert_eq!(resolve_game_name("47410", None), "app_47410");
    assert_eq!(capitalize_first("beta"), "Beta");
    assert_eq!(capitalize_first("ßeta"), "SSeta");
    assert_eq!(capitalize_first(""), "");
}

#[test]
fn run_derives_only_after_readers_joined_on_success() {
    let job = request("Linux", "", "", false);
    let mut run = omnipacker::runner::JobRun::new(&job);
    assert_eq!(run.step(omnipacker::runner::RunEvent::StagingCreated(true)), omnipacker::runner::RunAction::RunPreflight);
    assert_eq!(run.step(omnipacker::runner::RunEvent::PreflightFinished(true)), omnipacker::runner::RunAction::Spawn);
    assert_eq!(run.step(omnipacker::runner::RunEvent::Spawned(true)), omnipacker::runner::RunAction::WaitExit);
    assert_eq!(run.step(omnipacker::runner::RunEvent::Exited(Some(0))), omnipacker::runner::RunAction::JoinReaders);
    assert_eq!(run.step(omnipacker::runner::RunEvent::MetadataDerived(true)), omnipacker::runner::RunAction::Ignore);
    assert_eq!(run.step(omnipacker::runner::RunEvent::ReadersJoined), omnipacker::runner::RunAction::PersistAuthAndDerive);
    assert_eq!(run.step(omnipacker::runner::RunEvent::MetadataDerived(true)), omnipacker::runner::RunAction::Finalize);
    assert_eq!(run.step(omnipacker::runner::RunEvent::Finalized(true)), omnipacker::runner::RunAction::Compress);
    assert_eq!(
        run.step(omnipacker::runner::RunEvent::Compressed(false)),
        omnipacker::runner::RunAction::Finish(omnipacker::runner::JobStatus::Completed, Some(0))
    );
    assert_eq!(run.step(omnipacker::runner::RunEvent::Cancelled(None)), omnipacker::runner::RunAction::Ignore);
}

#[test]
fn run_failure_and_cancel_paths() {
    let mut qr = request("Linux", "", "", true);
    qr.skip_compression = true;
    let mut run = omnipacker::runner::JobRun::new(&qr);
    assert_eq!(run.step(omnipacker::runner::RunEvent::StagingCreated(true)), omnipacker::runner::RunAction::Spawn);
    run.step(omnipacker::runner::RunEvent::Spawned(true));
    run.step(omnipacker::runner::RunEvent::Exited(Some(3)));
    assert_eq!(
        run.step(omnipacker::runner::RunEvent::ReadersJoined),
        omnipacker::runner::RunAction::PersistAuthAndFinish(omnipacker::runner::JobStatus::Exited, Some(3))
    );
    let mut other = omnipacker::runner::JobRun::new(&qr);
    other.step(omnipacker::runner::RunEvent::StagingCreated(true));
    assert_eq!(
        other.step(omnipacker::runner::RunEvent::Cancelled(Some(137))),
        omnipacker::runner::RunAction::Finish(omnipacker::runner::JobStatus::Exited, Some(137))
    );
}

#[test]
fn first_time_updated_value_wins() {
    let mut s = started("job");
    s.observe("timeupdated 1700000000", "job", OutputStream::Stdout);
    s.observe("timeupdated 1800000000", "job", OutputStream::Stdout);
    assert_eq!(resolve_build_stamp(None, &s, "10", "20").unwrap().timestamp(), 1700000000);
}

#[test]
fn one_line_may_trigger_several_rules() {
    let mut s = started("job");
    s.observe("Depot 10 - Manifest 20 timeupdated 1700000000", "job", OutputStream::Stdout);
    assert_eq!(resolve_build_stamp(None, &s, "10", "20").unwrap().timestamp(), 1700000000);
    assert_eq!(s.manifest_to_depot.entries.len(), 1);
}

#[test]
fn each_stream_keeps_its_own_depot_cursor() {
    let mut s = started("job");
    s.observe("Depot 10 - Manifest 1", "job", OutputStream::Stdout);
    s.observe("Depot 20 - Manifest 2", "job", OutputStream::Stderr);
    s.observe("\"name\"  \"Ten\"", "job", OutputStream::Stdout);
    s.observe("\"name\"  \"Twenty\"", "job", OutputStream::Stderr);
    let scanned = vec![
        ScannedDepot { depot_id: "10".to_string(), manifest_dir: Some("1".to_string()) },
        ScannedDepot { depot_id: "20".to_string(), manifest_dir: Some("2".to_string()) },
    ];
    let plan = plan_depots(&scanned, &s, "Game").unwrap();
    assert_eq!(plan.depots[0].depot_name, "Ten");
    assert_eq!(plan.depots[1].depot_name, "Twenty");
}
