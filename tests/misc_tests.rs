use omnipacker::auth::{is_auth_config_file, is_auth_root_file, remembered_username, sanitize_auth_username};
use omnipacker::conflict::{parse_conflict_choice, OutputConflictChoice, OutputConflictState};
use omnipacker::console::{debug_console_from_args, escape_desktop_exec, DebugConsoleState};
use omnipacker::finalize::{resolve_copy_output_path, FinalizeAction, FinalizeEvent, FinalizeStage, Finalizer};
use omnipacker::login::{decode_hex, decrypt_payload, encode_hex, encrypt_payload, xor_bytes};
use omnipacker::runner::{exit_succeeded, steam_guard_input, JobStatus};
use omnipacker::stream::{LineSplitter, EMAIL_PROMPT};
use omnipacker::zip::{calculate_7z_compression_args, extract_percent, is_progress_line, redact_7z_password_args, ArchiverEvent, ArchiverReader, MachineLoad};

#[test]
fn copy_name_skips_taken_names() {
    let existing = vec!["Game".to_string(), "Game (1)".to_string()];
    assert_eq!(resolve_copy_output_path("Game", &existing, false), Ok("Game (2)".to_string()));
    let existing = vec!["Game".to_string(), "Game (1).7z".to_string()];
    assert_eq!(resolve_copy_output_path("Game", &existing, true), Ok("Game (2)".to_string()));
    assert_eq!(resolve_copy_output_path("Game", &existing, false), Ok("Game (1)".to_string()));
}

#[test]
fn finalizer_overwrite_removes_only_after_build() {
    let mut f = Finalizer::new();
    assert_eq!(f.step(FinalizeEvent::StagingChecked(true)), FinalizeAction::CheckConflict);
    assert_eq!(f.step(FinalizeEvent::ConflictChecked(true)), FinalizeAction::AskChoice);
    assert_eq!(f.step(FinalizeEvent::Chosen(OutputConflictChoice::Overwrite)), FinalizeAction::BuildInTemp);
    assert_eq!(f.step(FinalizeEvent::Built(true)), FinalizeAction::RemoveExisting);
    assert_eq!(f.step(FinalizeEvent::Removed(true)), FinalizeAction::Promote);
    assert_eq!(f.step(FinalizeEvent::Promoted(true)), FinalizeAction::Finish);
    assert_eq!(f.stage, FinalizeStage::Done);
}

#[test]
fn finalizer_failed_build_cleans_up() {
    let mut f = Finalizer::new();
    f.step(FinalizeEvent::StagingChecked(true));
    f.step(FinalizeEvent::ConflictChecked(true));
    f.step(FinalizeEvent::Chosen(OutputConflictChoice::Overwrite));
    assert_eq!(f.step(FinalizeEvent::Built(false)), FinalizeAction::CleanupTempAndFail);
    assert_eq!(f.step(FinalizeEvent::Removed(true)), FinalizeAction::Ignore);
    assert_eq!(f.stage, FinalizeStage::Failed);
}

#[test]
fn finalizer_cancel_and_missing_staging() {
    let mut f = Finalizer::new();
    f.step(FinalizeEvent::StagingChecked(true));
    f.step(FinalizeEvent::ConflictChecked(true));
    assert_eq!(f.step(FinalizeEvent::Chosen(OutputConflictChoice::Cancel)), FinalizeAction::Cancelled);
    let mut g = Finalizer::new();
    assert_eq!(g.step(FinalizeEvent::StagingChecked(false)), FinalizeAction::Fail);
}

#[test]
fn conflict_registry_refuses_second_question() {
    let mut s = OutputConflictState::new();
    assert!(s.register("job").is_ok());
    assert_eq!(s.register("job"), Err("Output conflict resolution already pending".to_string()));
    assert!(s.take("job"));
    assert!(!s.take("job"));
    assert_eq!(parse_conflict_choice("copy"), Some(OutputConflictChoice::Copy));
    assert_eq!(parse_conflict_choice("Copy"), None);
}

#[test]
fn login_payload_round_trip() {
    let sealed = encrypt_payload("{\"username\":\"a\",\"password\":\"b\"}");
    assert!(sealed.starts_with("OP1:"));
    assert_eq!(decrypt_payload(&format!("  {}\n", sealed)), Ok("{\"username\":\"a\",\"password\":\"b\"}".to_string()));
    assert_eq!(encode_hex(&[0u8, 15, 255]), "000fff");
    assert_eq!(decode_hex("000fFF"), Ok(vec![0u8, 15, 255]));
    assert_eq!(decode_hex("abc"), Err("Invalid hex payload length.".to_string()));
    assert!(decode_hex("zz").is_err());
    assert_eq!(xor_bytes(b"o"), vec![0u8]);
    assert!(decrypt_payload("XX:00").is_err());
    assert!(decrypt_payload(&format!("OP1:{}", encode_hex(&xor_bytes(&[0xffu8])))).is_err());
}

#[test]
fn auth_file_names() {
    assert!(is_auth_root_file("ssfn12345"));
    assert!(is_auth_root_file("Config.JSON"));
    assert!(!is_auth_root_file("config.vdf"));
    assert!(is_auth_config_file("config.vdf"));
    assert!(!is_auth_config_file("ssfn1"));
    assert_eq!(sanitize_auth_username("  a b@c "), "a_b_c");
    assert_eq!(sanitize_auth_username("___"), "user");
    assert_eq!(sanitize_auth_username("Bob.Smith-1"), "Bob.Smith-1");
    assert_eq!(remembered_username("x -username bob -remember-password"), Some("bob".to_string()));
    assert_eq!(remembered_username("x -username bob"), None);
}

#[test]
fn archiver_helpers() {
    let args = vec!["a".to_string(), "-psecret".to_string(), "out.7z".to_string()];
    assert_eq!(redact_7z_password_args(&args), vec!["a", "-p********", "out.7z"]);
    assert_eq!(extract_percent("  45% 12 - file"), Some(45));
    assert_eq!(extract_percent("300% then 7%"), Some(7));
    assert_eq!(extract_percent("300%"), None);
    assert_eq!(extract_percent("no percent"), None);
    assert!(is_progress_line(" 42% "));
    assert!(is_progress_line("100%%"));
    assert!(!is_progress_line("256%"));
    assert!(!is_progress_line("%"));
    assert!(!is_progress_line("4x%"));
}

#[test]
fn compression_arguments_follow_load() {
    let load = MachineLoad { cpu_cores: 8, cpu_usage_percent: 10, total_memory_kib: 16 * 1024 * 1024, available_memory_kib: 12 * 1024 * 1024 };
    let args = calculate_7z_compression_args("/src", "/out.7z", Some("pw"), &load);
    assert_eq!(args, vec!["a", "-t7z", "-mx9", "-mmt4", "-md=256m", "-bsp1", "-ppw", "/out.7z", "/src"]);
    let tight = MachineLoad { cpu_cores: 1, cpu_usage_percent: 95, total_memory_kib: 2 * 1024 * 1024, available_memory_kib: 512 * 1024 };
    let args = calculate_7z_compression_args("/src", "/out.7z", Some(""), &tight);
    assert_eq!(args, vec!["a", "-t7z", "-mx9", "-mmt1", "-md=8m", "-bsp1", "/out.7z", "/src"]);
}

#[test]
fn line_splitter_cuts_and_flushes_prompt() {
    let mut s = LineSplitter::new();
    assert_eq!(s.feed(b"one\r\ntw"), vec![b"one".to_vec()]);
    assert_eq!(s.feed(b"o\n"), vec![b"two".to_vec()]);
    let prompt = format!("{} a@b.c:", EMAIL_PROMPT);
    assert_eq!(s.feed(prompt.as_bytes()), vec![prompt.as_bytes().to_vec()]);
    assert!(s.prompt_emitted);
    assert_eq!(s.feed(prompt.as_bytes()), Vec::<Vec<u8>>::new());
    assert_eq!(s.finish(), Some(prompt.as_bytes().to_vec()));
    assert_eq!(s.finish(), None);
    let mut t = LineSplitter::new();
    assert_eq!(t.feed_text(b"ok \xff\nnext"), vec!["ok \u{FFFD}".to_string()]);
    assert_eq!(t.finish_text(), Some("next".to_string()));
}

#[test]
fn console_and_desktop_entries() {
    assert!(DebugConsoleState::new(true).enabled());
    assert!(debug_console_from_args(&["app".to_string(), "--debug".to_string()]));
    assert!(!debug_console_from_args(&["app".to_string()]));
    assert_eq!(escape_desktop_exec("/opt/app/run"), "/opt/app/run");
    assert_eq!(escape_desktop_exec("/opt/my app/50%"), "\"/opt/my app/50%%\"");
    assert_eq!(escape_desktop_exec("/a\\b \"c\""), "\"/a\\\\b \\\"c\\\"\"");
}

#[test]
fn run_protocol_decisions() {
    assert_eq!(steam_guard_input("  12345 "), Ok("12345\n".to_string()));
    assert_eq!(steam_guard_input("   "), Err("Steam Guard code is empty".to_string()));
    assert!(exit_succeeded(Some(0)));
    assert!(!exit_succeeded(Some(2)));
    assert!(!exit_succeeded(None));
    assert_eq!(JobStatus::FinalizationFailed.name(), "finalization_failed");
}

#[test]
fn test_generate_job_id_format() {
    let job_id = omnipacker::job_id::generate_job_id(0x1234_5678_9abc);

    assert!(job_id.contains('_'), "Job ID should contain underscore");

    let parts: Vec<&str> = job_id.split('_').collect();
    assert_eq!(parts.len(), 2, "Job ID should have timestamp and unique parts");

    assert_eq!(parts[0].len(), 20, "Timestamp should be 20 characters");

    assert_eq!(parts[1].len(), 6, "Unique ID should be 6 characters");
}

#[test]
fn job_id_exact_form() {
    let t = omnipacker::datetime::UtcDateTime::from_ymd_hms(2026, 1, 5, 11, 30, 2).unwrap();
    assert_eq!(omnipacker::job_id::job_id_from(&t, 0), "2026-01-05T11-30-02Z_000000");
    assert_eq!(omnipacker::job_id::job_id_from(&t, 35 + 36), "2026-01-05T11-30-02Z_z10000");
}

#[test]
fn platform_dirs_and_modes() {
    assert_eq!(omnipacker::runner::get_platform_subdir("linux", "x86_64"), "linux-x64");
    assert_eq!(omnipacker::runner::get_platform_subdir("freebsd", "x86_64"), "unknown");
    assert!(omnipacker::runner::is_executable(0o755));
    assert!(!omnipacker::runner::is_executable(0o644));
}

#[test]
fn dates_reject_impossible_days() {
    assert!(omnipacker::datetime::UtcDateTime::from_ymd_hms(2023, 2, 29, 0, 0, 0).is_none());
    assert!(omnipacker::datetime::UtcDateTime::from_ymd_hms(2024, 2, 29, 23, 59, 59).is_some());
    assert!(omnipacker::datetime::UtcDateTime::from_ymd_hms(2024, 1, 1, 24, 0, 0).is_none());
    let t = omnipacker::datetime::UtcDateTime::from_timestamp(0).unwrap();
    assert_eq!((t.year(), t.month(), t.day()), (1970, 1, 1));
}

#[test]
fn archiver_output_reader() {
    let mut r = ArchiverReader::new();
    let events = r.feed("Scanning\r\n  5%\r 12% 3 + file\rdone\n");
    let seen: Vec<String> = events
        .into_iter()
        .map(|e| match e {
            ArchiverEvent::Line(l) => format!("line:{}", l),
            ArchiverEvent::Progress(p) => format!("progress:{}", p),
        })
        .collect();
    assert_eq!(
        seen,
        vec!["line:Scanning", "progress:5", "progress:12", "line: 12% 3 + file", "line:done"]
    );
    let events = r.feed("ab\u{8}c");
    assert!(events.is_empty());
    assert_eq!(r.finish(), Some("ac".to_string()));
    assert_eq!(r.finish(), None);
}

#[test]
fn console_codepage_order() {
    assert_eq!(omnipacker::stream::codepage_candidates(65001, 850), vec![65001u16, 850, 437, 1252]);
    assert_eq!(omnipacker::stream::codepage_candidates(0, 437), vec![437u16, 850, 1252]);
    assert_eq!(omnipacker::stream::codepage_candidates(1252, 1252), vec![1252u16, 437, 850]);
}

#[test]
fn clock_readings_become_dates() {
    let start = omnipacker::datetime::utc_from_clock(None);
    assert_eq!((start.year(), start.month(), start.day(), start.hour()), (1970, 1, 1, 0));
    let t = omnipacker::datetime::utc_from_clock(Some(1_700_000_000));
    assert_eq!((t.year(), t.month(), t.day(), t.hour(), t.minute(), t.second()), (2023, 11, 14, 22, 13, 20));
    let far = omnipacker::datetime::utc_from_clock(Some(u64::MAX));
    assert_eq!(far.year(), 1970);
}
