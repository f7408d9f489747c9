use omnipacker::preflight::parse_preflight_output;

#[test]
fn test_parse_depot_manifest_line() {
    let lines = vec![
        "Depot 123456 - Manifest 9876543210987654321".to_string(),
        "Depot 123457 - Manifest 1234567890123456789".to_string(),
    ];

    let result = parse_preflight_output(&lines);
    assert_eq!(result.depots.len(), 2);
    assert_eq!(result.depots[0].depot_id, "123456");
    assert_eq!(result.depots[0].manifest_id, "9876543210987654321");
}

#[test]
fn test_parse_buildid() {
    let lines = vec![
        "Some info line".to_string(),
        "buildid = 18674832".to_string(),
        "More info".to_string(),
    ];

    let result = parse_preflight_output(&lines);
    assert_eq!(result.build_id, Some("18674832".to_string()));
}

#[test]
fn test_primary_depot_detection() {
    let lines = vec![
        "Depot 123456 - Manifest 111".to_string(),
        "Depot 123457 - Manifest 222".to_string(),
    ];

    let result = parse_preflight_output(&lines);
    assert_eq!(result.primary_depot_id, Some("123456".to_string()));
}

#[test]
fn test_primary_depot_timestamp_used() {
    let lines = vec![
        "Depot 123456 - Manifest 111".to_string(),
        "Manifest 222 (1/10/2024 1:00:00 PM)".to_string(),
        "Depot 123457 - Manifest 222".to_string(),
        "Manifest 111 (1/15/2024 10:30:45 AM)".to_string(),
    ];

    let result = parse_preflight_output(&lines);

    assert_eq!(result.primary_depot_id, Some("123456".to_string()));

    assert!(result.build_datetime_utc.is_some());
    let timestamp = result.build_datetime_utc.unwrap();

    assert_eq!(timestamp.month(), 1);
    assert_eq!(timestamp.day(), 15);
    assert_eq!(timestamp.year(), 2024);
    assert_eq!(timestamp.hour(), 10);
    assert_eq!(timestamp.minute(), 30);
    assert_eq!(timestamp.second(), 45);
}

#[test]
fn test_balatro_case_realistic() {
    let lines = vec![
        "Depot 228989 - Manifest 7206221393165260579".to_string(),
        "Manifest 7206221393165260579 (7/14/2025 11:02:36 PM)".to_string(),
        "Depot 2379781 - Manifest 4851806656204679952".to_string(),
        "Manifest 4851806656204679952 (2/24/2025 10:02:36 PM)".to_string(),
    ];

    let result = parse_preflight_output(&lines);

    assert_eq!(result.primary_depot_id, Some("2379781".to_string()));

    assert!(result.build_datetime_utc.is_some());
    let timestamp = result.build_datetime_utc.unwrap();

    assert_eq!(timestamp.month(), 2);
    assert_eq!(timestamp.day(), 24);
    assert_eq!(timestamp.year(), 2025);
    assert_eq!(timestamp.hour(), 22);
    assert_eq!(timestamp.minute(), 2);
    assert_eq!(timestamp.second(), 36);
}

#[test]
fn test_dotnet_datetime_parsing() {
    let lines = vec![
        "Depot 123456 - Manifest 111".to_string(),
        "Manifest 111 (12/5/2024 3:45:12 PM)".to_string(),
    ];

    let result = parse_preflight_output(&lines);
    assert!(result.build_datetime_utc.is_some());
    let timestamp = result.build_datetime_utc.unwrap();

    assert_eq!(timestamp.month(), 12);
    assert_eq!(timestamp.day(), 5);
    assert_eq!(timestamp.year(), 2024);
    assert_eq!(timestamp.hour(), 15);
    assert_eq!(timestamp.minute(), 45);
    assert_eq!(timestamp.second(), 12);
}

#[test]
fn test_installdir_determines_primary_depot() {
    let lines = vec![
        "Depot 123456 - Manifest 111".to_string(),
        "Depot 123457 - Manifest 222".to_string(),
        "installdir = Common\\GameName".to_string(),
        "Manifest 111 (1/10/2024 1:00:00 PM)".to_string(),
        "Manifest 222 (1/15/2024 10:30:45 AM)".to_string(),
    ];

    let result = parse_preflight_output(&lines);

    assert_eq!(result.primary_depot_id, Some("123457".to_string()));

    assert!(result.build_datetime_utc.is_some());
    let timestamp = result.build_datetime_utc.unwrap();

    assert_eq!(timestamp.month(), 1);
    assert_eq!(timestamp.day(), 15);
    assert_eq!(timestamp.year(), 2024);
}

#[test]
fn primary_skips_shared_depot_without_installdir() {
    let lines = vec![
        "Depot 228989 - Manifest 1".to_string(),
        "Depot 2379781 - Manifest 2".to_string(),
    ];
    let result = parse_preflight_output(&lines);
    assert_eq!(result.primary_depot_id, Some("2379781".to_string()));
}

#[test]
fn installdir_after_shared_mention_makes_it_primary() {
    let lines = vec![
        "Depot 228989 - Manifest 1".to_string(),
        "installdir = Steamworks".to_string(),
        "Depot 2379781 - Manifest 2".to_string(),
    ];
    let result = parse_preflight_output(&lines);
    assert_eq!(result.primary_depot_id, Some("228989".to_string()));
}

#[test]
fn all_shared_takes_first_by_number() {
    let lines = vec![
        "Depot 228990 - Manifest 1".to_string(),
        "Depot 228980 - Manifest 2".to_string(),
    ];
    let result = parse_preflight_output(&lines);
    assert_eq!(result.depots[0].depot_id, "228980");
    assert_eq!(result.primary_depot_id, Some("228980".to_string()));
}

#[test]
fn epoch_line_beats_earlier_manifest_time() {
    let lines = vec![
        "Depot 123456 - Manifest 111".to_string(),
        "Manifest 111 (1/15/2024 10:30:45 AM)".to_string(),
        "\"timeupdated\"  \"1700000000\"".to_string(),
    ];
    let result = parse_preflight_output(&lines);
    let t = result.build_datetime_utc.unwrap();
    // 1700000000 is 2023-11-14T22:13:20Z
    assert_eq!((t.year(), t.month(), t.day(), t.hour(), t.minute(), t.second()), (2023, 11, 14, 22, 13, 20));
}

#[test]
fn names_and_iso_times() {
    let lines = vec![
        "Depot 10 \"Game Content\"".to_string(),
        "Depot 20 - Manifest 7".to_string(),
        "\"name\"  \"Extra Content\"".to_string(),
        "manifest 7 (2024-03-01 08:09:10 UTC)".to_string(),
        "Depot 10 - Manifest 6".to_string(),
    ];
    let result = parse_preflight_output(&lines);
    assert_eq!(result.depots.len(), 2);
    assert_eq!(result.depots[0].depot_id, "10");
    assert_eq!(result.depots[0].depot_name, Some("Game Content".to_string()));
    assert_eq!(result.depots[1].depot_name, Some("Extra Content".to_string()));
    assert_eq!(result.primary_depot_id, Some("10".to_string()));
    assert_eq!(result.build_datetime_utc, None);
    assert_eq!(result.raw_output.len(), 5);
}

#[test]
fn loose_depot_and_manifest_mentions() {
    let lines = vec![
        "Downloading depot 555".to_string(),
        "Got manifest 999 for it".to_string(),
    ];
    let result = parse_preflight_output(&lines);
    assert_eq!(result.depots.len(), 1);
    assert_eq!(result.depots[0].depot_id, "555");
    assert_eq!(result.depots[0].manifest_id, "999");
}

#[test]
fn empty_run_yields_nothing() {
    let result = parse_preflight_output(&[]);
    assert!(result.depots.is_empty());
    assert_eq!(result.primary_depot_id, None);
    assert_eq!(result.build_id, None);
    assert_eq!(result.build_datetime_utc, None);
}

#[test]
fn installdir_on_a_depot_manifest_line() {
    let lines = vec![
        "Depot 228989 - Manifest 1 installdir = x".to_string(),
        "Depot 20 - Manifest 2".to_string(),
    ];
    let result = parse_preflight_output(&lines);
    assert_eq!(result.primary_depot_id, Some("228989".to_string()));
}

#[test]
fn name_and_pair_on_one_line() {
    let lines = vec!["Depot 5 \"Foo\" Depot 6 - Manifest 7".to_string()];
    let result = parse_preflight_output(&lines);
    assert_eq!(result.depots.len(), 1);
    assert_eq!(result.depots[0].depot_id, "6");
    assert_eq!(result.depots[0].manifest_id, "7");
}
