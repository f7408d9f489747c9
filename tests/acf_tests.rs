use omnipacker::acf::{generate_acf_content, DepotSizes, ManifestMap};
use omnipacker::datetime::UtcDateTime;
use omnipacker::job_metadata::{BuildIdSource, DepotInfo, JobMetadataFile};
use omnipacker::vdf::VdfBuilder;

fn create_test_metadata() -> JobMetadataFile {
    JobMetadataFile::new(
        "test-job-id".to_string(),
        "47410".to_string(),
        "public".to_string(),
        "Linux64".to_string(),
        "47411".to_string(),
        "Test Game".to_string(),
        "3354190".to_string(),
        BuildIdSource::AppBuildid,
        Some(UtcDateTime::from_ymd_hms(2024, 1, 15, 10, 30, 45).unwrap()),
        vec![DepotInfo {
            depot_id: "47411".to_string(),
            depot_name: "Test Game Content".to_string(),
            manifest_id: "6777399203159127119".to_string(),
            manifest_id_used: None,
        }],
    )
}

fn content_for(metadata: &JobMetadataFile, manifest_map: &ManifestMap) -> String {
    generate_acf_content(metadata, "Test Game", manifest_map, &DepotSizes::new(), 0, 0)
}

#[test]
fn test_vdf_builder_key_value() {
    let mut vdf = VdfBuilder::new();
    vdf.key_value("appid", "12345");
    assert_eq!(vdf.build(), "\"appid\"\t\t\"12345\"\n");
}

#[test]
fn test_vdf_builder_section() {
    let mut vdf = VdfBuilder::new();
    vdf.open_section("AppState");
    vdf.key_value("appid", "12345");
    vdf.close_section();

    let result = vdf.build();
    assert!(result.contains("\"AppState\"\n"));
    assert!(result.contains("{\n"));
    assert!(result.contains("\t\"appid\"\t\t\"12345\"\n"));
    assert!(result.contains("}\n"));
}

#[test]
fn test_generate_acf_content_has_required_fields() {
    let metadata = create_test_metadata();
    let manifest_map = ManifestMap::new();
    let content = content_for(&metadata, &manifest_map);

    assert!(content.contains("\"appid\"\t\t\"47410\""));
    assert!(content.contains("\"universe\"\t\t\"1\""));
    assert!(content.contains("\"name\"\t\t\"Test Game\""));
    assert!(content.contains("\"StateFlags\"\t\t\"4\""));
    assert!(content.contains("\"buildid\"\t\t\"3354190\""));
    assert!(content.contains("\"LastOwner\"\t\t\"0\""));
}

#[test]
fn test_generate_acf_content_has_depots() {
    let metadata = create_test_metadata();
    let manifest_map = ManifestMap::new();
    let content = content_for(&metadata, &manifest_map);

    assert!(content.contains("\"InstalledDepots\""));
    assert!(content.contains("\"47411\""));
    assert!(content.contains("\"manifest\"\t\t\"6777399203159127119\""));
    assert!(content.contains("\"MountedDepots\""));
}

#[test]
fn test_last_owner_always_zero() {
    let metadata = create_test_metadata();
    let manifest_map = ManifestMap::new();
    let content = content_for(&metadata, &manifest_map);

    assert!(
        content.contains("\"LastOwner\"\t\t\"0\""),
        "PRIVACY VIOLATION: LastOwner must be \"0\" to prevent deanonymization"
    );
}

#[test]
fn test_manifest_map_overrides_metadata() {
    let metadata = create_test_metadata();
    let mut manifest_map = ManifestMap::new();
    manifest_map.insert("47411", "1234567890123456789");

    let content = content_for(&metadata, &manifest_map);

    assert!(content.contains("\"manifest\"\t\t\"1234567890123456789\""));
    assert!(!content.contains("\"manifest\"\t\t\"6777399203159127119\""));
}

#[test]
fn acf_last_updated_is_build_epoch() {
    let metadata = create_test_metadata();
    let content = content_for(&metadata, &ManifestMap::new());
    // 2024-01-15T10:30:45Z
    assert!(content.contains("\"LastUpdated\"\t\t\"1705314645\""));
}

#[test]
fn acf_last_updated_falls_back_without_build_date() {
    let mut metadata = create_test_metadata();
    metadata.build_datetime_utc = None;
    let content = generate_acf_content(&metadata, "Test Game", &ManifestMap::new(), &DepotSizes::new(), 0, 42);
    assert!(content.contains("\"LastUpdated\"\t\t\"42\""));
}

#[test]
fn acf_owner_sentinel_with_identity_like_inputs() {
    let mut metadata = create_test_metadata();
    metadata.game_name = "76561198000000000".to_string();
    metadata.appid = "LastOwner".to_string();
    let content = content_for(&metadata, &ManifestMap::new());
    assert!(content.contains("\t\"LastOwner\"\t\t\"0\"\n"));
    assert!(!content.contains("\"LastOwner\"\t\t\"76561198000000000\""));
}

#[test]
fn acf_sizes_and_exact_layout() {
    let metadata = create_test_metadata();
    let mut sizes = DepotSizes::new();
    sizes.insert("47411", 2048);
    let content = generate_acf_content(&metadata, "Test Game", &ManifestMap::new(), &sizes, 4096, 0);
    assert!(content.contains("\"SizeOnDisk\"\t\t\"4096\""));
    assert!(content.contains("\t\"InstalledDepots\"\n\t{\n\t\t\"47411\"\n\t\t{\n\t\t\t\"manifest\"\t\t\"6777399203159127119\"\n\t\t\t\"size\"\t\t\"2048\"\n\t\t}\n\t}\n"));
    assert!(content.starts_with("\"AppState\"\n{\n\t\"appid\"\t\t\"47410\"\n"));
    assert!(content.ends_with("\t\"MountedDepots\"\n\t{\n\t\t\"47411\"\t\t\"6777399203159127119\"\n\t}\n}\n"));
    assert!(!content.contains("SharedDepots"));
}

#[test]
fn acf_manifest_file_names() {
    let mut map = ManifestMap::new();
    assert!(map.record_manifest_file("47411", "6777399203159127119.manifest"));
    assert!(!map.record_manifest_file("47412", "6777399203159127119.manifest.sha"));
    assert_eq!(map.get("47411"), Some("6777399203159127119".to_string()));
    assert_eq!(map.get("47412"), None);
}

#[test]
fn forged_owner_line_is_escaped() {
    let mut metadata = create_test_metadata();
    metadata.game_name = "x\"\n\t\"LastOwner\"\t\t\"5".to_string();
    let content = content_for(&metadata, &ManifestMap::new());
    assert!(!content.contains("\n\t\"LastOwner\"\t\t\"5"));
    assert!(content.contains("\t\"name\"\t\t\"x\\\"\\n\\t\\\"LastOwner\\\"\\t\\t\\\"5\"\n"));
    let owner_lines: Vec<&str> = content.lines().filter(|l| l.starts_with("\t\"LastOwner\"")).collect();
    assert_eq!(owner_lines, vec!["\t\"LastOwner\"\t\t\"0\""]);
}

#[test]
fn vdf_escapes_backslashes() {
    let mut vdf = VdfBuilder::new();
    vdf.key_value("installdir", "Common\\Game");
    assert_eq!(vdf.build(), "\"installdir\"\t\t\"Common\\\\Game\"\n");
}
