use omnipacker::datetime::UtcDateTime;
use omnipacker::job_metadata::{BuildIdSource, DepotInfo, JobMetadataFile};
use omnipacker::template::{
    block_type_name, create_default_template, render_template, render_template_string,
    DepotListConfig, TemplateBlock, TemplateDepot, TemplateMetadata, TemplateMetadataState,
    TitleConfig, UploadedVersionConfig, VersionConfig,
};

fn balatro() -> TemplateMetadata {
    TemplateMetadata {
        game_name: "Balatro".to_string(),
        os: "Win64".to_string(),
        branch: "Public".to_string(),
        build_datetime_utc: "February 24, 2025 - 22:02:36 UTC".to_string(),
        build_id: "18674832".to_string(),
        depots: vec![TemplateDepot {
            depot_id: "2923300".to_string(),
            depot_name: "Balatro Content".to_string(),
            manifest_id: "4851806656204679952".to_string(),
        }],
    }
}

#[test]
fn test_render_template_string() {
    let values = vec![
        ("game_name".to_string(), "Test Game".to_string()),
        ("os".to_string(), "Win64".to_string()),
    ];

    let template = "Game: {{game_name}} OS: {{os}}";
    let result = render_template_string(template, &values);

    assert_eq!(result, "Game: Test Game OS: Win64");
}

#[test]
fn test_render_template() {
    let metadata = balatro();

    let blocks = vec![
        TemplateBlock::Title {
            config: TitleConfig {
                template: "{{game_name}} [{{os}}]".to_string(),
            },
        },
        TemplateBlock::DepotList {
            config: DepotListConfig {
                title: Some("Test Depots".to_string()),
                line_template: "{{depot_name}}: {{manifest_id}}".to_string(),
                use_code_block: Some(false),
                max_depots: Some(100),
            },
        },
    ];

    let result = render_template(&blocks, &metadata).unwrap();
    assert!(result.contains("Balatro [Win64]"));
    assert!(result.contains("[spoiler=Test Depots]"));
    assert!(result.contains("Balatro Content: 4851806656204679952"));
}

#[test]
fn render_template_exact_spacing() {
    let metadata = balatro();
    let blocks = vec![
        TemplateBlock::Version { config: VersionConfig { template: "v{{build_id}}".to_string() } },
        TemplateBlock::DepotList {
            config: DepotListConfig {
                title: None,
                line_template: "{{depot_id}}".to_string(),
                use_code_block: Some(true),
                max_depots: None,
            },
        },
        TemplateBlock::UploadedVersion { config: UploadedVersionConfig { template: "u".to_string() } },
    ];
    let result = render_template(&blocks, &metadata).unwrap();
    assert_eq!(result, "v18674832\n\n[spoiler=Depots]\n[code=text]2923300[/code]\n[/spoiler]u");
}

#[test]
fn render_template_limits_depots() {
    let mut metadata = balatro();
    metadata.depots.push(TemplateDepot {
        depot_id: "2".to_string(),
        depot_name: "Two".to_string(),
        manifest_id: "22".to_string(),
    });
    let blocks = vec![TemplateBlock::DepotList {
        config: DepotListConfig {
            title: Some("D".to_string()),
            line_template: "{{depot_id}}".to_string(),
            use_code_block: None,
            max_depots: Some(1),
        },
    }];
    assert_eq!(render_template(&blocks, &metadata).unwrap(), "[spoiler=D]\n2923300\n[/spoiler]");
    let all = vec![TemplateBlock::DepotList {
        config: DepotListConfig {
            title: Some("D".to_string()),
            line_template: "{{depot_id}}".to_string(),
            use_code_block: None,
            max_depots: None,
        },
    }];
    assert_eq!(render_template(&all, &metadata).unwrap(), "[spoiler=D]\n2923300\n2\n[/spoiler]");
}

#[test]
fn default_template_renders() {
    let blocks = create_default_template();
    assert_eq!(blocks.len(), 5);
    assert_eq!(block_type_name(&blocks[0]), "title");
    assert_eq!(block_type_name(&blocks[2]), "depot_list");
    let result = render_template(&blocks, &balatro()).unwrap();
    assert!(result.starts_with("[url=][color=white][b]Balatro [Win64] [Branch: Public] (Clean Steam Files)[/b][/color][/url]\n[size=85]"));
    assert!(result.contains("[/size]\n\n[spoiler=\"[color=white]Depots & Manifests[/color]\"]\n[code=text]2923300 - Balatro Content [Manifest 4851806656204679952][/code]\n[/spoiler][color=white]"));
    assert!(result.ends_with("[/color]\nMade using [url=https://github.com/elgreams/OmniPacker]OmniPacker[/url]"));
}

#[test]
fn template_metadata_from_job_record() {
    let record = JobMetadataFile::new(
        "job".to_string(),
        "2379780".to_string(),
        "Public".to_string(),
        "Win64".to_string(),
        "2379781".to_string(),
        "Balatro".to_string(),
        "4851806656204679952".to_string(),
        BuildIdSource::PrimaryManifestId,
        Some(UtcDateTime::from_ymd_hms(2025, 2, 24, 22, 2, 36).unwrap()),
        vec![DepotInfo {
            depot_id: "2379781".to_string(),
            depot_name: "Balatro".to_string(),
            manifest_id: "4851806656204679952".to_string(),
            manifest_id_used: None,
        }],
    );
    let m = TemplateMetadata::from_job_metadata(&record);
    assert_eq!(m.build_datetime_utc, "February 24, 2025 - 22:02:36 UTC");
    assert_eq!(m.os, "Win64");
    assert_eq!(m.depots.len(), 1);
    let mut state = TemplateMetadataState::new();
    assert!(state.get().is_none());
    state.set(m);
    assert_eq!(state.get().unwrap().build_id, "4851806656204679952");
}

#[test]
fn replacement_does_not_overlap() {
    let values = vec![("a".to_string(), "{{a}}".to_string())];
    assert_eq!(render_template_string("{{a}}{{a}}", &values), "{{a}}{{a}}");
    let values = vec![("x".to_string(), "1".to_string())];
    assert_eq!(render_template_string("{{{x}}}", &values), "{1}");
}
