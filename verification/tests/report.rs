use ecr_report::cli::{
    all_error_message, images_error_message, missing_name_message, parse_mode,
    repositories_error_message, repository_names, usage_message, version_message, Mode,
};
use ecr_report::extract::extract;
use ecr_report::model::{ImageDescription, ReportRow, ScanSummary, Severity, Timestamp};
use ecr_report::report::{format_row, header_line, report_rows};

const DOCKER_V1: &str = "application/vnd.docker.container.image.v1+json";

fn image(media_type: Option<&str>) -> ImageDescription {
    ImageDescription {
        artifact_media_type: media_type.map(|s| s.to_string()),
        repository_name: Some("my-repo".to_string()),
        image_tags: vec!["v1".to_string()],
        image_digest: Some("sha256:abc".to_string()),
        scan_findings_summary: None,
    }
}

#[test]
fn skips_absent_media_type() {
    assert!(extract(&image(None)).is_none());
}

#[test]
fn skips_manifest_list_media_type() {
    let img = image(Some("application/vnd.docker.distribution.manifest.list.v2+json"));
    assert!(extract(&img).is_none());
}

#[test]
fn skips_other_media_type_with_all_fields_present() {
    let img = ImageDescription {
        artifact_media_type: Some("application/vnd.oci.image.config.v1+json".to_string()),
        repository_name: Some("full".to_string()),
        image_tags: vec!["a".to_string(), "b".to_string()],
        image_digest: Some("sha256:def".to_string()),
        scan_findings_summary: Some(ScanSummary {
            completed_at: Some(Timestamp { seconds: 100, subsec_nanos: 0 }),
            source_updated_at: None,
            severity_counts: vec![(Severity::Critical, 7)],
        }),
    };
    assert!(extract(&img).is_none());
}

#[test]
fn absent_summary_gives_empty_dates_and_zero_counts() {
    let row = extract(&image(Some(DOCKER_V1))).unwrap();
    assert_eq!(row.repository_name, "my-repo");
    assert_eq!(row.first_tag, "v1");
    assert_eq!(row.digest, "sha256:abc");
    assert_eq!(row.scan_completed_at, "");
    assert_eq!(row.vuln_source_updated_at, "");
    assert_eq!(
        (row.critical, row.high, row.medium, row.low, row.informational, row.undefined),
        (0, 0, 0, 0, 0, 0)
    );
    let line = format_row(&row);
    assert_eq!(line, "my-repo;v1;sha256:abc;;;0;0;0;0;0;0");
}

#[test]
fn absent_optional_strings_give_empty_fields() {
    let img = ImageDescription {
        artifact_media_type: Some(DOCKER_V1.to_string()),
        repository_name: None,
        image_tags: vec![],
        image_digest: None,
        scan_findings_summary: None,
    };
    let row = extract(&img).unwrap();
    let line = format_row(&row);
    assert_eq!(line, ";;;;;0;0;0;0;0;0");
}

#[test]
fn partial_severity_counts_default_to_zero() {
    let mut img = image(Some(DOCKER_V1));
    img.scan_findings_summary = Some(ScanSummary {
        completed_at: Some(Timestamp { seconds: 0, subsec_nanos: 0 }),
        source_updated_at: Some(Timestamp { seconds: 0, subsec_nanos: 0 }),
        severity_counts: vec![(Severity::Critical, 3), (Severity::High, 1)],
    });
    let row = extract(&img).unwrap();
    assert_eq!(
        (row.critical, row.high, row.medium, row.low, row.informational, row.undefined),
        (3, 1, 0, 0, 0, 0)
    );
    let line = format_row(&row);
    assert!(line.ends_with(";3;1;0;0;0;0"), "line was {line}");
}

#[test]
fn only_first_tag_is_reported() {
    let mut img = image(Some(DOCKER_V1));
    img.image_tags = vec!["v1".to_string(), "v2".to_string(), "v3".to_string()];
    let row = extract(&img).unwrap();
    assert_eq!(row.first_tag, "v1");
}

#[test]
fn absent_timestamps_in_present_summary_render_as_epoch() {
    let mut img = image(Some(DOCKER_V1));
    img.scan_findings_summary = Some(ScanSummary {
        completed_at: None,
        source_updated_at: None,
        severity_counts: vec![],
    });
    let row = extract(&img).unwrap();
    assert_eq!(row.scan_completed_at, "1970-01-01T00:00:00Z");
    assert_eq!(row.vuln_source_updated_at, "1970-01-01T00:00:00Z");
}

#[test]
fn present_timestamps_render_their_own_instant() {
    let mut img = image(Some(DOCKER_V1));
    img.scan_findings_summary = Some(ScanSummary {
        completed_at: Some(Timestamp { seconds: 482196050, subsec_nanos: 520_000_000 }),
        source_updated_at: Some(Timestamp { seconds: 1, subsec_nanos: 0 }),
        severity_counts: vec![],
    });
    let row = extract(&img).unwrap();
    assert_eq!(row.scan_completed_at, "1985-04-12T23:20:50.52Z");
    assert_eq!(row.vuln_source_updated_at, "1970-01-01T00:00:01Z");
}

#[test]
fn header_line_is_verbatim() {
    assert_eq!(
        header_line(),
        "repository_name;image_tags;image_digest;image_scan_completed_date;vulnerability_source_updated_date;Critical;High;Medium;Low;Informational;Undefined"
    );
}

#[test]
fn report_rows_keeps_listing_order_and_skips() {
    let mut reported = image(Some(DOCKER_V1));
    reported.repository_name = Some("first".to_string());
    let skipped = image(None);
    let mut last = image(Some(DOCKER_V1));
    last.repository_name = Some("second".to_string());
    let lines = report_rows(&vec![reported, skipped, last]);
    assert_eq!(lines.len(), 2);
    assert!(lines[0].starts_with("first;"));
    assert!(lines[1].starts_with("second;"));
}

#[test]
fn empty_registry_emits_only_the_header() {
    let names = repository_names(&vec![]);
    assert!(names.is_empty());
    let mut output = vec![header_line()];
    for _name in &names {
        output.extend(report_rows(&vec![]));
    }
    assert_eq!(output, vec![header_line()]);
}

#[test]
fn negative_count_renders_with_sign() {
    let row = ReportRow {
        repository_name: "r".to_string(),
        first_tag: String::new(),
        digest: String::new(),
        scan_completed_at: String::new(),
        vuln_source_updated_at: String::new(),
        critical: -5,
        high: 2147483647,
        medium: 0,
        low: 10,
        informational: 205,
        undefined: -2147483648,
    };
    assert_eq!(format_row(&row), "r;;;;;-5;2147483647;0;10;205;-2147483648");
}

#[test]
fn no_arguments_asks_for_usage() {
    let m = parse_mode(&vec!["ecr-report".to_string()]);
    assert!(matches!(m, Mode::Usage));
}

#[test]
fn version_flag_wins_over_everything() {
    let m = parse_mode(&vec![
        "ecr-report".to_string(),
        "--all".to_string(),
        "--version".to_string(),
    ]);
    assert!(matches!(m, Mode::Version));
}

#[test]
fn all_flag_selects_every_repository() {
    let m = parse_mode(&vec!["ecr-report".to_string(), "--all".to_string()]);
    assert!(matches!(m, Mode::All));
}

#[test]
fn first_argument_names_the_repository() {
    let m = parse_mode(&vec!["ecr-report".to_string(), "my-repo".to_string()]);
    match m {
        Mode::Single(name) => assert_eq!(name, "my-repo"),
        other => panic!("unexpected mode {other:?}"),
    }
}

#[test]
fn usage_and_version_messages_are_exact() {
    let prog = "ecr-report".to_string();
    assert_eq!(
        usage_message(&prog),
        "Usage: ecr-report [--all | <repository_name> | --version]"
    );
    assert_eq!(
        version_message(&prog, &"0.1.0".to_string()),
        "ecr-report version v0.1.0"
    );
}

#[test]
fn diagnostic_messages_are_exact() {
    assert_eq!(missing_name_message(), "Repository name not found");
    assert_eq!(
        images_error_message(&"repo-a".to_string(), &"boom".to_string()),
        "Error listing images for repository 'repo-a': boom"
    );
    assert_eq!(
        repositories_error_message(&"down".to_string()),
        "Error describing repositories: down"
    );
    assert_eq!(
        all_error_message(&"down".to_string()),
        "Error listing all repositories: down"
    );
}

#[test]
fn repository_names_skips_unnamed_repositories() {
    let names = repository_names(&vec![
        Some("alpha".to_string()),
        None,
        Some("beta".to_string()),
        None,
    ]);
    assert_eq!(names, vec!["alpha".to_string(), "beta".to_string()]);
}
