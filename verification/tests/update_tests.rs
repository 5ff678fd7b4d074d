use zocli::update::{
    build_update_report, checksum_for_asset, configured_base_url_override, current_release_asset,
    hex_encode, normalize_version, release_base_url, update_table, verify_checksum,
    version_from_download_url, ArchiveKind, ReleaseAsset, ReleasePlan, UpdateStatusReport,
};
use zocli::versions::{compare_versions, has_newer_release, parse_u64};
use std::cmp::Ordering;

fn plan() -> ReleasePlan {
    let asset = ReleaseAsset {
        archive_kind: ArchiveKind::TarGz,
        binary_name: "zocli",
        file_name: "zocli-aarch64-apple-darwin.tar.gz",
        target: "aarch64-apple-darwin",
    };
    ReleasePlan {
        asset,
        base_url: "https://github.com/NextStat/zocli/releases/latest/download".to_string(),
        requested_version: "latest".to_string(),
        resolved_version: Some("0.2.0".to_string()),
        checksum: "deadbeef".to_string(),
    }
}

#[test]
fn normalize_version_accepts_latest_and_prefixed_tags() {
    assert_eq!(normalize_version("latest"), "latest");
    assert_eq!(normalize_version("0.1.32"), "v0.1.32");
    assert_eq!(normalize_version("v0.1.32"), "v0.1.32");
    assert_eq!(normalize_version("  "), "latest");
}

#[test]
fn configured_base_url_override_prefers_explicit_value_over_env() {
    assert_eq!(
        configured_base_url_override(
            Some("https://override.example.test/download"),
            Some("https://mirror.example.test/releases")
        )
        .as_deref(),
        Some("https://override.example.test/download")
    );
    assert_eq!(
        configured_base_url_override(None, Some("https://mirror.example.test/releases//")).as_deref(),
        Some("https://mirror.example.test/releases")
    );
    assert_eq!(configured_base_url_override(None, Some("///")), None);
}

#[test]
fn release_base_url_defaults_to_github() {
    assert_eq!(release_base_url("latest", None, None), "https://github.com/NextStat/zocli/releases/latest/download");
    assert_eq!(release_base_url("v0.2.0", None, None), "https://github.com/NextStat/zocli/releases/download/v0.2.0");
}

#[test]
fn version_from_download_url_extracts_tag() {
    let url = "https://github.com/NextStat/zocli/releases/download/v0.2.0/SHA256SUMS";
    assert_eq!(version_from_download_url(url).as_deref(), Some("0.2.0"));
    assert_eq!(version_from_download_url("https://example.com/latest/SHA256SUMS"), None);
}

#[test]
fn build_update_report_marks_check_as_up_to_date_when_versions_match() {
    let report = build_update_report("update.check", "0.2.0", &plan(), None);
    assert_eq!(report.status, "already_up_to_date");
    assert_eq!(report.target_version, "0.2.0");
}

#[test]
fn build_update_report_does_not_offer_downgrade_when_current_is_newer() {
    let report = build_update_report("update.check", "0.2.1", &plan(), None);
    assert_eq!(report.status, "already_up_to_date");
    assert_eq!(report.target_version, "0.2.0");
}

#[test]
fn build_update_report_offers_newer_releases() {
    let report = build_update_report("update.check", "0.1.9", &plan(), None);
    assert_eq!(report.status, "update_available");
    let mut p = plan();
    p.resolved_version = None;
    p.requested_version = "v0.3.0".into();
    let report = build_update_report("update.check", "0.1.9", &p, None);
    assert_eq!(report.status, "check_complete");
    assert_eq!(report.target_version, "0.3.0");
}

#[test]
fn render_output_uses_human_message_for_up_to_date_checks() {
    let report = UpdateStatusReport {
        operation: "update.check".to_string(),
        status: "already_up_to_date".to_string(),
        current_version: "0.2.1".to_string(),
        target_version: "0.2.1".to_string(),
        requested_version: "latest".to_string(),
        asset: "zocli-aarch64-apple-darwin.tar.gz".to_string(),
        target: "aarch64-apple-darwin".to_string(),
        base_url: "https://github.com/NextStat/zocli/releases/latest/download".to_string(),
    };
    assert_eq!(update_table(&report), "zocli is up to date (0.2.1)");
}

#[test]
fn checksum_for_asset_reads_sha256sums() {
    let checksums = "abc123  zocli-aarch64-apple-darwin.tar.gz\nxyz789  other.tar.gz\n";
    assert_eq!(
        checksum_for_asset(checksums, "zocli-aarch64-apple-darwin.tar.gz").expect("checksum"),
        "abc123"
    );
    assert!(checksum_for_asset("lonely\n\n", "other.tar.gz").is_err());
    assert_eq!(checksum_for_asset("a b\r\nc d", "d").unwrap(), "c");
}

#[test]
fn checksums_are_verified_in_hex() {
    assert_eq!(hex_encode(&[0x00, 0xab, 0x7f]), "00ab7f");
    let empty_sha = "e3b0c44298fc1c149afbf4c8996fb92427ae41e4649b934ca495991b7852b855";
    assert!(verify_checksum(b"", empty_sha, "a").is_ok());
    assert!(verify_checksum(b"x", empty_sha, "a").unwrap_err().message().contains("checksum mismatch for a"));
}

#[test]
fn release_assets_per_platform() {
    let a = current_release_asset("linux", "x86_64").unwrap();
    assert_eq!(a.file_name, "zocli-x86_64-unknown-linux-gnu.tar.gz");
    let w = current_release_asset("windows", "x86_64").unwrap();
    assert_eq!(w.archive_kind, ArchiveKind::Zip);
    assert_eq!(w.binary_name, "zocli.exe");
    assert_eq!(
        current_release_asset("freebsd", "x86_64").unwrap_err().message(),
        "Unsupported operation: auto-update is not published for target x86_64-freebsd"
    );
}

#[test]
fn versions_compare_numerically() {
    assert_eq!(compare_versions("0.2.0", "v0.10.0"), Some(Ordering::Less));
    assert_eq!(compare_versions("1.0", "1.0.0"), Some(Ordering::Equal));
    assert_eq!(compare_versions("1.2.1", "1.2"), Some(Ordering::Greater));
    assert_eq!(compare_versions("1.x", "1.0"), None);
    assert!(!has_newer_release("0.2.1", Some("0.2.1")));
    assert!(has_newer_release("0.2.1", Some("0.3.0")));
    assert!(has_newer_release("abc", Some("def")));
    assert!(!has_newer_release("0.2.1", None));
    assert_eq!(parse_u64("+42"), Some(42));
    assert_eq!(parse_u64("18446744073709551615"), Some(u64::MAX));
    assert_eq!(parse_u64("18446744073709551616"), None);
    assert_eq!(parse_u64(""), None);
    assert_eq!(parse_u64("+"), None);
}
