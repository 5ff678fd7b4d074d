use zocli::disk::{
    api_error, build_url, check_download_output, file_entries, files_path, list_files, list_teams,
    teams_path, uploaded_file, validate_upload_source, RawFile, RawTeam,
};
use zocli::error::ZocliError;

#[test]
fn build_url_basic() {
    let url = build_url("https://www.zohoapis.eu/workdrive", "/api/v1/teams/abc123").unwrap();
    assert_eq!(url, "https://www.zohoapis.eu/workdrive/api/v1/teams/abc123");
}

#[test]
fn build_url_trailing_slash() {
    let url = build_url("https://www.zohoapis.eu/workdrive/", "/api/v1/teams/abc123").unwrap();
    assert_eq!(url, "https://www.zohoapis.eu/workdrive/api/v1/teams/abc123");
}

#[test]
fn build_url_invalid_base() {
    let result = build_url("not-a-url", "/api/v1/teams/abc");
    assert!(result.is_err());
}

#[test]
fn api_error_with_json_errors_array() {
    let body = r#"{"errors":[{"title":"Not Found","detail":"Resource does not exist"}]}"#;
    let msg = api_error(404, body, "list files").message();
    assert!(msg.contains("404"), "should include status code");
    assert!(msg.contains("Not Found"), "should include error title");
}

#[test]
fn api_error_with_plain_body() {
    let msg = api_error(500, "Internal Server Error", "upload file").message();
    assert!(msg.contains("500"));
    assert!(msg.contains("Internal Server Error"));
}

#[test]
fn api_error_with_nested_error_object() {
    let body = r#"{"error":{"code":"INVALID_TOKEN","message":"Token expired"}}"#;
    let msg = api_error(401, body, "download file").message();
    assert!(msg.contains("401"));
    assert!(msg.contains("Token expired"));
}

#[test]
fn api_error_joins_entry_texts() {
    let body = r#"{"errors":[{"message":"one"},{"code":"x"},{"detail":"two"},{"title":5,"message":"skipped"}]}"#;
    match api_error(400, body, "list teams") {
        ZocliError::Api(m) => assert_eq!(m, "Zoho WorkDrive list teams failed with status 400: one; two"),
        other => panic!("unexpected {:?}", other),
    }
    let long = "x".repeat(600);
    match api_error(502, &long, "list teams") {
        ZocliError::Api(m) => assert!(m.ends_with(&"x".repeat(500)) && !m.ends_with(&"x".repeat(501))),
        other => panic!("unexpected {:?}", other),
    }
}

#[test]
fn list_files_rejects_zero_limit() {
    let result = list_files("folder1", 0, 0);
    assert!(result.is_err());
    assert!(result.unwrap_err().message().contains("limit"));
}

#[test]
fn list_files_rejects_empty_folder_id() {
    let result = list_files("  ", 10, 0);
    assert!(result.is_err());
    assert!(result.unwrap_err().message().contains("folder_id"));
}

#[test]
fn list_files_query_pages() {
    let q = list_files("f", 10, 20).unwrap();
    assert_eq!(q, vec![("page[limit]", "10".to_string()), ("page[offset]", "20".to_string())]);
    assert_eq!(files_path("f"), "/api/v1/files/f/files");
    assert_eq!(teams_path("7"), "/api/v1/users/7/teams");
}

#[test]
fn download_file_rejects_existing_output_without_force() {
    let result = check_download_output(true, false, false, "Cargo.toml");
    assert!(result.is_err());
    let msg = result.unwrap_err().message();
    assert!(msg.contains("Cargo.toml") || msg.contains("exists"));
    assert!(check_download_output(true, false, true, "x").is_ok());
    assert!(matches!(check_download_output(false, true, false, "d").unwrap_err(), ZocliError::UnsupportedOperation(_)));
}

#[test]
fn validate_upload_source_rejects_missing_file() {
    let result = validate_upload_source(None, "/nonexistent/file.txt");
    assert!(result.unwrap_err().message().contains("not found"));
}

#[test]
fn validate_upload_source_rejects_directory() {
    let result = validate_upload_source(Some((false, 4096)), "/tmp");
    assert!(result.unwrap_err().message().contains("file"));
    assert!(validate_upload_source(Some((true, 0)), "e").is_err());
    assert!(validate_upload_source(Some((true, 3)), "ok").is_ok());
}

#[test]
fn listings_fill_in_missing_fields() {
    let teams = list_teams(vec![RawTeam { id: "t".into(), name: "Eng".into(), storage_limit: Some(10), storage_used: None }]);
    assert_eq!((teams[0].storage_limit, teams[0].storage_used), (10, 0));
    let files = file_entries(vec![RawFile {
        id: "f".into(),
        name: "a.txt".into(),
        file_type: None,
        size: Some(5),
        modified_time: None,
        created_time: Some("now".into()),
    }]);
    assert_eq!(files[0].file_type, "");
    assert_eq!(files[0].size, 5);
    assert_eq!(files[0].created_time, "now");
    assert_eq!(uploaded_file(vec![("id".into(), "n".into())]).unwrap().name, "n");
    assert!(uploaded_file(vec![]).is_err());
}
