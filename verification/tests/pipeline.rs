use cdn_pipeline::collect_batch;
use cdn_pipeline::compose_deployed_url;
use cdn_pipeline::derive_filename;
use cdn_pipeline::is_restricted_host;
use cdn_pipeline::project_deployed_urls;
use cdn_pipeline::project_file_urls;
use cdn_pipeline::require_download_credential;
use cdn_pipeline::str_contains;
use cdn_pipeline::APIError;
use cdn_pipeline::ApiDoc;
use cdn_pipeline::ErrorKind;
use cdn_pipeline::UploadResult;
use cdn_pipeline::UploadSession;

fn result_with(url: &str, size: usize, file: &str) -> UploadResult {
    UploadResult {
        deployed_url: url.to_string(),
        size,
        file: file.to_string(),
        sha: None,
    }
}

#[test]
fn size_is_the_sink_count_not_the_advertised_length() {
    // The remote "advertised" a length of 3 bytes, but the sink saw and
    // wrote 11; the record must carry the sink's count.
    let mut session = UploadSession::begin("https://example.com/a.bin", false, false).unwrap();
    session.absorb(b"hello ");
    session.absorb(b"world");
    let written_by_sink = 11;
    let result = session.complete("https://cdn.example.com", written_by_sink);
    assert_eq!(result.size, 11);
}

#[test]
fn no_hash_requested_means_no_sha() {
    let mut session = UploadSession::begin("https://example.com/a.bin", false, false).unwrap();
    session.absorb(b"payload");
    let result = session.complete("https://cdn.example.com", 7);
    assert!(result.sha.is_none());
}

#[test]
fn empty_payload_sha1_known_vector() {
    let session = UploadSession::begin("https://example.com/empty", true, false).unwrap();
    let result = session.complete("https://cdn.example.com", 0);
    assert_eq!(
        result.sha.as_deref(),
        Some("da39a3ee5e6b4b0d3255bfef95601890afd80709")
    );
}

#[test]
fn chunked_payload_sha1_known_vector() {
    // SHA-1("abc"), streamed in two chunks: the digest must reflect the
    // concatenation in order.
    let mut session = UploadSession::begin("https://example.com/abc", true, false).unwrap();
    session.absorb(b"a");
    session.absorb(b"bc");
    let result = session.complete("https://cdn.example.com", 3);
    assert_eq!(
        result.sha.as_deref(),
        Some("a9993e364706816aba3e25717850c26c9cd0d89d")
    );
}

#[test]
fn restricted_host_without_credential_fails_before_any_fetch() {
    let r = UploadSession::begin("https://files.slack.com/f/img.png", false, false);
    let err = r.err().expect("restricted host without credential must fail");
    assert_eq!(err.kind, ErrorKind::BadRequest);
    assert_eq!(err.status_code(), 400);
    assert_eq!(
        err.reason(),
        "x-download-authorization is required to download Slack files!"
    );
}

#[test]
fn restricted_host_with_credential_proceeds() {
    assert!(UploadSession::begin("https://files.slack.com/f/img.png", false, true).is_ok());
    assert!(require_download_credential("https://files.slack.com/f/img.png", true).is_ok());
}

#[test]
fn unrestricted_host_needs_no_credential() {
    assert!(UploadSession::begin("https://example.com/f/img.png", false, false).is_ok());
    assert!(require_download_credential("https://example.com/x", false).is_ok());
}

#[test]
fn restricted_host_detection() {
    assert!(is_restricted_host("https://files.slack.com/a/b.png"));
    assert!(!is_restricted_host("https://example.com/files/slack.png"));
    assert!(str_contains("abcdef", "cde"));
    assert!(!str_contains("abcdef", "ce"));
    assert!(str_contains("abc", ""));
    assert!(!str_contains("ab", "abc"));
}

#[test]
fn filename_derivation_strips_path_and_query() {
    assert_eq!(
        derive_filename("https://example.com/path/name.png?x=1"),
        "name.png"
    );
}

#[test]
fn filename_derivation_falls_back_to_unknown() {
    assert_eq!(derive_filename("https://example.com/path/"), "unknown");
    assert_eq!(derive_filename(""), "unknown");
    assert_eq!(derive_filename("https://example.com/a/?x=1"), "unknown");
}

#[test]
fn filename_derivation_without_separators() {
    assert_eq!(derive_filename("name.png"), "name.png");
    assert_eq!(derive_filename("name.png?x=1"), "name.png");
}

#[test]
fn deployed_url_composition() {
    assert_eq!(
        compose_deployed_url("https://cdn.example.com", "abc123"),
        "https://cdn.example.com/abc123"
    );
}

#[test]
fn session_deploys_under_its_public_id() {
    let session = UploadSession::begin("https://example.com/a.png", false, false).unwrap();
    let id = session.public_id().clone();
    let result = session.complete("https://cdn.example.com", 4);
    assert_eq!(result.file, id);
    assert_eq!(result.deployed_url, format!("https://cdn.example.com/{}", id));
}

#[test]
fn public_identity_is_distinct_from_storage_key() {
    let session =
        UploadSession::begin_with_public_identity("https://example.com/a.png", false, false)
            .unwrap();
    assert_eq!(session.storage_key().len(), 36);
    assert_eq!(session.public_id().len(), 36);
    assert_ne!(session.storage_key(), session.public_id());
}

#[test]
fn relational_completion_builds_row_and_record() {
    let mut session =
        UploadSession::begin_with_public_identity("https://example.com/p/photo.png?v=2", true, false)
            .unwrap();
    session.absorb(b"abc");
    let (result, row) = session.complete_record(
        "https://cdn.example.com",
        3,
        "https://example.com/p/photo.png?v=2",
        7,
    );
    assert_eq!(row.user_id, 7);
    assert_eq!(row.filename, "photo.png");
    assert_eq!(row.size, 3);
    assert_eq!(row.public_id, result.file);
    assert_ne!(row.storage_key, row.public_id);
    assert_eq!(row.url, result.deployed_url);
    assert_eq!(
        result.deployed_url,
        format!("https://cdn.example.com/{}", row.public_id)
    );
    assert_eq!(row.sha.as_deref(), Some("a9993e364706816aba3e25717850c26c9cd0d89d"));
    assert_eq!(row.sha, result.sha);
}

#[test]
fn generated_keys_are_hyphenated_uuids() {
    let a = UploadSession::begin("https://example.com/a", false, false).unwrap();
    let b = UploadSession::begin("https://example.com/b", false, false).unwrap();
    let key = a.storage_key();
    assert_eq!(key.len(), 36);
    for i in [8, 13, 18, 23] {
        assert_eq!(key.as_bytes()[i], b'-');
    }
    assert_ne!(a.storage_key(), b.storage_key());
}

#[test]
fn batch_with_one_failure_returns_single_aggregate_failure() {
    let outcomes = vec![
        Ok(result_with("https://cdn.example.com/a", 1, "a")),
        Err(APIError::gateway("Failed to fetch remote file")),
        Ok(result_with("https://cdn.example.com/c", 3, "c")),
    ];
    let r = collect_batch(outcomes);
    let err = r.err().expect("one failed item must fail the batch");
    assert_eq!(err.kind, ErrorKind::Gateway);
    assert_eq!(err.status_code(), 502);
}

#[test]
fn batch_reports_the_first_error_in_task_order() {
    let outcomes = vec![
        Ok(result_with("https://cdn.example.com/a", 1, "a")),
        Err(APIError::gateway("Failed to fetch remote file")),
        Err(APIError::storage("Failed to store file metadata")),
    ];
    let err = collect_batch(outcomes).err().unwrap();
    assert_eq!(err.kind, ErrorKind::Gateway);
}

#[test]
fn batch_of_all_successes_returns_every_result_in_order() {
    let outcomes = vec![
        Ok(result_with("https://cdn.example.com/a", 1, "a")),
        Ok(result_with("https://cdn.example.com/b", 2, "b")),
    ];
    let results = collect_batch(outcomes).unwrap();
    assert_eq!(results.len(), 2);
    assert_eq!(results[0].file, "a");
    assert_eq!(results[1].file, "b");
}

#[test]
fn projections_preserve_order_and_fields() {
    let results = vec![
        result_with("https://cdn.example.com/a", 1, "a"),
        result_with("https://cdn.example.com/b", 2, "b"),
    ];
    let urls = project_deployed_urls(&results);
    assert_eq!(urls, vec!["https://cdn.example.com/a", "https://cdn.example.com/b"]);
    let pairs = project_file_urls(&results);
    assert_eq!(pairs[0], ("a".to_string(), "https://cdn.example.com/a".to_string()));
    assert_eq!(pairs[1], ("b".to_string(), "https://cdn.example.com/b".to_string()));
}

#[test]
fn digest_is_lowercase_hex_of_forty_digits() {
    let mut session = UploadSession::begin("https://example.com/x", true, false).unwrap();
    session.absorb(b"The quick brown fox jumps over the lazy dog");
    let result = session.complete("https://cdn.example.com", 43);
    let sha = result.sha.unwrap();
    assert_eq!(sha, "2fd4e1c67a2d28fced849ee1bb76e7391b93eb12");
    assert_eq!(sha.len(), 40);
    assert!(sha.chars().all(|c| c.is_ascii_hexdigit() && !c.is_ascii_uppercase()));
}

#[test]
fn error_kinds_map_to_their_status_codes() {
    assert_eq!(APIError::bad_request("x").status_code(), 400);
    assert_eq!(APIError::gateway("x").status_code(), 502);
    assert_eq!(APIError::storage("x").status_code(), 500);
    assert_eq!(APIError::internal().status_code(), 500);
    assert_eq!(APIError::internal().reason(), "Internal Server Error");
    assert_eq!(APIError::storage("Failed to store file metadata").reason(),
        "Failed to store file metadata");
}

#[test]
fn error_body_is_a_short_json_reason() {
    assert_eq!(APIError::gateway("Failed to fetch remote file").body_json(),
        "{\"error\":\"Failed to fetch remote file\"}");
    assert_eq!(APIError::internal().body_json(), "{\"error\":\"Internal Server Error\"}");
}

#[test]
fn api_doc_metadata() {
    assert_eq!(ApiDoc::title(), "Hack Club CDN");
    assert_eq!(ApiDoc::version(), "1.0.0");
}
