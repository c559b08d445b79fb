use polyblock::download::{
    checksum_status, download_libraries, decide_fetch, needs_checksum, ChecksumStatus,
    FetchDecision, FetchOutcome, DOWNLOAD_CONCURRENCY,
};
use polyblock::error::InstallError;
use polyblock::profile::Library;

fn lib(url: &str, sha1: Option<&str>) -> Library {
    Library {
        name: "lib".to_string(),
        path: "a/b/1/b-1.jar".to_string(),
        url: url.to_string(),
        sha1: sha1.map(|s| s.to_string()),
    }
}

#[test]
fn fetch_decisions() {
    let with_sha = lib("http://x/b.jar", Some("aa"));
    assert!(needs_checksum(&with_sha, true));
    assert!(!needs_checksum(&with_sha, false));
    assert_eq!(decide_fetch(&with_sha, true, Some("aa")), FetchDecision::UpToDate);
    assert_eq!(decide_fetch(&with_sha, true, Some("bb")), FetchDecision::Download);
    assert_eq!(decide_fetch(&with_sha, false, None), FetchDecision::Download);
    let no_sha = lib("http://x/b.jar", None);
    assert!(!needs_checksum(&no_sha, true));
    assert_eq!(decide_fetch(&no_sha, true, None), FetchDecision::UpToDate);
    let no_url = lib("", Some("aa"));
    assert_eq!(decide_fetch(&no_url, false, None), FetchDecision::Skip);
    assert_eq!(decide_fetch(&no_url, true, Some("bb")), FetchDecision::Skip);
    assert_eq!(DOWNLOAD_CONCURRENCY, 8);
}

#[test]
fn checksum_status_after_download() {
    assert_eq!(checksum_status(&None, "aa"), ChecksumStatus::Unverified);
    assert_eq!(checksum_status(&Some("aa".to_string()), "aa"), ChecksumStatus::Matches);
    assert_eq!(checksum_status(&Some("aa".to_string()), "bb"), ChecksumStatus::Mismatch);
}

#[test]
fn downloader_reports_every_hard_failure() {
    let outcomes = vec![
        FetchOutcome::Failed("one".to_string()),
        FetchOutcome::UpToDate,
        FetchOutcome::Failed("two".to_string()),
        FetchOutcome::Downloaded(ChecksumStatus::Matches),
        FetchOutcome::Failed("three".to_string()),
    ];
    assert_eq!(
        download_libraries(&outcomes),
        Err(InstallError::LibraryDownloads(vec![
            "one".to_string(),
            "two".to_string(),
            "three".to_string()
        ]))
    );
}

#[test]
fn downloader_tolerates_checksum_mismatches() {
    let outcomes = vec![
        FetchOutcome::Downloaded(ChecksumStatus::Mismatch),
        FetchOutcome::Skipped,
        FetchOutcome::Downloaded(ChecksumStatus::Mismatch),
        FetchOutcome::UpToDate,
    ];
    assert_eq!(download_libraries(&outcomes), Ok(()));
    assert_eq!(download_libraries(&Vec::new()), Ok(()));
}
