use asset_sync::download::{plan_download, DownloadOutcome, Transfer};
use asset_sync::locator::ResolvedDownload;
use asset_sync::progress::Progress;

fn resolved(dest: &str, hash: &str) -> ResolvedDownload {
    ResolvedDownload {
        url: format!("https://cdn.example/files/{}", dest),
        expected_hash: hash.to_string(),
        local_path: dest.to_string(),
    }
}

fn fetch(hash: &str, chunks: &[&[u8]]) -> DownloadOutcome {
    let plan = plan_download(&resolved("a/b.bin", hash)).unwrap();
    let mut transfer = Transfer::begin(&plan, None);
    for chunk in chunks {
        let (next, _) = transfer.on_chunk(chunk);
        transfer = next;
    }
    transfer.finish()
}

#[test]
fn plan_names_directories_file_and_temporary_file() {
    let plan = plan_download(&resolved("a/b/c.bin", "00")).unwrap();
    assert_eq!(plan.url, "https://cdn.example/files/a/b/c.bin");
    assert_eq!(plan.expected_hash, "00");
    assert_eq!(plan.directories, vec!["a".to_string(), "b".to_string()]);
    assert_eq!(plan.file_name, "c.bin");
    assert_eq!(plan.temp_name, "c.bin.part");
}

#[test]
fn plan_for_file_at_the_root_has_no_directories() {
    let plan = plan_download(&resolved("c.bin", "00")).unwrap();
    assert!(plan.directories.is_empty());
    assert_eq!(plan.file_name, "c.bin");
    assert_eq!(plan.temp_name, "c.bin.part");
}

#[test]
fn plan_resolves_the_destination() {
    let plan = plan_download(&resolved("a/./x/../b.bin", "00")).unwrap();
    assert_eq!(plan.directories, vec!["a".to_string()]);
    assert_eq!(plan.file_name, "b.bin");
}

#[test]
fn escaping_destination_is_an_unsafe_path() {
    assert_eq!(
        plan_download(&resolved("../../escape.bin", "00")),
        Err(DownloadOutcome::UnsafePath("../../escape.bin".to_string()))
    );
    assert_eq!(
        plan_download(&resolved("/etc/passwd", "00")),
        Err(DownloadOutcome::UnsafePath("/etc/passwd".to_string()))
    );
    assert_eq!(
        plan_download(&resolved("", "00")),
        Err(DownloadOutcome::UnsafePath("".to_string()))
    );
}

#[test]
fn empty_file_with_the_empty_digest_succeeds() {
    assert_eq!(fetch("d41d8cd98f00b204e9800998ecf8427e", &[]), DownloadOutcome::Success(0));
    assert_eq!(fetch("d41d8cd98f00b204e9800998ecf8427e", &[b""]), DownloadOutcome::Success(0));
}

#[test]
fn matching_hash_succeeds_with_the_byte_count() {
    assert_eq!(
        fetch("900150983cd24fb0d6963f7d28e17f72", &[b"abc"]),
        DownloadOutcome::Success(3)
    );
    assert_eq!(
        fetch(
            "9e107d9d372bb6826bd81d3542a419d6",
            &[b"The quick brown fox jumps over the lazy dog"]
        ),
        DownloadOutcome::Success(43)
    );
}

#[test]
fn hash_does_not_depend_on_how_the_body_is_cut() {
    let whole = fetch("f96b697d7cb7938d525a2f31aaf161d0", &[b"message digest"]);
    let cut = fetch("f96b697d7cb7938d525a2f31aaf161d0", &[b"mess", b"", b"age dig", b"est"]);
    assert_eq!(whole, DownloadOutcome::Success(14));
    assert_eq!(cut, DownloadOutcome::Success(14));
}

#[test]
fn order_of_chunks_matters() {
    assert_eq!(
        fetch("900150983cd24fb0d6963f7d28e17f72", &[b"c", b"ab"]),
        DownloadOutcome::HashMismatch {
            expected: "900150983cd24fb0d6963f7d28e17f72".to_string(),
            actual: "16ecfd64586ec6c1ab212762c2c38a90".to_string(),
        }
    );
}

#[test]
fn declared_hash_may_be_upper_case() {
    assert_eq!(
        fetch("900150983CD24FB0D6963F7D28E17F72", &[b"abc"]),
        DownloadOutcome::Success(3)
    );
    assert_eq!(
        fetch("900150983cd24FB0d6963f7D28e17f72", &[b"a", b"bc"]),
        DownloadOutcome::Success(3)
    );
}

#[test]
fn truncated_file_is_a_mismatch() {
    assert_eq!(
        fetch("900150983cd24fb0d6963f7d28e17f72", &[b"ab"]),
        DownloadOutcome::HashMismatch {
            expected: "900150983cd24fb0d6963f7d28e17f72".to_string(),
            actual: "187ef4436122d1cc2f40dc2b92f0eba0".to_string(),
        }
    );
}

#[test]
fn corrupted_file_is_a_mismatch() {
    assert_eq!(
        fetch("d41d8cd98f00b204e9800998ecf8427e", &[b"a"]),
        DownloadOutcome::HashMismatch {
            expected: "d41d8cd98f00b204e9800998ecf8427e".to_string(),
            actual: "0cc175b9c0f1b6a831c399e269772661".to_string(),
        }
    );
}

#[test]
fn malformed_declared_hash_is_a_mismatch() {
    assert_eq!(
        fetch("", &[]),
        DownloadOutcome::HashMismatch {
            expected: "".to_string(),
            actual: "d41d8cd98f00b204e9800998ecf8427e".to_string(),
        }
    );
}

#[test]
fn progress_follows_every_chunk() {
    let plan = plan_download(&resolved("a/b.bin", "00")).unwrap();
    let transfer = Transfer::begin(&plan, Some(10));
    let (transfer, first) = transfer.on_chunk(b"abcd");
    assert_eq!(first, Progress { received: 4, total: Some(10) });
    assert_eq!(first.percent_hundredths(), Some(4000));
    let (transfer, second) = transfer.on_chunk(b"");
    assert_eq!(second, Progress { received: 4, total: Some(10) });
    let (_, third) = transfer.on_chunk(b"efghij");
    assert_eq!(third, Progress { received: 10, total: Some(10) });
    assert_eq!(third.percent_hundredths(), Some(10000));
}

#[test]
fn progress_without_announced_length_counts_bytes_only() {
    let plan = plan_download(&resolved("a/b.bin", "00")).unwrap();
    let transfer = Transfer::begin(&plan, None);
    let (_, report) = transfer.on_chunk(b"abcd");
    assert_eq!(report, Progress { received: 4, total: None });
    assert_eq!(report.percent_hundredths(), None);
}

#[test]
fn interrupted_transfer_is_an_error_whatever_arrived() {
    let plan = plan_download(&resolved("a/b.bin", "900150983cd24fb0d6963f7d28e17f72")).unwrap();
    let transfer = Transfer::begin(&plan, Some(3));
    let (transfer, _) = transfer.on_chunk(b"abc");
    assert_eq!(
        transfer.interrupted("connection reset".to_string()),
        DownloadOutcome::TransferError("connection reset".to_string())
    );
}

#[test]
fn only_success_commits_the_file() {
    assert!(DownloadOutcome::Success(1).commits());
    assert!(!DownloadOutcome::HashMismatch { expected: "a".to_string(), actual: "b".to_string() }
        .commits());
    assert!(!DownloadOutcome::TransferError("x".to_string()).commits());
    assert!(!DownloadOutcome::UnsafePath("../x".to_string()).commits());
}

#[test]
fn clone_of_an_outcome_is_equal() {
    let outcomes = [
        DownloadOutcome::Success(7),
        DownloadOutcome::HashMismatch { expected: "a".to_string(), actual: "b".to_string() },
        DownloadOutcome::TransferError("x".to_string()),
        DownloadOutcome::UnsafePath("../x".to_string()),
    ];
    for outcome in outcomes.iter() {
        assert_eq!(&outcome.clone(), outcome);
    }
}
