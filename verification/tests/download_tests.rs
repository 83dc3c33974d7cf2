use llm_backend::checksum::{check_digest, judge_digest, verify_sha256};
use llm_backend::download::{
    closing_event, count_chunk, download_fault_message, download_next, judge_download,
    refused_message, DownloadEvent, DownloadFault, DownloadNext, DownloadStage, DownloadState,
    DownloadStatus,
};

const EMPTY_DIGEST: &str = "e3b0c44298fc1c149afbf4c8996fb92427ae41e4649b934ca495991b7852b855";
const ABC_DIGEST: &str = "ba7816bf8f01cfea414140de5dae2223b00361a396177a9cb410ff61f20015ad";

fn pending() -> DownloadState {
    DownloadState::new(
        "id-1".to_string(),
        "https://example.org/model.gguf".to_string(),
        "/models/model.gguf".to_string(),
    )
}

fn in_progress() -> DownloadState {
    let mut record = pending();
    record.apply(&DownloadEvent::Started { total_bytes: Some(10) });
    record
}

fn rank(status: &DownloadStatus) -> u8 {
    match status {
        DownloadStatus::Pending => 0,
        DownloadStatus::InProgress => 1,
        DownloadStatus::Completed | DownloadStatus::Failed => 2,
    }
}

#[test]
fn a_new_download_is_pending() {
    assert_eq!(
        pending(),
        DownloadState {
            id: "id-1".to_string(),
            url: "https://example.org/model.gguf".to_string(),
            target_path: "/models/model.gguf".to_string(),
            bytes_downloaded: 0,
            total_bytes: None,
            status: DownloadStatus::Pending,
            error: None,
        }
    );
}

#[test]
fn a_download_runs_from_pending_to_completed() {
    let mut record = pending();
    record.apply(&DownloadEvent::Started { total_bytes: Some(10) });
    assert_eq!(record.status, DownloadStatus::InProgress);
    assert_eq!(record.total_bytes, Some(10));
    record.apply(&DownloadEvent::Progress { downloaded: 4 });
    assert_eq!(record.bytes_downloaded, 4);
    record.apply(&DownloadEvent::Progress { downloaded: 10 });
    assert_eq!(record.bytes_downloaded, 10);
    record.apply(&DownloadEvent::Completed);
    assert_eq!(record.status, DownloadStatus::Completed);
    assert_eq!(record.error, None);
    assert!(record.status.is_terminal());
}

#[test]
fn a_download_can_fail_before_it_begins() {
    let mut record = pending();
    record.apply(&DownloadEvent::Failed { message: "Failed to start download".to_string() });
    assert_eq!(record.status, DownloadStatus::Failed);
    assert_eq!(record.error, Some("Failed to start download".to_string()));
}

#[test]
fn a_download_that_is_over_changes_no_more() {
    let mut completed = in_progress();
    completed.apply(&DownloadEvent::Completed);
    let mut failed = in_progress();
    failed.apply(&DownloadEvent::Failed { message: "boom".to_string() });
    for over in [completed, failed] {
        for event in [
            DownloadEvent::Started { total_bytes: None },
            DownloadEvent::Progress { downloaded: 99 },
            DownloadEvent::Completed,
            DownloadEvent::Failed { message: "late".to_string() },
        ] {
            let mut record = over.clone();
            record.apply(&event);
            assert_eq!(record, over);
        }
    }
}

#[test]
fn the_byte_count_never_falls() {
    let mut record = in_progress();
    record.apply(&DownloadEvent::Progress { downloaded: 8 });
    record.apply(&DownloadEvent::Progress { downloaded: 3 });
    assert_eq!(record.bytes_downloaded, 8);
    record.apply(&DownloadEvent::Progress { downloaded: 8 });
    assert_eq!(record.bytes_downloaded, 8);
    record.apply(&DownloadEvent::Progress { downloaded: u64::MAX });
    assert_eq!(record.bytes_downloaded, u64::MAX);
}

#[test]
fn events_out_of_place_change_nothing() {
    let mut record = pending();
    record.apply(&DownloadEvent::Progress { downloaded: 5 });
    assert_eq!(record, pending());
    record.apply(&DownloadEvent::Completed);
    assert_eq!(record, pending());
    let mut record = in_progress();
    record.apply(&DownloadEvent::Started { total_bytes: Some(99) });
    assert_eq!(record, in_progress());
}

#[test]
fn the_status_only_moves_forward_whatever_events_arrive() {
    let events = [
        DownloadEvent::Started { total_bytes: Some(7) },
        DownloadEvent::Progress { downloaded: 3 },
        DownloadEvent::Completed,
        DownloadEvent::Failed { message: "x".to_string() },
    ];
    for a in 0..4 {
        for b in 0..4 {
            for c in 0..4 {
                for d in 0..4 {
                    let mut record = pending();
                    let mut last_rank = rank(&record.status);
                    let mut last_bytes = record.bytes_downloaded;
                    for k in [a, b, c, d] {
                        let was_terminal = record.status.is_terminal();
                        let before = record.clone();
                        record.apply(&events[k]);
                        assert!(rank(&record.status) >= last_rank);
                        assert!(record.bytes_downloaded >= last_bytes);
                        assert_eq!(record.id, "id-1");
                        if was_terminal {
                            assert_eq!(record, before);
                        }
                        last_rank = rank(&record.status);
                        last_bytes = record.bytes_downloaded;
                    }
                }
            }
        }
    }
}

#[test]
fn chunks_are_counted_without_overflow() {
    assert_eq!(count_chunk(0, 0), Some(0));
    assert_eq!(count_chunk(10, 8192), Some(8202));
    assert_eq!(count_chunk(u64::MAX - 1, 1), Some(u64::MAX));
    assert_eq!(count_chunk(u64::MAX, 1), None);
    assert_eq!(count_chunk(u64::MAX, 0), Some(u64::MAX));
}

#[test]
fn the_digest_of_what_was_written_is_checked() {
    assert_eq!(verify_sha256(b"", EMPTY_DIGEST), Ok(()));
    assert_eq!(verify_sha256(b"abc", ABC_DIGEST), Ok(()));
    assert_eq!(
        verify_sha256(b"abc", EMPTY_DIGEST),
        Err(format!("Checksum mismatch: expected {} but found {}", EMPTY_DIGEST, ABC_DIGEST))
    );
    assert_eq!(
        verify_sha256(b"abc", "abc"),
        Err(format!("Checksum mismatch: expected abc but found {}", ABC_DIGEST))
    );
}

#[test]
fn the_expected_checksum_may_be_written_in_upper_case() {
    let upper = ABC_DIGEST.to_uppercase();
    assert_ne!(upper, ABC_DIGEST);
    assert_eq!(verify_sha256(b"abc", &upper), Ok(()));
    assert_eq!(check_digest(&upper, ABC_DIGEST), Ok(()));
    assert_eq!(check_digest("ABCDEF", "abcdef"), Ok(()));
    assert_eq!(
        check_digest("ABCDEF", "ABCDEF"),
        Err("Checksum mismatch: expected ABCDEF but found ABCDEF".to_string())
    );
}

#[test]
fn a_digest_is_judged_against_the_wanted_one() {
    assert_eq!(judge_digest("AB", "ab", "ab"), Ok(()));
    assert_eq!(
        judge_digest("AB", "ab", "cd"),
        Err("Checksum mismatch: expected AB but found cd".to_string())
    );
    assert_eq!(judge_digest("", "", ""), Ok(()));
}

#[test]
fn a_checksum_mismatch_fails_the_download_and_names_both_digests() {
    let mut record = in_progress();
    record.apply(&DownloadEvent::Progress { downloaded: 3 });
    let event = judge_download(Some(EMPTY_DIGEST), b"abc");
    record.apply(&event);
    assert_eq!(record.status, DownloadStatus::Failed);
    let report = record.error.clone().unwrap();
    assert!(report.contains(EMPTY_DIGEST));
    assert!(report.contains(ABC_DIGEST));
    assert_eq!(
        report,
        format!("Checksum mismatch: expected {} but found {}", EMPTY_DIGEST, ABC_DIGEST)
    );
    assert_eq!(record.target_path, "/models/model.gguf");
    assert_eq!(record.bytes_downloaded, 3);
}

#[test]
fn a_matching_checksum_completes_the_download() {
    let mut record = in_progress();
    record.apply(&judge_download(Some(ABC_DIGEST), b"abc"));
    assert_eq!(record.status, DownloadStatus::Completed);
    assert_eq!(record.error, None);
}

#[test]
fn without_a_checksum_the_file_is_accepted() {
    assert_eq!(judge_download(None, b"anything"), DownloadEvent::Completed);
    let mut record = in_progress();
    record.apply(&judge_download(None, b""));
    assert_eq!(record.status, DownloadStatus::Completed);
}

#[test]
fn the_closing_event_follows_the_verdict() {
    assert_eq!(closing_event(Ok(())), DownloadEvent::Completed);
    assert_eq!(
        closing_event(Err("bad".to_string())),
        DownloadEvent::Failed { message: "bad".to_string() }
    );
}

#[test]
fn task_failures_are_worded() {
    assert_eq!(refused_message("404 Not Found"), "Download failed with status 404 Not Found");
    assert_eq!(download_fault_message(DownloadFault::SendRequest), "Failed to start download");
    assert_eq!(
        download_fault_message(DownloadFault::CreateDirectory),
        "Failed to create model directory"
    );
    assert_eq!(download_fault_message(DownloadFault::CreateFile), "Failed to create download file");
    assert_eq!(download_fault_message(DownloadFault::ReadChunk), "Failed to read download chunk");
    assert_eq!(
        download_fault_message(DownloadFault::WriteChunk),
        "Failed to write to download file"
    );
    assert_eq!(download_fault_message(DownloadFault::Flush), "Failed to flush download file");
    assert_eq!(
        download_fault_message(DownloadFault::OpenForChecksum),
        "Failed to open file for checksum validation"
    );
    assert_eq!(
        download_fault_message(DownloadFault::ReadForChecksum),
        "Failed to read file for checksum"
    );
}

#[test]
fn a_snapshot_is_a_copy() {
    let mut record = in_progress();
    record.apply(&DownloadEvent::Failed { message: "gone".to_string() });
    assert_eq!(record.snapshot(), record);
}

#[test]
fn the_steps_of_a_download_follow_in_order() {
    let request = DownloadStage::Request;
    let open = DownloadStage::OpenTarget;
    let stream = DownloadStage::Stream;
    let flush = DownloadStage::Flush;
    let verify = DownloadStage::Verify;
    assert_eq!(download_next(request, true, false), DownloadNext::Run(open));
    assert_eq!(download_next(open, true, false), DownloadNext::Run(stream));
    assert_eq!(download_next(stream, true, true), DownloadNext::Run(flush));
    assert_eq!(download_next(flush, true, false), DownloadNext::Complete);
    assert_eq!(download_next(flush, true, true), DownloadNext::Run(verify));
    assert_eq!(download_next(verify, true, true), DownloadNext::Complete);
    for stage in [request, open, stream, flush, verify] {
        assert_eq!(download_next(stage, false, true), DownloadNext::Fail);
        assert_eq!(download_next(stage, false, false), DownloadNext::Fail);
    }
}
