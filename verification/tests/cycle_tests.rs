use filelist_sync::compress::decompress_payload;
use filelist_sync::cycle::{file_step, FileAction, FileEvent, FileOutcome, FileState};

fn done_outcome(s: &FileState) -> FileOutcome {
    match s {
        FileState::Done { outcome } => *outcome,
        _ => panic!("state is not terminal"),
    }
}

#[test]
fn in_use_file_is_never_touched() {
    let (s, a) = file_step(
        FileState::Start,
        FileEvent::Observed {
            name: Some("x_org1_logs_2023-10-01_13_abc".to_string()),
            in_use: true,
        },
    );
    assert!(matches!(a, FileAction::NoAction));
    assert_eq!(done_outcome(&s), FileOutcome::SkippedInUse);
    let (s2, a2) = file_step(s, FileEvent::UploadResult { ok: true });
    assert!(matches!(a2, FileAction::NoAction));
    assert_eq!(done_outcome(&s2), FileOutcome::SkippedInUse);
}

#[test]
fn empty_manifest_is_deleted_and_never_uploaded() {
    let (s, a) = file_step(
        FileState::AwaitContents { name: "x_org1_logs_2023-10-01_13_abc".to_string() },
        FileEvent::Contents { bytes: Vec::new() },
    );
    assert!(matches!(a, FileAction::DeleteLocal));
    assert_eq!(done_outcome(&s), FileOutcome::RemovedEmpty);
}

#[test]
fn successful_upload_ends_in_local_delete() {
    let (s, a) = file_step(
        FileState::Start,
        FileEvent::Observed {
            name: Some("x_org1_logs_2023-10-01_13_abc".to_string()),
            in_use: false,
        },
    );
    assert!(matches!(a, FileAction::ReadFile));
    let bytes: Vec<u8> = b"{\"files\":[]}".to_vec();
    let (s, a) = file_step(s, FileEvent::Contents { bytes: bytes.clone() });
    let (key, payload) = match a {
        FileAction::Upload { key, payload } => (key, payload),
        _ => panic!("expected an upload action"),
    };
    assert_eq!(key, "file_list/org1/logs/2023-10-01/13/abc.zst");
    assert_eq!(decompress_payload(&payload).unwrap(), bytes);
    assert!(matches!(s, FileState::AwaitUpload));
    let (s, a) = file_step(s, FileEvent::UploadResult { ok: true });
    assert!(matches!(a, FileAction::DeleteLocal));
    assert_eq!(done_outcome(&s), FileOutcome::UploadedAndRemoved);
}

#[test]
fn failed_upload_retains_file_and_retry_hits_same_object() {
    let name = "x_org1_logs_2023-10-01_13_abc".to_string();
    let bytes: Vec<u8> = b"{\"files\":[\"a.parquet\"]}".to_vec();

    let (s, a) = file_step(
        FileState::AwaitContents { name: name.clone() },
        FileEvent::Contents { bytes: bytes.clone() },
    );
    let (key1, payload1) = match a {
        FileAction::Upload { key, payload } => (key, payload),
        _ => panic!("expected an upload action"),
    };
    let (s, a) = file_step(s, FileEvent::UploadResult { ok: false });
    assert!(matches!(a, FileAction::NoAction));
    assert_eq!(done_outcome(&s), FileOutcome::UploadFailedRetained);

    let (s, a) = file_step(
        FileState::AwaitContents { name },
        FileEvent::Contents { bytes: bytes.clone() },
    );
    let (key2, payload2) = match a {
        FileAction::Upload { key, payload } => (key, payload),
        _ => panic!("expected an upload action"),
    };
    assert_eq!(key1, key2);
    assert_eq!(decompress_payload(&payload1).unwrap(), decompress_payload(&payload2).unwrap());
    let (s, a) = file_step(s, FileEvent::UploadResult { ok: true });
    assert!(matches!(a, FileAction::DeleteLocal));
    assert_eq!(done_outcome(&s), FileOutcome::UploadedAndRemoved);
}

#[test]
fn unparsable_base_name_is_skipped_untouched() {
    let (s, a) = file_step(FileState::Start, FileEvent::Observed { name: None, in_use: false });
    assert!(matches!(a, FileAction::NoAction));
    assert_eq!(done_outcome(&s), FileOutcome::SkippedUnparsable);
}

#[test]
fn short_name_is_skipped_not_deleted() {
    let (s, a) = file_step(
        FileState::AwaitContents { name: "a_b".to_string() },
        FileEvent::Contents { bytes: b"data".to_vec() },
    );
    assert!(matches!(a, FileAction::NoAction));
    assert_eq!(done_outcome(&s), FileOutcome::SkippedUnparsable);
}
