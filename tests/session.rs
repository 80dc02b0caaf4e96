use resumable_upload::identity::{FileIdentity, CHUNK_SIZE};
use resumable_upload::session::{
    classify_probe, upload_result, Action, Failure, Phase, ProbeOutcome, UploadSession,
};

const PROBE_1: &str = "http://h:8080/up?resumableChunkNumber=1&resumableFilename=f.bin&resumableIdentifier=";

fn session(total: u64) -> UploadSession {
    UploadSession::new(String::from("http://h:8080/up"), FileIdentity::new(String::from("f.bin"), total))
}

#[test]
fn first_action_probes_chunk_one() {
    let s = session(10);
    match s.next_action() {
        Action::Probe { url, chunk } => {
            assert_eq!(chunk, 1);
            assert_eq!(url, format!("{}10-f.bin", PROBE_1));
        }
        _ => panic!("expected a probe"),
    }
}

#[test]
fn all_chunks_present_finishes_without_result() {
    let total = 2 * CHUNK_SIZE + 5;
    let mut s = session(total);
    let mut probed: Vec<u64> = Vec::new();
    loop {
        match s.next_action() {
            Action::Probe { chunk, .. } => {
                probed.push(chunk);
                s.on_probe(200, String::new());
            }
            Action::Finish { result } => {
                assert!(result.is_none());
                break;
            }
            _ => panic!("unexpected action"),
        }
    }
    assert_eq!(probed, vec![1, 2, 3]);
    assert_eq!(s.sent(), 0);
}

#[test]
fn needed_chunk_is_uploaded_with_its_length() {
    let total = CHUNK_SIZE + 100;
    let mut s = session(total);
    s.on_probe(400, String::from("missing"));
    assert!(s.is_uploading());
    match s.next_action() {
        Action::Upload { url, chunk, length } => {
            assert_eq!(chunk, 1);
            assert_eq!(length, CHUNK_SIZE);
            assert_eq!(
                url,
                format!(
                    "http://h:8080/up?resumableChunkNumber=1&resumableFilename=f.bin&resumableChunkSize=5242880&resumableTotalSize={}&resumableIdentifier={}-f.bin",
                    total, total
                )
            );
        }
        _ => panic!("expected an upload"),
    }
    s.on_upload(200, String::from("ok"));
    assert_eq!(s.sent(), CHUNK_SIZE);
    assert!(s.is_probing());
    s.on_probe(400, String::new());
    match s.next_action() {
        Action::Upload { chunk, length, .. } => {
            assert_eq!(chunk, 2);
            assert_eq!(length, 100);
        }
        _ => panic!("expected an upload"),
    }
}

#[test]
fn skipped_chunk_does_not_advance_bytes() {
    let mut s = session(2 * CHUNK_SIZE + 1);
    s.on_probe(200, String::new());
    s.on_probe(400, String::new());
    match s.next_action() {
        Action::Upload { chunk, length, .. } => {
            assert_eq!(chunk, 2);
            assert_eq!(length, CHUNK_SIZE);
        }
        _ => panic!("expected an upload"),
    }
}

#[test]
fn empty_file_uploads_zero_bytes() {
    let mut s = session(0);
    s.on_probe(400, String::new());
    match s.next_action() {
        Action::Upload { chunk, length, .. } => {
            assert_eq!(chunk, 1);
            assert_eq!(length, 0);
        }
        _ => panic!("expected an upload"),
    }
}

#[test]
fn last_upload_body_is_result() {
    let mut s = session(3);
    s.on_probe(400, String::new());
    s.on_upload(200, String::from("file-ref-42"));
    match s.next_action() {
        Action::Finish { result } => assert_eq!(result, Some(String::from("file-ref-42"))),
        _ => panic!("expected the end"),
    }
    assert_eq!(s.sent(), 3);
}

#[test]
fn unexpected_probe_status_aborts_with_body() {
    let mut s = session(3 * CHUNK_SIZE);
    s.on_probe(200, String::new());
    s.on_probe(500, String::from("boom"));
    assert!(!s.is_probing() && !s.is_uploading());
    match s.phase() {
        Phase::Failed(e) => assert_eq!(e.message(), "boom"),
        _ => panic!("expected a failure"),
    }
    match s.next_action() {
        Action::Abort { error: Failure::Rejected(e) } => assert_eq!(e.message(), "boom"),
        _ => panic!("expected an abort"),
    }
}

#[test]
fn rejected_upload_aborts_with_body() {
    let mut s = session(3 * CHUNK_SIZE);
    s.on_probe(400, String::new());
    s.on_upload(413, String::from("too large"));
    match s.next_action() {
        Action::Abort { error: Failure::Rejected(e) } => assert_eq!(e.message(), "too large"),
        _ => panic!("expected an abort"),
    }
    assert_eq!(s.sent(), 0);
}

#[test]
fn endpoint_that_is_no_url_aborts() {
    let s = UploadSession::new(String::from("not a url"), FileIdentity::new(String::from("f"), 1));
    match s.next_action() {
        Action::Abort { error: Failure::InvalidUrl(u) } => assert!(u.starts_with("not a url?")),
        _ => panic!("expected an abort"),
    }
}

#[test]
fn probe_statuses_are_classified() {
    assert!(matches!(classify_probe(200, String::new()), ProbeOutcome::Exists));
    assert!(matches!(classify_probe(400, String::new()), ProbeOutcome::NeedsUpload));
    match classify_probe(404, String::from("gone")) {
        ProbeOutcome::Fatal(e) => assert_eq!(e.message(), "gone"),
        _ => panic!("expected a fatal outcome"),
    }
}

#[test]
fn upload_statuses_are_interpreted() {
    assert_eq!(upload_result(200, String::from("ref")).ok(), Some(String::from("ref")));
    assert_eq!(upload_result(201, String::from("odd")).err().unwrap().message(), "odd");
}
