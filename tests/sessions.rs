use limelightctl::download::DownloadAction;
use limelightctl::download::DownloadEvent;
use limelightctl::download::DownloadSession;
use limelightctl::error::ErrorKind;
use limelightctl::error::FormatError;
use limelightctl::error::SyncError;
use limelightctl::error::Target;
use limelightctl::outcome::Outcome;
use limelightctl::outcome::SkipReason;
use limelightctl::resource::ResourceId;
use limelightctl::status::render_status;
use limelightctl::upload::UploadAction;
use limelightctl::upload::UploadEvent;
use limelightctl::upload::UploadSession;
use std::collections::BTreeMap;

/// Drives an upload over a local tree held in memory; returns the posts made,
/// the outcomes and the final action.
fn run_upload(
    files: &BTreeMap<String, Vec<u8>>,
    failing_post: Option<ResourceId>,
) -> (Vec<(ResourceId, Vec<u8>)>, Vec<Outcome>, UploadAction) {
    let (mut s, mut a) = UploadSession::begin();
    let mut posts = Vec::new();
    loop {
        let ev = match &a {
            UploadAction::Load(id) => match files.get(&id.disk_relpath()) {
                Some(b) => UploadEvent::Loaded(b.clone()),
                None => UploadEvent::Missing,
            },
            UploadAction::Post(id, body) => {
                if Some(*id) == failing_post {
                    UploadEvent::PostFailed
                } else {
                    posts.push((*id, body.clone()));
                    UploadEvent::Posted
                }
            }
            UploadAction::Finish | UploadAction::Abort(_) => break,
        };
        assert!(s.accepts(&ev));
        a = s.step(ev);
    }
    assert!(s.is_stopped());
    (posts, s.outcomes().clone(), a)
}

#[test]
fn upload_skips_everything_but_the_present_pipeline() {
    let mut files = BTreeMap::new();
    files.insert("pipelines/3.toml".to_string(), b"desc = \"three\"\n".to_vec());
    let (posts, outcomes, last) = run_upload(&files, None);
    assert!(matches!(last, UploadAction::Finish));
    assert_eq!(posts.len(), 1);
    assert_eq!(posts[0].0, ResourceId::Pipeline(3));
    let v: serde_json::Value = serde_json::from_slice(&posts[0].1).unwrap();
    assert_eq!(v["desc"], serde_json::Value::String("three".to_string()));
    assert_eq!(outcomes.len(), 30);
    let uploaded: Vec<&Outcome> = outcomes.iter().filter(|o| matches!(o, Outcome::Uploaded(_))).collect();
    assert_eq!(uploaded, vec![&Outcome::Uploaded(ResourceId::Pipeline(3))]);
    let skipped = outcomes
        .iter()
        .filter(|o| matches!(o, Outcome::Skipped(_, SkipReason::NotFound)))
        .count();
    assert_eq!(skipped, 29);
    assert_eq!(outcomes[0], Outcome::Skipped(ResourceId::Pipeline(0), SkipReason::NotFound));
    assert_eq!(outcomes[1], Outcome::Skipped(ResourceId::DetectorModel(0), SkipReason::NotFound));
    assert_eq!(outcomes[2], Outcome::Skipped(ResourceId::DetectorLabels(0), SkipReason::NotFound));
    assert_eq!(outcomes[9], Outcome::Uploaded(ResourceId::Pipeline(3)));
    assert_eq!(outcomes[29], Outcome::Skipped(ResourceId::DetectorLabels(9), SkipReason::NotFound));
}

#[test]
fn upload_sends_detector_bytes_unchanged() {
    let mut files = BTreeMap::new();
    files.insert("detectors/2.model.tflite".to_string(), vec![1, 2, 255]);
    files.insert("detectors/2.labels.txt".to_string(), b"cone\ncube\n".to_vec());
    let (posts, outcomes, last) = run_upload(&files, None);
    assert!(matches!(last, UploadAction::Finish));
    assert_eq!(
        posts,
        vec![
            (ResourceId::DetectorModel(2), vec![1, 2, 255]),
            (ResourceId::DetectorLabels(2), b"cone\ncube\n".to_vec()),
        ]
    );
    assert_eq!(outcomes.len(), 30);
}

#[test]
fn upload_stops_at_failed_post() {
    let mut files = BTreeMap::new();
    files.insert("pipelines/1.toml".to_string(), b"a = 1\n".to_vec());
    files.insert("pipelines/2.toml".to_string(), b"a = 2\n".to_vec());
    let (posts, outcomes, last) = run_upload(&files, Some(ResourceId::Pipeline(1)));
    assert!(posts.is_empty());
    assert_eq!(outcomes.len(), 3);
    match last {
        UploadAction::Abort(e) => assert_eq!(e, SyncError::about(ErrorKind::Transport, ResourceId::Pipeline(1))),
        _ => panic!("run did not abort"),
    }
}

#[test]
fn upload_stops_at_malformed_pipeline() {
    let mut files = BTreeMap::new();
    files.insert("pipelines/0.toml".to_string(), b"= broken".to_vec());
    let (posts, outcomes, last) = run_upload(&files, None);
    assert!(posts.is_empty());
    assert!(outcomes.is_empty());
    match last {
        UploadAction::Abort(e) => assert_eq!(
            e,
            SyncError::about(ErrorKind::Format(FormatError::BadToml), ResourceId::Pipeline(0))
        ),
        _ => panic!("run did not abort"),
    }
}

#[test]
fn upload_stops_at_unreadable_file() {
    let (mut s, a) = UploadSession::begin();
    assert!(matches!(a, UploadAction::Load(ResourceId::Pipeline(0))));
    let a = s.step(UploadEvent::Missing);
    assert!(matches!(a, UploadAction::Load(ResourceId::DetectorModel(0))));
    match s.step(UploadEvent::LoadFailed) {
        UploadAction::Abort(e) => assert_eq!(e, SyncError::about(ErrorKind::Io, ResourceId::DetectorModel(0))),
        _ => panic!("run did not abort"),
    }
    assert!(!s.accepts(&UploadEvent::Missing));
}

#[test]
fn download_fails_fast_on_transport_error() {
    let (mut s, a) = DownloadSession::begin(vec![4, 8]);
    let mut written = Vec::new();
    assert!(matches!(a, DownloadAction::Fetch(ResourceId::Pipeline(4))));
    let a = s.step(DownloadEvent::Received(br#"{"desc":"four"}"#.to_vec()));
    match &a {
        DownloadAction::Store(id, body) => written.push((id.disk_relpath(), body.clone())),
        _ => panic!("expected a write"),
    }
    let a = s.step(DownloadEvent::Stored);
    assert!(matches!(a, DownloadAction::Fetch(ResourceId::Pipeline(8))));
    let a = s.step(DownloadEvent::FetchFailed);
    assert_eq!(written.len(), 1);
    assert_eq!(written[0].0, "pipelines/4.toml");
    assert_eq!(String::from_utf8(written[0].1.clone()).unwrap(), "desc = \"four\"\n");
    match a {
        DownloadAction::Abort(e) => {
            assert_eq!(e.kind, ErrorKind::Transport);
            assert_eq!(e.target, Target::Resource(ResourceId::Pipeline(8)));
        }
        _ => panic!("run did not abort"),
    }
    assert_eq!(s.outcomes(), &vec![Outcome::Fetched(ResourceId::Pipeline(4))]);
    assert!(s.is_stopped());
}

#[test]
fn download_of_absent_slot_is_an_error() {
    let (mut s, _) = DownloadSession::begin(vec![6]);
    match s.step(DownloadEvent::Absent) {
        DownloadAction::Abort(e) => assert_eq!(e, SyncError::about(ErrorKind::NotFound, ResourceId::Pipeline(6))),
        _ => panic!("run did not abort"),
    }
}

#[test]
fn download_rejects_malformed_json_and_write_failure() {
    let (mut s, _) = DownloadSession::begin(vec![1]);
    match s.step(DownloadEvent::Received(b"{".to_vec())) {
        DownloadAction::Abort(e) => assert_eq!(
            e,
            SyncError::about(ErrorKind::Format(FormatError::BadJson), ResourceId::Pipeline(1))
        ),
        _ => panic!("run did not abort"),
    }
    let (mut s, _) = DownloadSession::begin(vec![1]);
    assert!(matches!(s.step(DownloadEvent::Received(b"{}".to_vec())), DownloadAction::Store(..)));
    match s.step(DownloadEvent::StoreFailed) {
        DownloadAction::Abort(e) => assert_eq!(e, SyncError::about(ErrorKind::Io, ResourceId::Pipeline(1))),
        _ => panic!("run did not abort"),
    }
}

#[test]
fn download_of_nothing_finishes_at_once() {
    let (s, a) = DownloadSession::begin(Vec::new());
    assert!(matches!(a, DownloadAction::Finish));
    assert!(s.is_stopped());
    assert!(s.outcomes().is_empty());
}

#[test]
fn download_all_requested_in_order() {
    let (mut s, mut a) = DownloadSession::begin(vec![2, 0, 2]);
    let mut fetched = Vec::new();
    loop {
        a = match a {
            DownloadAction::Fetch(id) => {
                fetched.push(id);
                s.step(DownloadEvent::Received(b"{\"k\":1}".to_vec()))
            }
            DownloadAction::Store(..) => s.step(DownloadEvent::Stored),
            DownloadAction::Finish => break,
            DownloadAction::Abort(e) => panic!("{:?}", e),
        };
    }
    assert_eq!(fetched, vec![ResourceId::Pipeline(2), ResourceId::Pipeline(0), ResourceId::Pipeline(2)]);
    assert_eq!(s.outcomes().len(), 3);
}

#[test]
fn status_is_handed_on_unchanged() {
    let body = br#"{"mock":true,"num_pipelines":2,"Odd Key":{"a":[1,2]}}"#;
    let orig: serde_json::Value = serde_json::from_slice(body).unwrap();
    let shown = render_status(body).unwrap();
    let again: serde_json::Value = serde_json::from_slice(&shown).unwrap();
    assert_eq!(again, orig);
    assert_ne!(shown, body.to_vec());
    assert!(String::from_utf8(shown).unwrap().contains("\"Odd Key\""));
}

#[test]
fn status_rejects_malformed_json() {
    let e = SyncError { kind: ErrorKind::Format(FormatError::BadJson), target: Target::Status };
    assert_eq!(render_status(b"not json").unwrap_err(), e);
    assert_eq!(render_status(b"").unwrap_err(), e);
}
