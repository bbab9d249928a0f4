use smolvm::layers::{ImageInfo, StoreError};
use smolvm::protocol::{
    connect_retry, failure_code, images_result, overlay_result, status_result, ping_result, query_result, respond_cleanup, respond_query,
    run_result, unit_result, is_terminal, new_session, validate_request, AgentRequest,
    AgentResponse, ClientError, ErrorCode, RetryStep, SessionAction, SessionEvent,
    PROTOCOL_VERSION,
};

fn code_of(r: &AgentResponse) -> Option<ErrorCode> {
    match r {
        AgentResponse::Error { code, .. } => *code,
        _ => None,
    }
}

#[test]
fn ping_answered_with_version() {
    let mut s = new_session(64 * 1024 * 1024);
    match s.step(SessionEvent::Header([0, 0, 0, 0x0F])) {
        SessionAction::ReadPayload(n) => assert_eq!(n, 15),
        other => panic!("unexpected {:?}", other),
    }
    match s.step(SessionEvent::Parsed(AgentRequest::Ping)) {
        SessionAction::Dispatch(AgentRequest::Ping) => {}
        other => panic!("unexpected {:?}", other),
    }
    assert_eq!(PROTOCOL_VERSION, 1);
    assert_eq!(ping_result(AgentResponse::Pong { version: 1 }).unwrap(), 1);
}

#[test]
fn invalid_image_keeps_connection() {
    let mut s = new_session(64 * 1024 * 1024);
    let req = AgentRequest::Pull { image: "alpine; rm -rf /".to_string(), platform: None };
    match s.step(SessionEvent::Parsed(req)) {
        SessionAction::Reply(r) => assert_eq!(code_of(&r), Some(ErrorCode::InvalidRequest)),
        other => panic!("unexpected {:?}", other),
    }
    assert!(s.open);
    assert!(matches!(s.step(SessionEvent::Parsed(AgentRequest::Ping)), SessionAction::Dispatch(_)));
}

#[test]
fn oversize_frame_answered_and_session_stays_open() {
    let mut s = new_session(64 * 1024 * 1024);
    match s.step(SessionEvent::Header([0xFF, 0xFF, 0xFF, 0xFF])) {
        SessionAction::Reply(r) => assert_eq!(code_of(&r), Some(ErrorCode::InvalidRequest)),
        other => panic!("unexpected {:?}", other),
    }
    assert!(s.open);
    match s.step(SessionEvent::Unparsable("expected value".to_string())) {
        SessionAction::Reply(r) => assert_eq!(code_of(&r), Some(ErrorCode::InvalidRequest)),
        other => panic!("unexpected {:?}", other),
    }
    assert!(s.open);
    assert!(matches!(s.step(SessionEvent::IoFailed), SessionAction::Close));
    assert!(!s.open);
}

#[test]
fn empty_run_command_is_invalid() {
    let req = AgentRequest::Run {
        image: "alpine:3.18".to_string(),
        command: vec![],
        env: vec![],
        workdir: None,
        mounts: vec![],
    };
    let r = validate_request(&req).unwrap();
    assert_eq!(code_of(&r), Some(ErrorCode::InvalidRequest));
    let ok = AgentRequest::Run {
        image: "alpine:3.18".to_string(),
        command: vec!["/bin/echo".to_string(), "hello".to_string()],
        env: vec![],
        workdir: None,
        mounts: vec![],
    };
    assert!(validate_request(&ok).is_none());
}

#[test]
fn workload_ids_validated() {
    for bad in ["", ".", "..", "a/b"] {
        let req = AgentRequest::CleanupOverlay { workload_id: bad.to_string() };
        assert!(validate_request(&req).is_some(), "{:?}", bad);
    }
    let req = AgentRequest::CleanupOverlay { workload_id: "w1".to_string() };
    assert!(validate_request(&req).is_none());
}

#[test]
fn shutdown_acknowledged_then_exit() {
    let mut s = new_session(1024);
    assert!(matches!(
        s.step(SessionEvent::Parsed(AgentRequest::Shutdown)),
        SessionAction::ReplyAndExit(AgentResponse::ShuttingDown)
    ));
    assert!(!s.open);
}

#[test]
fn error_codes_and_responses() {
    assert_eq!(ErrorCode::InvalidRequest.as_str(), "INVALID_REQUEST");
    assert_eq!(ErrorCode::RunFailed.as_str(), "RUN_FAILED");
    assert_eq!(ErrorCode::NotFound.as_str(), "NOT_FOUND");
    assert_eq!(code_of(&respond_cleanup(Err(StoreError::OverlayNotFound))), Some(ErrorCode::NotFound));
    assert!(matches!(respond_cleanup(Ok(())), AgentResponse::Done));
    assert_eq!(code_of(&respond_query(None)), Some(ErrorCode::NotFound));
    assert_eq!(failure_code(&AgentRequest::ListImages), ErrorCode::ListFailed);
    assert_eq!(failure_code(&AgentRequest::GarbageCollect { dry_run: true }), ErrorCode::GcFailed);
}

#[test]
fn client_interprets_responses() {
    let info = ImageInfo {
        reference: "a".to_string(),
        digest: "d".to_string(),
        size: 1,
        architecture: "arm64".to_string(),
        os: "linux".to_string(),
        layer_count: 1,
    };
    assert!(query_result(AgentResponse::Image(info)).unwrap().is_some());
    let nf = AgentResponse::Error { message: "x".to_string(), code: Some(ErrorCode::NotFound) };
    assert!(query_result(nf).unwrap().is_none());
    let other = AgentResponse::Error { message: "boom".to_string(), code: Some(ErrorCode::QueryFailed) };
    assert!(matches!(query_result(other), Err(ClientError::Agent { .. })));
    let done = AgentResponse::Completed { exit_code: 0, stdout: "hello\n".to_string(), stderr: String::new() };
    assert_eq!(run_result(done).unwrap(), (0, "hello\n".to_string(), String::new()));
    assert!(matches!(run_result(AgentResponse::Done), Err(ClientError::Unexpected)));
    assert!(unit_result(AgentResponse::ShuttingDown).is_ok());
    let progress = AgentResponse::Progress { percent: 50, total: 10, layer: "l".to_string() };
    assert!(!is_terminal(&progress));
    assert!(is_terminal(&AgentResponse::Done));
    assert!(images_result(AgentResponse::Images(vec![])).unwrap().is_empty());
    assert!(matches!(images_result(AgentResponse::Done), Err(ClientError::Unexpected)));
    let overlay = smolvm::layers::OverlayInfo {
        rootfs_path: "/storage/overlays/w/merged".to_string(),
        bundle_path: "/storage/overlays/w/bundle".to_string(),
        layers: vec!["l1".to_string()],
    };
    assert_eq!(overlay_result(AgentResponse::Overlay(overlay)).unwrap().layers, vec!["l1".to_string()]);
    let failed = AgentResponse::Error { message: "m".to_string(), code: Some(ErrorCode::OverlayFailed) };
    assert!(matches!(overlay_result(failed), Err(ClientError::Agent { code: Some(ErrorCode::OverlayFailed), .. })));
    let st = smolvm::layers::StorageStatus { total_bytes: 10, used_bytes: 4, layer_count: 2, image_count: 1 };
    assert_eq!(status_result(AgentResponse::Status(st)).unwrap(), st);
}

#[test]
fn connect_backoff_schedule() {
    assert_eq!(connect_retry(0, 0, 30000), RetryStep::Wait(50));
    assert_eq!(connect_retry(50, 50, 30000), RetryStep::Wait(100));
    assert_eq!(connect_retry(1000, 1600, 30000), RetryStep::Wait(2000));
    assert_eq!(connect_retry(1000, 2000, 30000), RetryStep::Wait(2000));
    assert_eq!(connect_retry(29990, 2000, 30000), RetryStep::Wait(10));
    assert_eq!(connect_retry(30000, 2000, 30000), RetryStep::GiveUp);
}
