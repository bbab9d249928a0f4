//! The host/guest control protocol: requests, responses, the closed set of
//! error codes, validation before dispatch, and the agent's per-connection
//! session, which decides from each framing or parsing event what to do next.

use vstd::prelude::*;
use crate::layers::{ImageInfo, OverlayInfo, StorageStatus};
use crate::frame::{be_u32, check_header, FrameError};
use crate::layers::StoreError;
use crate::oci::{env_ok, image_ref_ok, validate_env_vars, validate_image_reference};

verus! {

/// Version of the protocol, exchanged in `Pong`.
pub const PROTOCOL_VERSION: u32 = 1;

/// The agent's well-known vsock control port.
pub const AGENT_CONTROL_PORT: u32 = 6000;

/// Error codes carried by `AgentResponse::Error`.
#[derive(Debug, Clone, Copy, PartialEq, Eq, Structural)]
pub enum ErrorCode {
    InvalidRequest,
    NotFound,
    PullFailed,
    QueryFailed,
    ListFailed,
    GcFailed,
    OverlayFailed,
    CleanupFailed,
    FormatFailed,
    StatusFailed,
    RunFailed,
}

pub open spec fn code_text(c: ErrorCode) -> Seq<char> {
    match c {
        ErrorCode::InvalidRequest => "INVALID_REQUEST"@,
        ErrorCode::NotFound => "NOT_FOUND"@,
        ErrorCode::PullFailed => "PULL_FAILED"@,
        ErrorCode::QueryFailed => "QUERY_FAILED"@,
        ErrorCode::ListFailed => "LIST_FAILED"@,
        ErrorCode::GcFailed => "GC_FAILED"@,
        ErrorCode::OverlayFailed => "OVERLAY_FAILED"@,
        ErrorCode::CleanupFailed => "CLEANUP_FAILED"@,
        ErrorCode::FormatFailed => "FORMAT_FAILED"@,
        ErrorCode::StatusFailed => "STATUS_FAILED"@,
        ErrorCode::RunFailed => "RUN_FAILED"@,
    }
}

impl ErrorCode {
    /// The code as it appears on the wire.
    pub fn as_str(&self) -> (r: &'static str)
        ensures
            r@ == code_text(*self),
    {
        match self {
            ErrorCode::InvalidRequest => "INVALID_REQUEST",
            ErrorCode::NotFound => "NOT_FOUND",
            ErrorCode::PullFailed => "PULL_FAILED",
            ErrorCode::QueryFailed => "QUERY_FAILED",
            ErrorCode::ListFailed => "LIST_FAILED",
            ErrorCode::GcFailed => "GC_FAILED",
            ErrorCode::OverlayFailed => "OVERLAY_FAILED",
            ErrorCode::CleanupFailed => "CLEANUP_FAILED",
            ErrorCode::FormatFailed => "FORMAT_FAILED",
            ErrorCode::StatusFailed => "STATUS_FAILED",
            ErrorCode::RunFailed => "RUN_FAILED",
        }
    }
}

/// A request from the host to the agent.
#[derive(Debug, Clone)]
pub enum AgentRequest {
    Ping,
    Pull { image: String, platform: Option<String> },
    Query { image: String },
    ListImages,
    GarbageCollect { dry_run: bool },
    PrepareOverlay { image: String, workload_id: String },
    CleanupOverlay { workload_id: String },
    FormatStorage,
    StorageStatus,
    Run {
        image: String,
        command: Vec<String>,
        env: Vec<(String, String)>,
        workdir: Option<String>,
        mounts: Vec<(String, String, bool)>,
    },
    Shutdown,
}

/// A response from the agent.
#[derive(Debug, Clone)]
pub enum AgentResponse {
    /// Success without data (cleanup, format).
    Done,
    /// Success of a shutdown request: the agent leaves its accept loop.
    ShuttingDown,
    Pong { version: u32 },
    Image(ImageInfo),
    Images(Vec<ImageInfo>),
    Collected { freed_bytes: u64, dry_run: bool },
    Overlay(OverlayInfo),
    Status(StorageStatus),
    Completed { exit_code: i32, stdout: String, stderr: String },
    /// Progress of a pull; zero or more precede the pull's final response.
    Progress { percent: u8, total: u64, layer: String },
    Error { message: String, code: Option<ErrorCode> },
}

/// A workload id names one directory under `/storage/overlays`: it is not
/// empty, is not `.` or `..`, and holds no `/` or NUL.
pub open spec fn workload_id_ok(w: Seq<char>) -> bool {
    &&& w.len() > 0
    &&& w != "."@
    &&& w != ".."@
    &&& forall|i: int| 0 <= i < w.len() ==> #[trigger] w[i] != '/' && w[i] != '\0'
}

/// A request that passes validation before dispatch.
pub open spec fn request_ok(req: AgentRequest) -> bool {
    match req {
        AgentRequest::Pull { image, .. } => image_ref_ok(image@),
        AgentRequest::Query { image } => image_ref_ok(image@),
        AgentRequest::PrepareOverlay { image, workload_id } => image_ref_ok(image@) && workload_id_ok(
            workload_id@,
        ),
        AgentRequest::CleanupOverlay { workload_id } => workload_id_ok(workload_id@),
        AgentRequest::Run { image, command, env, .. } => image_ref_ok(image@) && command@.len() > 0
            && env_ok(env@),
        _ => true,
    }
}

/// An `Error` response with the given code.
pub open spec fn is_error_with(r: AgentResponse, c: ErrorCode) -> bool {
    match r {
        AgentResponse::Error { code, .. } => code == Some(c),
        _ => false,
    }
}

/// Validate a workload id: one non-empty path component, not `.` or `..`.
pub fn validate_workload_id(w: &str) -> (r: Result<(), String>)
    ensures
        r is Ok <==> workload_id_ok(w@),
{
    let n = w.unicode_len();
    if n == 0 {
        return Err("workload id cannot be empty".to_string());
    }
    if n <= 2 {
        let a = w.get_char(0);
        if n == 1 && a == '.' {
            proof {
                reveal_strlit(".");
                assert(w@ =~= "."@);
            }
            return Err("workload id cannot be a relative path component".to_string());
        }
        if n == 2 && a == '.' && w.get_char(1) == '.' {
            proof {
                reveal_strlit("..");
                assert(w@ =~= ".."@);
            }
            return Err("workload id cannot be a relative path component".to_string());
        }
    }
    proof {
        reveal_strlit(".");
        reveal_strlit("..");
    }
    let mut i: usize = 0;
    while i < n
        invariant
            n == w@.len(),
            0 <= i <= n,
            forall|j: int| 0 <= j < i ==> #[trigger] w@[j] != '/' && w@[j] != '\0',
        decreases n - i,
    {
        let c = w.get_char(i);
        if c == '/' || c == '\0' {
            return Err("workload id cannot contain a path separator".to_string());
        }
        i = i + 1;
    }
    proof {
        if n == 1 {
            assert(w@[0] != '.');
            assert(w@ != "."@);
        }
        if n == 2 {
            assert(!(w@[0] == '.' && w@[1] == '.'));
            assert(w@ != ".."@);
        }
    }
    Ok(())
}

fn invalid(message: String) -> (r: AgentResponse)
    ensures
        is_error_with(r, ErrorCode::InvalidRequest),
{
    AgentResponse::Error { message, code: Some(ErrorCode::InvalidRequest) }
}

/// Validate a request before dispatch: `None` when it may be dispatched,
/// otherwise the `INVALID_REQUEST` error to send back.
pub fn validate_request(req: &AgentRequest) -> (r: Option<AgentResponse>)
    ensures
        r is None <==> request_ok(*req),
        r is Some ==> is_error_with(r->Some_0, ErrorCode::InvalidRequest),
{
    match req {
        AgentRequest::Pull { image, .. } | AgentRequest::Query { image } => {
            match validate_image_reference(image.as_str()) {
                Ok(()) => None,
                Err(e) => Some(invalid(e)),
            }
        },
        AgentRequest::PrepareOverlay { image, workload_id } => {
            if let Err(e) = validate_image_reference(image.as_str()) {
                return Some(invalid(e));
            }
            match validate_workload_id(workload_id.as_str()) {
                Ok(()) => None,
                Err(e) => Some(invalid(e)),
            }
        },
        AgentRequest::CleanupOverlay { workload_id } => {
            match validate_workload_id(workload_id.as_str()) {
                Ok(()) => None,
                Err(e) => Some(invalid(e)),
            }
        },
        AgentRequest::Run { image, command, env, .. } => {
            if command.len() == 0 {
                return Some(invalid("command cannot be empty".to_string()));
            }
            if let Err(e) = validate_image_reference(image.as_str()) {
                return Some(invalid(e));
            }
            match validate_env_vars(env.as_slice()) {
                Ok(()) => None,
                Err(e) => Some(invalid(e)),
            }
        },
        _ => None,
    }
}

/// What the agent's connection loop hands to the session.
#[derive(Debug, Clone)]
pub enum SessionEvent {
    /// A frame header was read.
    Header([u8; 4]),
    /// A payload was read and parsed into a request.
    Parsed(AgentRequest),
    /// A payload was read but is not a request this agent knows.
    Unparsable(String),
    /// The peer closed the stream between frames.
    Closed,
    /// Reading or writing failed.
    IoFailed,
}

/// What the connection loop does next.
#[derive(Debug, Clone)]
pub enum SessionAction {
    /// Read exactly this many payload bytes.
    ReadPayload(usize),
    /// Send this response and wait for the next header.
    Reply(AgentResponse),
    /// Run the request's handler, send its response, and wait for the next header.
    Dispatch(AgentRequest),
    /// Send this response, then leave the accept loop.
    ReplyAndExit(AgentResponse),
    /// Drop the connection.
    Close,
}

/// The agent's state for one connection.
#[derive(Debug, Clone, Copy, PartialEq, Eq, Structural)]
pub struct Session {
    /// The connection is being served.
    pub open: bool,
    /// Largest payload accepted, in bytes.
    pub max_frame: u32,
}

/// A session with the given payload ceiling.
pub fn new_session(max_frame: u32) -> (r: Session)
    ensures
        r.open,
        r.max_frame == max_frame,
{
    Session { open: true, max_frame }
}

impl Session {
    /// Decide what follows an event. An oversized header, an unparsable
    /// payload and an invalid request are answered with `INVALID_REQUEST`
    /// and the connection stays open; an I/O error or end of stream closes it;
    /// `Shutdown` is acknowledged before the agent exits.
    pub fn step(&mut self, ev: SessionEvent) -> (r: SessionAction)
        requires
            old(self).open,
        ensures
            final(self).max_frame == old(self).max_frame,
            match ev {
                SessionEvent::Header(h) => {
                    let n = be_u32(h@[0], h@[1], h@[2], h@[3]);
                    final(self).open && if n > old(self).max_frame {
                        r is Reply && is_error_with(r->Reply_0, ErrorCode::InvalidRequest)
                    } else {
                        r == SessionAction::ReadPayload(n as usize)
                    }
                },
                SessionEvent::Parsed(req) => {
                    if req is Shutdown {
                        !final(self).open && r is ReplyAndExit && r->ReplyAndExit_0 is ShuttingDown
                    } else if request_ok(req) {
                        final(self).open && r is Dispatch
                    } else {
                        final(self).open && r is Reply && is_error_with(r->Reply_0, ErrorCode::InvalidRequest)
                    }
                },
                SessionEvent::Unparsable(_) => final(self).open && r is Reply && is_error_with(
                    r->Reply_0,
                    ErrorCode::InvalidRequest,
                ),
                SessionEvent::Closed => !final(self).open && r is Close,
                SessionEvent::IoFailed => !final(self).open && r is Close,
            },
            r is Dispatch ==> ev is Parsed && r->Dispatch_0 == ev->Parsed_0,
    {
        match ev {
            SessionEvent::Header(h) => {
                match check_header(h, self.max_frame) {
                    Ok(n) => SessionAction::ReadPayload(n),
                    Err(FrameError::FrameTooLarge { .. }) => SessionAction::Reply(
                        invalid("frame exceeds the size limit".to_string()),
                    ),
                }
            },
            SessionEvent::Parsed(req) => {
                if let AgentRequest::Shutdown = req {
                    self.open = false;
                    return SessionAction::ReplyAndExit(AgentResponse::ShuttingDown);
                }
                match validate_request(&req) {
                    None => SessionAction::Dispatch(req),
                    Some(err) => SessionAction::Reply(err),
                }
            },
            SessionEvent::Unparsable(detail) => {
                SessionAction::Reply(invalid("invalid request: ".to_string().concat(detail.as_str())))
            },
            SessionEvent::Closed => {
                self.open = false;
                SessionAction::Close
            },
            SessionEvent::IoFailed => {
                self.open = false;
                SessionAction::Close
            },
        }
    }
}

fn error(message: String, code: ErrorCode) -> (r: AgentResponse)
    ensures
        is_error_with(r, code),
{
    AgentResponse::Error { message, code: Some(code) }
}

/// The response to a query: the image, or `NOT_FOUND` when it is not cached.
pub fn respond_query(found: Option<ImageInfo>) -> (r: AgentResponse)
    ensures
        found is None ==> is_error_with(r, ErrorCode::NotFound),
        found is Some ==> r == AgentResponse::Image(found->Some_0),
{
    match found {
        Some(info) => AgentResponse::Image(info),
        None => error("image not found".to_string(), ErrorCode::NotFound),
    }
}

/// The response to a cleanup: `NOT_FOUND` for a workload without an overlay,
/// `CLEANUP_FAILED` for any other failure.
pub fn respond_cleanup(result: Result<(), StoreError>) -> (r: AgentResponse)
    ensures
        result is Ok ==> r is Done,
        result == Err::<(), StoreError>(StoreError::OverlayNotFound) ==> is_error_with(r, ErrorCode::NotFound),
        result is Err && result != Err::<(), StoreError>(StoreError::OverlayNotFound) ==> is_error_with(
            r,
            ErrorCode::CleanupFailed,
        ),
{
    match result {
        Ok(()) => AgentResponse::Done,
        Err(StoreError::OverlayNotFound) => error("workload not found".to_string(), ErrorCode::NotFound),
        Err(_) => error("overlay cleanup failed".to_string(), ErrorCode::CleanupFailed),
    }
}

/// The response to an overlay preparation: the overlay, or `OVERLAY_FAILED`.
pub fn respond_prepare(result: Result<OverlayInfo, StoreError>) -> (r: AgentResponse)
    ensures
        result is Ok ==> r == AgentResponse::Overlay(result->Ok_0),
        result is Err ==> is_error_with(r, ErrorCode::OverlayFailed),
{
    match result {
        Ok(info) => AgentResponse::Overlay(info),
        Err(StoreError::ImageNotFound) => error("image not cached".to_string(), ErrorCode::OverlayFailed),
        Err(StoreError::OverlayExists) => error("overlay already exists".to_string(), ErrorCode::OverlayFailed),
        Err(_) => error("overlay preparation failed".to_string(), ErrorCode::OverlayFailed),
    }
}

/// The response to a pull: the image, or `PULL_FAILED`.
pub fn respond_pull(result: Result<ImageInfo, StoreError>) -> (r: AgentResponse)
    ensures
        result is Ok ==> r == AgentResponse::Image(result->Ok_0),
        result is Err ==> is_error_with(r, ErrorCode::PullFailed),
{
    match result {
        Ok(info) => AgentResponse::Image(info),
        Err(_) => error("pull failed".to_string(), ErrorCode::PullFailed),
    }
}

/// The error code reported when the handler of a request fails.
pub fn failure_code(req: &AgentRequest) -> (r: ErrorCode)
    ensures
        match *req {
            AgentRequest::Pull { .. } => r == ErrorCode::PullFailed,
            AgentRequest::Query { .. } => r == ErrorCode::QueryFailed,
            AgentRequest::ListImages => r == ErrorCode::ListFailed,
            AgentRequest::GarbageCollect { .. } => r == ErrorCode::GcFailed,
            AgentRequest::PrepareOverlay { .. } => r == ErrorCode::OverlayFailed,
            AgentRequest::CleanupOverlay { .. } => r == ErrorCode::CleanupFailed,
            AgentRequest::FormatStorage => r == ErrorCode::FormatFailed,
            AgentRequest::StorageStatus => r == ErrorCode::StatusFailed,
            AgentRequest::Run { .. } => r == ErrorCode::RunFailed,
            _ => r == ErrorCode::InvalidRequest,
        },
{
    match req {
        AgentRequest::Pull { .. } => ErrorCode::PullFailed,
        AgentRequest::Query { .. } => ErrorCode::QueryFailed,
        AgentRequest::ListImages => ErrorCode::ListFailed,
        AgentRequest::GarbageCollect { .. } => ErrorCode::GcFailed,
        AgentRequest::PrepareOverlay { .. } => ErrorCode::OverlayFailed,
        AgentRequest::CleanupOverlay { .. } => ErrorCode::CleanupFailed,
        AgentRequest::FormatStorage => ErrorCode::FormatFailed,
        AgentRequest::StorageStatus => ErrorCode::StatusFailed,
        AgentRequest::Run { .. } => ErrorCode::RunFailed,
        _ => ErrorCode::InvalidRequest,
    }
}

/// Read deadline of the host client, in milliseconds.
pub const READ_TIMEOUT_MS: u64 = 30000;

/// Write deadline of the host client, in milliseconds.
pub const WRITE_TIMEOUT_MS: u64 = 10000;

/// Read deadline while a `Run` executes, in milliseconds.
pub const RUN_READ_TIMEOUT_MS: u64 = 3600000;

/// First delay between connection attempts, in milliseconds.
pub const CONNECT_INITIAL_DELAY_MS: u64 = 50;

/// Cap on the delay between connection attempts, in milliseconds.
pub const CONNECT_MAX_DELAY_MS: u64 = 2000;

/// Default overall deadline for connecting, in milliseconds.
pub const CONNECT_DEADLINE_MS: u64 = 30000;

/// Failures that the host client reports.
#[derive(Debug, Clone)]
pub enum ClientError {
    /// The agent answered with an error.
    Agent { message: String, code: Option<ErrorCode> },
    /// The agent answered with a response of the wrong kind.
    Unexpected,
}

/// The error a client reports for an agent response it cannot use.
pub open spec fn client_error_for(resp: AgentResponse, e: ClientError) -> bool {
    match resp {
        AgentResponse::Error { message, code } => e == ClientError::Agent { message, code },
        _ => e == ClientError::Unexpected,
    }
}

fn client_error(resp: AgentResponse) -> (e: ClientError)
    ensures
        client_error_for(resp, e),
{
    match resp {
        AgentResponse::Error { message, code } => ClientError::Agent { message, code },
        _ => ClientError::Unexpected,
    }
}

/// A response that ends a request; progress frames do not.
pub fn is_terminal(resp: &AgentResponse) -> (r: bool)
    ensures
        r == !(resp is Progress),
{
    !matches!(resp, AgentResponse::Progress { .. })
}

/// The protocol version from the answer to a `Ping`.
pub fn ping_result(resp: AgentResponse) -> (r: Result<u32, ClientError>)
    ensures
        resp is Pong ==> r == Ok::<u32, ClientError>(resp->version),
        !(resp is Pong) ==> r is Err && client_error_for(resp, r->Err_0),
{
    match resp {
        AgentResponse::Pong { version } => Ok(version),
        other => Err(client_error(other)),
    }
}

/// The image from the answer to a `Query`: `None` when the agent reports
/// `NOT_FOUND`.
pub fn query_result(resp: AgentResponse) -> (r: Result<Option<ImageInfo>, ClientError>)
    ensures
        resp is Image ==> r == Ok::<Option<ImageInfo>, ClientError>(Some(resp->Image_0)),
        is_error_with(resp, ErrorCode::NotFound) ==> r == Ok::<Option<ImageInfo>, ClientError>(None),
        !(resp is Image) && !is_error_with(resp, ErrorCode::NotFound) ==> r is Err && client_error_for(
            resp,
            r->Err_0,
        ),
{
    match resp {
        AgentResponse::Image(info) => Ok(Some(info)),
        AgentResponse::Error { message, code } => {
            match code {
                Some(ErrorCode::NotFound) => Ok(None),
                _ => Err(ClientError::Agent { message, code }),
            }
        },
        other => Err(client_error(other)),
    }
}

/// The image from the final answer to a `Pull`.
pub fn pull_result(resp: AgentResponse) -> (r: Result<ImageInfo, ClientError>)
    ensures
        resp is Image ==> r == Ok::<ImageInfo, ClientError>(resp->Image_0),
        !(resp is Image) ==> r is Err && client_error_for(resp, r->Err_0),
{
    match resp {
        AgentResponse::Image(info) => Ok(info),
        other => Err(client_error(other)),
    }
}

/// The exit code, stdout and stderr from the answer to a `Run`.
pub fn run_result(resp: AgentResponse) -> (r: Result<(i32, String, String), ClientError>)
    ensures
        resp is Completed ==> r == Ok::<(i32, String, String), ClientError>(
            (resp->exit_code, resp->stdout, resp->stderr),
        ),
        !(resp is Completed) ==> r is Err && client_error_for(resp, r->Err_0),
{
    match resp {
        AgentResponse::Completed { exit_code, stdout, stderr } => Ok((exit_code, stdout, stderr)),
        other => Err(client_error(other)),
    }
}

/// The freed bytes from the answer to a `GarbageCollect`.
pub fn gc_result(resp: AgentResponse) -> (r: Result<u64, ClientError>)
    ensures
        resp is Collected ==> r == Ok::<u64, ClientError>(resp->freed_bytes),
        !(resp is Collected) ==> r is Err && client_error_for(resp, r->Err_0),
{
    match resp {
        AgentResponse::Collected { freed_bytes, .. } => Ok(freed_bytes),
        other => Err(client_error(other)),
    }
}

/// The images from the answer to a `ListImages`.
pub fn images_result(resp: AgentResponse) -> (r: Result<Vec<ImageInfo>, ClientError>)
    ensures
        resp is Images ==> r == Ok::<Vec<ImageInfo>, ClientError>(resp->Images_0),
        !(resp is Images) ==> r is Err && client_error_for(resp, r->Err_0),
{
    match resp {
        AgentResponse::Images(list) => Ok(list),
        other => Err(client_error(other)),
    }
}

/// The overlay from the answer to a `PrepareOverlay`.
pub fn overlay_result(resp: AgentResponse) -> (r: Result<OverlayInfo, ClientError>)
    ensures
        resp is Overlay ==> r == Ok::<OverlayInfo, ClientError>(resp->Overlay_0),
        !(resp is Overlay) ==> r is Err && client_error_for(resp, r->Err_0),
{
    match resp {
        AgentResponse::Overlay(info) => Ok(info),
        other => Err(client_error(other)),
    }
}

/// The storage summary from the answer to a `StorageStatus`.
pub fn status_result(resp: AgentResponse) -> (r: Result<StorageStatus, ClientError>)
    ensures
        resp is Status ==> r == Ok::<StorageStatus, ClientError>(resp->Status_0),
        !(resp is Status) ==> r is Err && client_error_for(resp, r->Err_0),
{
    match resp {
        AgentResponse::Status(status) => Ok(status),
        other => Err(client_error(other)),
    }
}

/// The answer to a request that returns no data (cleanup, format, shutdown).
pub fn unit_result(resp: AgentResponse) -> (r: Result<(), ClientError>)
    ensures
        (resp is Done || resp is ShuttingDown) ==> r is Ok,
        !(resp is Done || resp is ShuttingDown) ==> r is Err && client_error_for(resp, r->Err_0),
{
    match resp {
        AgentResponse::Done => Ok(()),
        AgentResponse::ShuttingDown => Ok(()),
        other => Err(client_error(other)),
    }
}

/// What the connect loop does after a failed attempt.
#[derive(Debug, Clone, Copy, PartialEq, Eq, Structural)]
pub enum RetryStep {
    /// Sleep this many milliseconds, then try again.
    Wait(u64),
    /// The deadline has passed.
    GiveUp,
}

pub open spec fn min(a: int, b: int) -> int {
    if a <= b { a } else { b }
}

/// The delay before the next connection attempt: 50 ms first, then doubled
/// up to 2 s, and never past the deadline. `last_delay_ms` is 0 before the
/// first retry.
pub fn connect_retry(elapsed_ms: u64, last_delay_ms: u64, deadline_ms: u64) -> (r: RetryStep)
    ensures
        elapsed_ms >= deadline_ms ==> r == RetryStep::GiveUp,
        elapsed_ms < deadline_ms ==> r == RetryStep::Wait(
            min(
                if last_delay_ms == 0 {
                    CONNECT_INITIAL_DELAY_MS as int
                } else {
                    min(2 * last_delay_ms, CONNECT_MAX_DELAY_MS as int)
                },
                deadline_ms - elapsed_ms,
            ) as u64,
        ),
{
    if elapsed_ms >= deadline_ms {
        return RetryStep::GiveUp;
    }
    let delay: u64 = if last_delay_ms == 0 {
        CONNECT_INITIAL_DELAY_MS
    } else if last_delay_ms >= CONNECT_MAX_DELAY_MS / 2 {
        CONNECT_MAX_DELAY_MS
    } else {
        2 * last_delay_ms
    };
    let left = deadline_ms - elapsed_ms;
    if delay <= left {
        RetryStep::Wait(delay)
    } else {
        RetryStep::Wait(left)
    }
}

/// A `Run` whose command is empty is refused with `INVALID_REQUEST`,
/// whatever its other fields hold.
pub proof fn lemma_empty_command_rejected(req: AgentRequest)
    requires
        req is Run,
        req->Run_command@.len() == 0,
    ensures
        !request_ok(req),
{
}

} // verus!
