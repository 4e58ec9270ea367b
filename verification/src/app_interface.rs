//! The requests that an app interface takes and the responses it gives.
//!
//! On the wire a message is a tag and a payload; each request is answered by
//! exactly one response, of a kind that its own kind allows.

use vstd::prelude::*;
use vstd::string::*;
use crate::app_info::AppInfo;
use crate::authorize::AuthorizationError;
use crate::call::{CellId, ZomeCall};

verus! {

/// What is asked to make a clone of a role's cell.
#[derive(Debug)]
pub struct CreateCloneCellPayload {
    pub app_id: String,
    pub role_name: String,
    pub network_seed: Option<String>,
    pub properties: Option<Vec<u8>>,
    pub origin_time: Option<i64>,
    pub name: Option<String>,
}

/// A clone cell, named by its clone id or by its cell id.
#[derive(Debug)]
pub enum CloneCellId {
    CloneId(String),
    CellId(CellId),
}

/// What is asked to disable a clone cell.
#[derive(Debug)]
pub struct DisableCloneCellPayload {
    pub app_id: String,
    pub clone_cell_id: CloneCellId,
}

/// What is asked to enable a clone cell.
#[derive(Debug)]
pub struct EnableCloneCellPayload {
    pub app_id: String,
    pub clone_cell_id: CloneCellId,
}

/// The DNAs whose network state is asked for.
#[derive(Debug)]
pub struct NetworkInfoRequestPayload {
    pub dnas: Vec<[u8; 36]>,
}

/// A request to be sent signals.
#[derive(Debug)]
pub struct SignalSubscription {
    pub subscribe: bool,
}

/// A cell of an app and the role it fills.
#[derive(Debug)]
pub struct InstalledCell {
    pub cell_id: CellId,
    pub role_name: String,
}

/// How much a cell has yet to fetch from its peers.
#[derive(Debug, Clone, Copy, PartialEq, Eq, Structural)]
pub struct FetchQueueInfo {
    pub op_bytes_to_fetch: usize,
    pub num_ops_to_fetch: usize,
}

/// The network state of one cell.
#[derive(Debug, Clone, Copy, PartialEq, Eq, Structural)]
pub struct NetworkInfo {
    pub fetch_queue_info: FetchQueueInfo,
}

/// An error as it crosses the interface: a kind and a message, and nothing
/// of the host's inner workings.
#[derive(Debug)]
pub enum ExternalApiWireError {
    InternalError(String),
    Deserialization(String),
    DnaReadError(String),
    RibosomeError(String),
    ActivateApp(String),
    ZomeCallUnauthorized(String),
    CountersigningSessionError(String),
}

/// What a client may ask over an app interface.
#[derive(Debug)]
pub enum AppRequest {
    /// Info about an installed app.
    AppInfo { installed_app_id: String },
    /// A call of a zome function.
    CallZome(Box<ZomeCall>),
    /// The making of a clone cell.
    CreateCloneCell(Box<CreateCloneCellPayload>),
    /// The disabling of a clone cell.
    DisableCloneCell(Box<DisableCloneCellPayload>),
    /// The enabling of a clone cell that was disabled.
    EnableCloneCell(Box<EnableCloneCellPayload>),
    /// Info about networking.
    NetworkInfo(Box<NetworkInfoRequestPayload>),
    /// A subscription to signals; not served.
    SignalSubscription(SignalSubscription),
}

/// What an app interface answers.
#[derive(Debug)]
pub enum AppResponse {
    /// The request is not served; it is handed back.
    Unimplemented(AppRequest),
    /// The request failed.
    Error(ExternalApiWireError),
    /// The info of the app, or nothing where no such app is installed.
    AppInfo(Option<AppInfo>),
    /// What the zome function returned, serialized.
    ZomeCalled(Box<Vec<u8>>),
    /// The clone cell that was made.
    CloneCellCreated(InstalledCell),
    /// The clone cell was disabled.
    CloneCellDisabled,
    /// The clone cell that was enabled.
    CloneCellEnabled(InstalledCell),
    /// The network state of each cell asked about.
    NetworkInfo(Vec<NetworkInfo>),
}

/// The kinds of request.
#[derive(Debug, Clone, Copy, PartialEq, Eq, Structural)]
pub enum RequestKind {
    AppInfo,
    CallZome,
    CreateCloneCell,
    DisableCloneCell,
    EnableCloneCell,
    NetworkInfo,
    SignalSubscription,
}

/// The kinds of response.
#[derive(Debug, Clone, Copy, PartialEq, Eq, Structural)]
pub enum ResponseKind {
    Unimplemented,
    Error,
    AppInfo,
    ZomeCalled,
    CloneCellCreated,
    CloneCellDisabled,
    CloneCellEnabled,
    NetworkInfo,
}

/// The kind of a request.
pub open spec fn request_kind(request: AppRequest) -> RequestKind {
    match request {
        AppRequest::AppInfo { .. } => RequestKind::AppInfo,
        AppRequest::CallZome(_) => RequestKind::CallZome,
        AppRequest::CreateCloneCell(_) => RequestKind::CreateCloneCell,
        AppRequest::DisableCloneCell(_) => RequestKind::DisableCloneCell,
        AppRequest::EnableCloneCell(_) => RequestKind::EnableCloneCell,
        AppRequest::NetworkInfo(_) => RequestKind::NetworkInfo,
        AppRequest::SignalSubscription(_) => RequestKind::SignalSubscription,
    }
}

/// The kind of a response.
pub open spec fn response_kind(response: AppResponse) -> ResponseKind {
    match response {
        AppResponse::Unimplemented(_) => ResponseKind::Unimplemented,
        AppResponse::Error(_) => ResponseKind::Error,
        AppResponse::AppInfo(_) => ResponseKind::AppInfo,
        AppResponse::ZomeCalled(_) => ResponseKind::ZomeCalled,
        AppResponse::CloneCellCreated(_) => ResponseKind::CloneCellCreated,
        AppResponse::CloneCellDisabled => ResponseKind::CloneCellDisabled,
        AppResponse::CloneCellEnabled(_) => ResponseKind::CloneCellEnabled,
        AppResponse::NetworkInfo(_) => ResponseKind::NetworkInfo,
    }
}

/// The tag of a kind of request on the wire.
pub open spec fn request_tag(kind: RequestKind) -> Seq<char> {
    match kind {
        RequestKind::AppInfo => "app_info"@,
        RequestKind::CallZome => "call_zome"@,
        RequestKind::CreateCloneCell => "create_clone_cell"@,
        RequestKind::DisableCloneCell => "disable_clone_cell"@,
        RequestKind::EnableCloneCell => "enable_clone_cell"@,
        RequestKind::NetworkInfo => "network_info"@,
        RequestKind::SignalSubscription => "signal_subscription"@,
    }
}

/// The tag of a kind of response on the wire.
pub open spec fn response_tag(kind: ResponseKind) -> Seq<char> {
    match kind {
        ResponseKind::Unimplemented => "unimplemented"@,
        ResponseKind::Error => "error"@,
        ResponseKind::AppInfo => "app_info"@,
        ResponseKind::ZomeCalled => "zome_called"@,
        ResponseKind::CloneCellCreated => "clone_cell_created"@,
        ResponseKind::CloneCellDisabled => "clone_cell_disabled"@,
        ResponseKind::CloneCellEnabled => "clone_cell_enabled"@,
        ResponseKind::NetworkInfo => "network_info"@,
    }
}

/// The kind of response that reports success for a kind of request.
pub open spec fn success_kind(request: RequestKind) -> ResponseKind {
    match request {
        RequestKind::AppInfo => ResponseKind::AppInfo,
        RequestKind::CallZome => ResponseKind::ZomeCalled,
        RequestKind::CreateCloneCell => ResponseKind::CloneCellCreated,
        RequestKind::DisableCloneCell => ResponseKind::CloneCellDisabled,
        RequestKind::EnableCloneCell => ResponseKind::CloneCellEnabled,
        RequestKind::NetworkInfo => ResponseKind::NetworkInfo,
        RequestKind::SignalSubscription => ResponseKind::Unimplemented,
    }
}

/// Whether a kind of request can fail with an error response.
pub open spec fn may_fail(request: RequestKind) -> bool {
    !(request is NetworkInfo || request is SignalSubscription)
}

/// Whether a kind of response is an answer to a kind of request.
pub open spec fn is_answer(response: ResponseKind, request: RequestKind) -> bool {
    response == success_kind(request) || (response is Error && may_fail(request))
}

impl RequestKind {
    /// The tag of this kind of request on the wire.
    pub fn tag(&self) -> (tag: &'static str)
        ensures
            tag@ == request_tag(*self),
    {
        match self {
            RequestKind::AppInfo => "app_info",
            RequestKind::CallZome => "call_zome",
            RequestKind::CreateCloneCell => "create_clone_cell",
            RequestKind::DisableCloneCell => "disable_clone_cell",
            RequestKind::EnableCloneCell => "enable_clone_cell",
            RequestKind::NetworkInfo => "network_info",
            RequestKind::SignalSubscription => "signal_subscription",
        }
    }

    /// The kind of response that reports success for this kind of request.
    pub fn success(&self) -> (kind: ResponseKind)
        ensures
            kind == success_kind(*self),
    {
        match self {
            RequestKind::AppInfo => ResponseKind::AppInfo,
            RequestKind::CallZome => ResponseKind::ZomeCalled,
            RequestKind::CreateCloneCell => ResponseKind::CloneCellCreated,
            RequestKind::DisableCloneCell => ResponseKind::CloneCellDisabled,
            RequestKind::EnableCloneCell => ResponseKind::CloneCellEnabled,
            RequestKind::NetworkInfo => ResponseKind::NetworkInfo,
            RequestKind::SignalSubscription => ResponseKind::Unimplemented,
        }
    }
}

impl ResponseKind {
    /// The tag of this kind of response on the wire.
    pub fn tag(&self) -> (tag: &'static str)
        ensures
            tag@ == response_tag(*self),
    {
        match self {
            ResponseKind::Unimplemented => "unimplemented",
            ResponseKind::Error => "error",
            ResponseKind::AppInfo => "app_info",
            ResponseKind::ZomeCalled => "zome_called",
            ResponseKind::CloneCellCreated => "clone_cell_created",
            ResponseKind::CloneCellDisabled => "clone_cell_disabled",
            ResponseKind::CloneCellEnabled => "clone_cell_enabled",
            ResponseKind::NetworkInfo => "network_info",
        }
    }

    /// Whether a response of this kind is an answer to a request of that
    /// kind.
    pub fn answers(&self, request: RequestKind) -> (ok: bool)
        ensures
            ok == is_answer(*self, request),
    {
        if *self == request.success() {
            return true;
        }
        match self {
            ResponseKind::Error => match request {
                RequestKind::NetworkInfo => false,
                RequestKind::SignalSubscription => false,
                _ => true,
            },
            _ => false,
        }
    }
}

impl AppRequest {
    /// The kind of this request.
    pub fn kind(&self) -> (kind: RequestKind)
        ensures
            kind == request_kind(*self),
    {
        match self {
            AppRequest::AppInfo { .. } => RequestKind::AppInfo,
            AppRequest::CallZome(_) => RequestKind::CallZome,
            AppRequest::CreateCloneCell(_) => RequestKind::CreateCloneCell,
            AppRequest::DisableCloneCell(_) => RequestKind::DisableCloneCell,
            AppRequest::EnableCloneCell(_) => RequestKind::EnableCloneCell,
            AppRequest::NetworkInfo(_) => RequestKind::NetworkInfo,
            AppRequest::SignalSubscription(_) => RequestKind::SignalSubscription,
        }
    }

    /// The tag of this request on the wire.
    pub fn tag(&self) -> (tag: &'static str)
        ensures
            tag@ == request_tag(request_kind(*self)),
    {
        self.kind().tag()
    }
}

impl AppResponse {
    /// The kind of this response.
    pub fn kind(&self) -> (kind: ResponseKind)
        ensures
            kind == response_kind(*self),
    {
        match self {
            AppResponse::Unimplemented(_) => ResponseKind::Unimplemented,
            AppResponse::Error(_) => ResponseKind::Error,
            AppResponse::AppInfo(_) => ResponseKind::AppInfo,
            AppResponse::ZomeCalled(_) => ResponseKind::ZomeCalled,
            AppResponse::CloneCellCreated(_) => ResponseKind::CloneCellCreated,
            AppResponse::CloneCellDisabled => ResponseKind::CloneCellDisabled,
            AppResponse::CloneCellEnabled(_) => ResponseKind::CloneCellEnabled,
            AppResponse::NetworkInfo(_) => ResponseKind::NetworkInfo,
        }
    }

    /// The tag of this response on the wire.
    pub fn tag(&self) -> (tag: &'static str)
        ensures
            tag@ == response_tag(response_kind(*self)),
    {
        self.kind().tag()
    }

    /// Whether this response is an answer to that request.
    pub fn answers(&self, request: &AppRequest) -> (ok: bool)
        ensures
            ok == is_answer(response_kind(*self), request_kind(*request)),
    {
        self.kind().answers(request.kind())
    }

    /// The answer to a request that is not served: the request, handed back.
    pub fn unimplemented(request: AppRequest) -> (response: AppResponse)
        ensures
            response == AppResponse::Unimplemented(request),
    {
        AppResponse::Unimplemented(request)
    }
}

/// A message on the wire, as JSON: the tag under `type` and, where there is
/// a payload, the payload's JSON under `data`.
pub open spec fn envelope(tag: Seq<char>, data: Option<Seq<char>>) -> Seq<char> {
    match data {
        Some(payload) => "{\"type\":\""@ + tag + "\",\"data\":"@ + payload + "}"@,
        None => "{\"type\":\""@ + tag + "\"}"@,
    }
}

/// The view of an optional text that is borrowed.
pub open spec fn payload_model(data: Option<&str>) -> Option<Seq<char>> {
    match data {
        Some(payload) => Some(payload@),
        None => None,
    }
}

/// Puts a tag and the JSON of a payload into the JSON of a message.
pub fn envelope_json(tag: &str, data: Option<&str>) -> (json: String)
    ensures
        json@ == envelope(tag@, payload_model(data)),
{
    let open = String::from_str("{\"type\":\"").concat(tag);
    match data {
        Some(payload) => open.concat("\",\"data\":").concat(payload).concat("}"),
        None => open.concat("\"}"),
    }
}

/// Why a zome call did not return a result.
#[derive(Debug)]
pub enum CallFailure {
    /// The call was not authorized.
    Authorization(AuthorizationError),
    /// The function itself failed.
    Guest(String),
    /// The host could not run the call.
    HostEnvironment(String),
}

/// The word by which a refusal to authorize is reported.
pub open spec fn refusal_reason(e: AuthorizationError) -> Seq<char> {
    match e {
        AuthorizationError::Expired => "expired"@,
        AuthorizationError::Replayed => "replayed"@,
        AuthorizationError::BadSignature => "bad_signature"@,
        AuthorizationError::Unauthorized => "unauthorized"@,
    }
}

/// The word by which a refusal to authorize is reported. It is the same for
/// every call refused for the same reason.
pub fn authorization_reason(e: AuthorizationError) -> (reason: &'static str)
    ensures
        reason@ == refusal_reason(e),
{
    match e {
        AuthorizationError::Expired => "expired",
        AuthorizationError::Replayed => "replayed",
        AuthorizationError::BadSignature => "bad_signature",
        AuthorizationError::Unauthorized => "unauthorized",
    }
}

/// Mathematical model of the answer to a zome call: the result's bytes, or
/// the kind of error and its message.
pub enum CallAnswerModel {
    Called(Seq<u8>),
    Unauthorized(Seq<char>),
    Ribosome(Seq<char>),
    Internal(Seq<char>),
    Other,
}

/// The view of a response as the answer to a zome call.
pub open spec fn call_answer_model(response: AppResponse) -> CallAnswerModel {
    match response {
        AppResponse::ZomeCalled(bytes) => CallAnswerModel::Called(bytes@),
        AppResponse::Error(ExternalApiWireError::ZomeCallUnauthorized(message)) =>
            CallAnswerModel::Unauthorized(message@),
        AppResponse::Error(ExternalApiWireError::RibosomeError(message)) =>
            CallAnswerModel::Ribosome(message@),
        AppResponse::Error(ExternalApiWireError::InternalError(message)) =>
            CallAnswerModel::Internal(message@),
        _ => CallAnswerModel::Other,
    }
}

/// The answer that is owed to a zome call, given how it went.
pub open spec fn call_answer(outcome: Result<Vec<u8>, CallFailure>) -> CallAnswerModel {
    match outcome {
        Ok(bytes) => CallAnswerModel::Called(bytes@),
        Err(CallFailure::Authorization(e)) => CallAnswerModel::Unauthorized(refusal_reason(e)),
        Err(CallFailure::Guest(message)) => CallAnswerModel::Ribosome(message@),
        Err(CallFailure::HostEnvironment(message)) => CallAnswerModel::Internal(message@),
    }
}

/// Makes the one response that a zome call gets: its result, or an error of
/// the kind that tells the caller whose fault it was.
pub fn zome_call_response(outcome: Result<Vec<u8>, CallFailure>) -> (response: AppResponse)
    ensures
        call_answer_model(response) == call_answer(outcome),
        is_answer(response_kind(response), RequestKind::CallZome),
{
    match outcome {
        Ok(bytes) => AppResponse::ZomeCalled(Box::new(bytes)),
        Err(CallFailure::Authorization(e)) => AppResponse::Error(
            ExternalApiWireError::ZomeCallUnauthorized(
                String::from_str(authorization_reason(e)),
            ),
        ),
        Err(CallFailure::Guest(message)) => AppResponse::Error(
            ExternalApiWireError::RibosomeError(message),
        ),
        Err(CallFailure::HostEnvironment(message)) => AppResponse::Error(
            ExternalApiWireError::InternalError(message),
        ),
    }
}

/// Every kind of request has a response that answers it, and the response
/// that reports success is one.
pub proof fn every_request_has_an_answer(request: RequestKind)
    ensures
        is_answer(success_kind(request), request),
        is_answer(ResponseKind::Error, request) == may_fail(request),
{
}

/// Requests of different kinds are answered by successes of different
/// kinds: from a response that reports success, the kind of request that it
/// answers can be told.
pub proof fn success_names_its_request(first: RequestKind, second: RequestKind)
    requires
        success_kind(first) == success_kind(second),
    ensures
        first == second,
{
}

} // verus!
