//! The decisions of the webhook endpoint, one step at a time: the caller
//! performs each action (reading configuration, headers and the body,
//! decoding, running the script, posting the comment) and hands back what it
//! saw, until the handler gives the response.
use crate::event::{WebhookEvent, WebhookResponse};
use crate::notify::{comment_of, comment_text};
use crate::script::{decimal_of, lossy_text_of, script_arguments, script_outcome};
use crate::signature::{signature_valid, verify_signature};
use vstd::prelude::*;
use vstd::string::StringExecFns;
use vstd::utf8::encode_utf8;

verus! {

/// The HTTP statuses the endpoint answers with.
#[derive(Debug, Clone, Copy, PartialEq, Eq, Structural)]
pub enum HttpStatus {
    Success,
    BadRequest,
    Forbidden,
    InternalServerError,
}

impl HttpStatus {
    pub open spec fn spec_code(self) -> u16 {
        match self {
            HttpStatus::Success => 200,
            HttpStatus::BadRequest => 400,
            HttpStatus::Forbidden => 403,
            HttpStatus::InternalServerError => 500,
        }
    }

    /// The numeric status code.
    pub fn code(&self) -> (r: u16)
        ensures
            r == self.spec_code(),
    {
        match self {
            HttpStatus::Success => 200,
            HttpStatus::BadRequest => 400,
            HttpStatus::Forbidden => 403,
            HttpStatus::InternalServerError => 500,
        }
    }
}

/// A response of the endpoint: a status and, on the path that ran the
/// script, a JSON body.
#[derive(Debug)]
pub struct Response {
    pub status: HttpStatus,
    pub body: Option<WebhookResponse>,
}

pub open spec fn is_bare_reply(r: Response, status: HttpStatus) -> bool {
    r.status == status && r.body is None
}

pub open spec fn success_message() -> Seq<char> {
    "Webhook processed successfully"@
}

/// The reply once the script has succeeded: a fixed message that holds
/// nothing of the script's output.
pub open spec fn is_success_reply(r: Response) -> bool {
    &&& r.status == HttpStatus::Success
    &&& r.body matches Some(b)
    &&& b.message@ == success_message()
    &&& b.status@ == "success"@
}

fn bare_reply(status: HttpStatus) -> (r: Response)
    ensures
        is_bare_reply(r, status),
{
    Response { status, body: None }
}

fn success_reply() -> (r: Response)
    ensures
        is_success_reply(r),
{
    Response {
        status: HttpStatus::Success,
        body: Some(
            WebhookResponse {
                message: String::from_str("Webhook processed successfully"),
                status: String::from_str("success"),
            },
        ),
    }
}

/// Where a request stands.
#[derive(Debug)]
pub enum RequestState {
    AwaitingSecret,
    AwaitingSignature { secret: String },
    AwaitingBody { secret: String, signature: String },
    AwaitingPayload,
    AwaitingScript { number: i64, repository: Option<String> },
    AwaitingComment,
    Finished,
}

/// What the caller saw when it performed the last action.
#[derive(Debug)]
pub enum RequestInput {
    /// The shared secret, if one is configured.
    Secret(Option<String>),
    /// The `X-Hub-Signature-256` header, if present and valid UTF-8.
    SignatureHeader(Option<String>),
    /// The raw body, if it could be read.
    Body(Option<Vec<u8>>),
    /// The decoded payload, if the body is a well-formed event.
    Payload(Option<WebhookEvent>),
    /// The script ran to its end.
    ScriptExited { success: bool, stdout: Vec<u8>, stderr: Vec<u8> },
    /// The script could not be started.
    ScriptNotStarted,
    /// Posting the comment was tried; its outcome does not matter here.
    CommentAttempted,
}

/// What the caller is to do next.
#[derive(Debug)]
pub enum RequestAction {
    ReadSecret,
    ReadSignatureHeader,
    ReadBody,
    DecodePayload,
    RunScript { args: Vec<String> },
    PostComment { number: i64, comment: String, repository: String },
    Respond { response: Response },
    /// The request is answered; there is nothing left to do.
    Nothing,
}

/// Whether an event's action asks for the script to run.
pub open spec fn runs_script(action: Seq<char>) -> bool {
    action == "opened"@ || action == "synchronize"@
}

pub open spec fn repository_name(ev: WebhookEvent) -> Option<String> {
    match ev.repository {
        Some(r) => Some(r.full_name),
        None => None,
    }
}

/// The request ends with a bare reply of `status`.
pub open spec fn ends_with(next: RequestState, action: RequestAction, status: HttpStatus) -> bool {
    &&& next is Finished
    &&& action matches RequestAction::Respond { response } && is_bare_reply(response, status)
}

/// The request ends with the success reply.
pub open spec fn ends_with_success(next: RequestState, action: RequestAction) -> bool {
    &&& next is Finished
    &&& action matches RequestAction::Respond { response } && is_success_reply(response)
}

/// One step of the endpoint: from `state`, on `input`, to `next`, asking
/// for `action`. An input that does not fit the state is a fault of the
/// caller and ends the request with a 500.
pub open spec fn transition(
    state: RequestState,
    input: RequestInput,
    next: RequestState,
    action: RequestAction,
) -> bool {
    match state {
        RequestState::AwaitingSecret => match input {
            RequestInput::Secret(Some(k)) => next == (RequestState::AwaitingSignature { secret: k })
                && action is ReadSignatureHeader,
            _ => ends_with(next, action, HttpStatus::InternalServerError),
        },
        RequestState::AwaitingSignature { secret } => match input {
            RequestInput::SignatureHeader(Some(h)) => next == (RequestState::AwaitingBody {
                secret,
                signature: h,
            }) && action is ReadBody,
            RequestInput::SignatureHeader(None) => ends_with(next, action, HttpStatus::BadRequest),
            _ => ends_with(next, action, HttpStatus::InternalServerError),
        },
        RequestState::AwaitingBody { secret, signature } => match input {
            RequestInput::Body(Some(b)) => if signature_valid(
                encode_utf8(secret@),
                encode_utf8(signature@),
                b@,
            ) {
                next is AwaitingPayload && action is DecodePayload
            } else {
                ends_with(next, action, HttpStatus::Forbidden)
            },
            RequestInput::Body(None) => ends_with(next, action, HttpStatus::BadRequest),
            _ => ends_with(next, action, HttpStatus::InternalServerError),
        },
        RequestState::AwaitingPayload => match input {
            RequestInput::Payload(Some(ev)) => match ev.pull_request {
                Some(pr) if runs_script(ev.action@) => {
                    &&& next == (RequestState::AwaitingScript {
                        number: ev.number,
                        repository: repository_name(ev),
                    })
                    &&& action matches RequestAction::RunScript { args }
                    &&& args@.len() == 3
                    &&& args@[0]@ == decimal_of(ev.number as int)
                    &&& args@[1]@ == pr.title@
                    &&& args@[2]@ == pr.html_url@
                },
                _ => ends_with(next, action, HttpStatus::Success),
            },
            RequestInput::Payload(None) => ends_with(next, action, HttpStatus::BadRequest),
            _ => ends_with(next, action, HttpStatus::InternalServerError),
        },
        RequestState::AwaitingScript { number, repository } => match input {
            RequestInput::ScriptExited { success, stdout, stderr } => if !success {
                ends_with(next, action, HttpStatus::InternalServerError)
            } else {
                match repository {
                    Some(repo) => {
                        &&& next is AwaitingComment
                        &&& action matches RequestAction::PostComment { number: n, comment, repository: r }
                        &&& n == number
                        &&& comment@ == comment_of(lossy_text_of(stdout@))
                        &&& r == repo
                    },
                    None => ends_with_success(next, action),
                }
            },
            _ => ends_with(next, action, HttpStatus::InternalServerError),
        },
        RequestState::AwaitingComment => match input {
            RequestInput::CommentAttempted => ends_with_success(next, action),
            _ => ends_with(next, action, HttpStatus::InternalServerError),
        },
        RequestState::Finished => next is Finished && action is Nothing,
    }
}

fn finish(status: HttpStatus) -> (r: (RequestState, RequestAction))
    ensures
        ends_with(r.0, r.1, status),
{
    (RequestState::Finished, RequestAction::Respond { response: bare_reply(status) })
}

fn is_script_action(action: &String) -> (r: bool)
    ensures
        r == runs_script(action@),
{
    *action == String::from_str("opened") || *action == String::from_str("synchronize")
}

impl RequestState {
    /// A new request: the first thing to do is to read the secret.
    pub fn start() -> (r: (RequestState, RequestAction))
        ensures
            r.0 is AwaitingSecret,
            r.1 is ReadSecret,
    {
        (RequestState::AwaitingSecret, RequestAction::ReadSecret)
    }

    /// Takes what the caller saw and says what to do next.
    pub fn step(self, input: RequestInput) -> (r: (RequestState, RequestAction))
        ensures
            transition(self, input, r.0, r.1),
    {
        match self {
            RequestState::AwaitingSecret => match input {
                RequestInput::Secret(Some(k)) => (
                    RequestState::AwaitingSignature { secret: k },
                    RequestAction::ReadSignatureHeader,
                ),
                _ => finish(HttpStatus::InternalServerError),
            },
            RequestState::AwaitingSignature { secret } => match input {
                RequestInput::SignatureHeader(Some(h)) => (
                    RequestState::AwaitingBody { secret, signature: h },
                    RequestAction::ReadBody,
                ),
                RequestInput::SignatureHeader(None) => finish(HttpStatus::BadRequest),
                _ => finish(HttpStatus::InternalServerError),
            },
            RequestState::AwaitingBody { secret, signature } => match input {
                RequestInput::Body(Some(b)) => match verify_signature(
                    secret.as_str(),
                    signature.as_str(),
                    b.as_slice(),
                ) {
                    Ok(true) => (RequestState::AwaitingPayload, RequestAction::DecodePayload),
                    Ok(false) => finish(HttpStatus::Forbidden),
                    Err(_) => finish(HttpStatus::InternalServerError),
                },
                RequestInput::Body(None) => finish(HttpStatus::BadRequest),
                _ => finish(HttpStatus::InternalServerError),
            },
            RequestState::AwaitingPayload => match input {
                RequestInput::Payload(Some(ev)) => {
                    if is_script_action(&ev.action) {
                        match &ev.pull_request {
                            Some(pr) => {
                                let args = script_arguments(
                                    ev.number,
                                    pr.title.as_str(),
                                    pr.html_url.as_str(),
                                );
                                let repository = match ev.repository {
                                    Some(r) => Some(r.full_name),
                                    None => None,
                                };
                                (
                                    RequestState::AwaitingScript { number: ev.number, repository },
                                    RequestAction::RunScript { args },
                                )
                            },
                            None => finish(HttpStatus::Success),
                        }
                    } else {
                        finish(HttpStatus::Success)
                    }
                },
                RequestInput::Payload(None) => finish(HttpStatus::BadRequest),
                _ => finish(HttpStatus::InternalServerError),
            },
            RequestState::AwaitingScript { number, repository } => match input {
                RequestInput::ScriptExited { success, stdout, stderr } => match script_outcome(
                    success,
                    stdout.as_slice(),
                    stderr.as_slice(),
                ) {
                    Ok(output) => match repository {
                        Some(repo) => (
                            RequestState::AwaitingComment,
                            RequestAction::PostComment {
                                number,
                                comment: comment_text(output.as_str()),
                                repository: repo,
                            },
                        ),
                        None => (
                            RequestState::Finished,
                            RequestAction::Respond { response: success_reply() },
                        ),
                    },
                    Err(_) => finish(HttpStatus::InternalServerError),
                },
                _ => finish(HttpStatus::InternalServerError),
            },
            RequestState::AwaitingComment => match input {
                RequestInput::CommentAttempted => (
                    RequestState::Finished,
                    RequestAction::Respond { response: success_reply() },
                ),
                _ => finish(HttpStatus::InternalServerError),
            },
            RequestState::Finished => (RequestState::Finished, RequestAction::Nothing),
        }
    }
}


/// A request without a signature header is answered 400 with no body, and
/// its body is never read, whatever it holds.
pub proof fn lemma_missing_signature_rejected(
    secret: String,
    next: RequestState,
    action: RequestAction,
)
    requires
        transition(
            RequestState::AwaitingSignature { secret },
            RequestInput::SignatureHeader(None),
            next,
            action,
        ),
    ensures
        next is Finished,
        action matches RequestAction::Respond { response } && response.status.spec_code() == 400
            && response.body is None,
{
}

/// When the script succeeds the reply is 200 with status `success` and a
/// fixed message: the script's output goes only into the comment, which is
/// asked for exactly when the payload named a repository.
pub proof fn lemma_script_success_reply(
    number: i64,
    repository: Option<String>,
    stdout: Vec<u8>,
    stderr: Vec<u8>,
    next: RequestState,
    action: RequestAction,
    last: RequestState,
    last_action: RequestAction,
)
    requires
        transition(
            RequestState::AwaitingScript { number, repository },
            RequestInput::ScriptExited { success: true, stdout, stderr },
            next,
            action,
        ),
        next is AwaitingComment ==> transition(
            next,
            RequestInput::CommentAttempted,
            last,
            last_action,
        ),
    ensures
        repository is None ==> ends_with_success(next, action),
        repository is Some ==> (action matches RequestAction::PostComment { comment, .. }
            && comment@ == comment_of(lossy_text_of(stdout@)) && ends_with_success(
            last,
            last_action,
        )),
        ends_with_success(next, action) || ends_with_success(last, last_action),
{
}

/// An event whose action is neither `opened` nor `synchronize` is accepted
/// with a bare 200, and the script is not run.
pub proof fn lemma_other_actions_ignored(ev: WebhookEvent, next: RequestState, action: RequestAction)
    requires
        transition(RequestState::AwaitingPayload, RequestInput::Payload(Some(ev)), next, action),
        !runs_script(ev.action@),
    ensures
        ends_with(next, action, HttpStatus::Success),
        !(action is RunScript),
{
}

/// A script that fails gives a 500, and nothing is posted afterwards: the
/// request is over and ignores whatever comes next.
pub proof fn lemma_script_failure_ends_request(
    number: i64,
    repository: Option<String>,
    stdout: Vec<u8>,
    stderr: Vec<u8>,
    next: RequestState,
    action: RequestAction,
    later: RequestInput,
    after: RequestState,
    after_action: RequestAction,
)
    requires
        transition(
            RequestState::AwaitingScript { number, repository },
            RequestInput::ScriptExited { success: false, stdout, stderr },
            next,
            action,
        ),
        transition(next, later, after, after_action),
    ensures
        ends_with(next, action, HttpStatus::InternalServerError),
        !(action is PostComment),
        after is Finished && after_action is Nothing,
{
}

/// Once the comment was tried, the reply is the success reply, whether the
/// comment was posted, skipped for want of a token, or failed.
pub proof fn lemma_comment_outcome_ignored(next: RequestState, action: RequestAction)
    requires
        transition(RequestState::AwaitingComment, RequestInput::CommentAttempted, next, action),
    ensures
        ends_with_success(next, action),
{
}

/// A body that does not decode as an event is answered 400.
pub proof fn lemma_malformed_payload_rejected(next: RequestState, action: RequestAction)
    requires
        transition(RequestState::AwaitingPayload, RequestInput::Payload(None), next, action),
    ensures
        ends_with(next, action, HttpStatus::BadRequest),
{
}

} // verus!
