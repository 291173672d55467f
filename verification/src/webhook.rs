//! Decisions of the webhook endpoint: signature checking modes, the
//! platform's address-validation callback, and how events are located in a
//! payload.

use crate::error::Error;
use crate::text::chars_of;
use vstd::prelude::*;

verus! {

/// How strictly request signatures are checked.
#[derive(Debug, Clone, Copy, PartialEq, Eq)]
pub enum SignatureVerificationMode {
    /// No checking.
    Off,
    /// Check and log failures, but serve the request anyway; meant for a
    /// gradual roll-out.
    Monitor,
    /// Check and refuse requests that fail.
    Enforce,
}

/// What the endpoint does about the signature of a request.
#[derive(Debug, Clone, Copy, PartialEq, Eq)]
pub enum SignatureStep {
    /// Serve the request without checking.
    Skip,
    /// Check, and only log a failure.
    CheckAndLog,
    /// No verifier is configured: log that once, then serve the request.
    WarnNoVerifier,
    /// No verifier is configured and the warning was already logged: serve.
    SkipQuietly,
    /// Check, and refuse the request if the check fails.
    CheckAndRefuse,
    /// Refuse: enforcing needs a verifier and none is configured.
    RefuseNoVerifier,
}

/// The signature step for a mode, given whether a verifier is configured and
/// whether the missing verifier was already reported.
pub open spec fn spec_signature_step(mode: SignatureVerificationMode, has_verifier: bool, warned: bool) -> SignatureStep {
    match mode {
        SignatureVerificationMode::Off => SignatureStep::Skip,
        SignatureVerificationMode::Monitor => if has_verifier {
            SignatureStep::CheckAndLog
        } else if warned {
            SignatureStep::SkipQuietly
        } else {
            SignatureStep::WarnNoVerifier
        },
        SignatureVerificationMode::Enforce => if has_verifier {
            SignatureStep::CheckAndRefuse
        } else {
            SignatureStep::RefuseNoVerifier
        },
    }
}

/// Decides what to do about the signature of a request.
pub fn signature_step(mode: SignatureVerificationMode, has_verifier: bool, warned: bool) -> (res:
    SignatureStep)
    ensures
        res == spec_signature_step(mode, has_verifier, warned),
{
    match mode {
        SignatureVerificationMode::Off => SignatureStep::Skip,
        SignatureVerificationMode::Monitor => if has_verifier {
            SignatureStep::CheckAndLog
        } else if warned {
            SignatureStep::SkipQuietly
        } else {
            SignatureStep::WarnNoVerifier
        },
        SignatureVerificationMode::Enforce => if has_verifier {
            SignatureStep::CheckAndRefuse
        } else {
            SignatureStep::RefuseNoVerifier
        },
    }
}

/// Whether the request goes on to the handlers after a step whose check,
/// if it made one, passed or failed.
pub open spec fn spec_serves(step: SignatureStep, check_passed: bool) -> bool {
    match step {
        SignatureStep::CheckAndRefuse => check_passed,
        SignatureStep::RefuseNoVerifier => false,
        _ => true,
    }
}

/// Decides whether the request is served after its signature step.
pub fn serves(step: SignatureStep, check_passed: bool) -> (res: bool)
    ensures
        res == spec_serves(step, check_passed),
{
    match step {
        SignatureStep::CheckAndRefuse => check_passed,
        SignatureStep::RefuseNoVerifier => false,
        _ => true,
    }
}

/// In enforcing mode no request with a failed or missing check is served.
pub proof fn law_enforce_refuses_unverified(has_verifier: bool, warned: bool, check_passed: bool)
    requires
        !(has_verifier && check_passed),
    ensures
        !spec_serves(
            spec_signature_step(SignatureVerificationMode::Enforce, has_verifier, warned),
            check_passed,
        ),
{
}

/// Outside enforcing mode every request is served, whatever its signature.
pub proof fn law_only_enforce_refuses(
    mode: SignatureVerificationMode,
    has_verifier: bool,
    warned: bool,
    check_passed: bool,
)
    requires
        mode != SignatureVerificationMode::Enforce,
    ensures
        spec_serves(spec_signature_step(mode, has_verifier, warned), check_passed),
{
}

/// The op code of the platform's address-validation callback.
pub const VALIDATION_OP: i64 = 13;

/// Whether a payload with this `op` is an address-validation callback.
pub fn is_validation_request(op: Option<i64>) -> (res: bool)
    ensures
        res == (op == Some(VALIDATION_OP)),
{
    match op {
        Some(v) => v == VALIDATION_OP,
        None => false,
    }
}

/// Whether `body` is a JSON document, as `serde_json::from_slice` into a
/// `serde_json::Value` decides it.
pub uninterp spec fn json_parses(body: Seq<u8>) -> bool;

/// Asks `serde_json` whether `body` is a JSON document.
///
/// Trusted: the result is named `json_parses(body)`; which byte strings
/// `serde_json` accepts as JSON is left to the name.
#[verifier::external_body]
fn is_json(body: &[u8]) -> (res: bool)
    ensures
        res == json_parses(body@),
{
    serde_json::from_slice::<serde_json::Value>(body).is_ok()
}

/// What the configured pre-processing hook made of a request.
#[derive(Debug, Clone, Copy, PartialEq, Eq)]
pub enum HookOutcome {
    /// The hook answered the request itself, such as the address-validation
    /// callback.
    Respond,
    /// The hook failed.
    Fail,
    /// The hook let the request through.
    Pass,
}

/// What the webhook endpoint does with a request.
#[derive(Debug, Clone, Copy, PartialEq, Eq)]
pub enum WebhookAction {
    /// The body is not JSON: a JSON error.
    MalformedBody,
    /// Send the hook's own response.
    HookResponse,
    /// Report the hook's failure.
    HookFailure,
    /// Refuse: enforcing needs a verifier and none is configured.
    RefuseNoVerifier,
    /// Take this signature step, then hand the event to the handlers if the
    /// step lets it through.
    Serve(SignatureStep),
}

/// The action for a request: its body must be JSON; then the hook, when one
/// is configured, runs before any signature check (so the validation
/// callback is answered even without a valid signature); then the signature
/// step of the mode decides.
pub open spec fn spec_webhook_action(
    parses: bool,
    hook: Option<HookOutcome>,
    mode: SignatureVerificationMode,
    has_verifier: bool,
    warned: bool,
) -> WebhookAction {
    if !parses {
        WebhookAction::MalformedBody
    } else {
        match hook {
            Some(HookOutcome::Respond) => WebhookAction::HookResponse,
            Some(HookOutcome::Fail) => WebhookAction::HookFailure,
            _ => {
                let step = spec_signature_step(mode, has_verifier, warned);
                if step == SignatureStep::RefuseNoVerifier {
                    WebhookAction::RefuseNoVerifier
                } else {
                    WebhookAction::Serve(step)
                }
            },
        }
    }
}

/// Decides what the webhook endpoint does with a request whose raw body is
/// `body`, given what the hook made of it (`None` when no hook is
/// configured), the signature mode, whether a verifier is configured, and
/// whether the missing verifier was already reported.
pub fn webhook_action(
    body: &[u8],
    hook: Option<HookOutcome>,
    mode: SignatureVerificationMode,
    has_verifier: bool,
    warned: bool,
) -> (res: WebhookAction)
    ensures
        res == spec_webhook_action(json_parses(body@), hook, mode, has_verifier, warned),
{
    if !is_json(body) {
        return WebhookAction::MalformedBody;
    }
    match hook {
        Some(HookOutcome::Respond) => WebhookAction::HookResponse,
        Some(HookOutcome::Fail) => WebhookAction::HookFailure,
        _ => {
            let step = signature_step(mode, has_verifier, warned);
            match step {
                SignatureStep::RefuseNoVerifier => WebhookAction::RefuseNoVerifier,
                _ => WebhookAction::Serve(step),
            }
        },
    }
}

/// The text of the error that refuses a request in enforcing mode when no
/// verifier is configured.
pub open spec fn missing_verifier_message() -> Seq<char> {
    "signature verifier is required in enforce mode"@
}

/// The error that refuses a request in enforcing mode without a verifier.
pub fn missing_verifier_error() -> (res: Error)
    ensures
        res matches Error::Other(m) && m@ == missing_verifier_message(),
{
    Error::Other("signature verifier is required in enforce mode".to_string())
}

/// A hook's response is sent whatever the signature mode: the validation
/// callback is answered even in enforcing mode without a verifier.
pub proof fn law_hook_runs_before_signature(mode: SignatureVerificationMode, has_verifier: bool, warned: bool)
    ensures
        spec_webhook_action(true, Some(HookOutcome::Respond), mode, has_verifier, warned)
            == WebhookAction::HookResponse,
{
}

/// A body that is not JSON is refused before the hook or the signature are
/// looked at.
pub proof fn law_malformed_body_first(
    hook: Option<HookOutcome>,
    mode: SignatureVerificationMode,
    has_verifier: bool,
    warned: bool,
)
    ensures
        spec_webhook_action(false, hook, mode, has_verifier, warned) == WebhookAction::MalformedBody,
{
}

/// The largest request body the endpoint accepts by default, in bytes.
pub const DEFAULT_MAX_BODY_BYTES: usize = 262144;

/// How a payload path is read: a path that starts with `/` is a JSON
/// pointer, any other path names a top-level field.
#[derive(Debug, Clone, Copy, PartialEq, Eq)]
pub enum PathKind {
    Pointer,
    Field,
}

/// Tells a JSON pointer from a field name.
pub fn path_kind(path: &str) -> (res: PathKind)
    ensures
        res == (if path@.len() > 0 && path@[0] == '/' {
            PathKind::Pointer
        } else {
            PathKind::Field
        }),
{
    let c = chars_of(path);
    if c.len() > 0 && c[0] == '/' {
        PathKind::Pointer
    } else {
        PathKind::Field
    }
}

/// Where the events of a payload are found.
#[derive(Debug, Clone)]
pub struct EventSchema {
    /// Path of the event name.
    pub name_path: String,
    /// Path of the event data; the whole payload when absent.
    pub data_path: Option<String>,
    /// Path of the event id.
    pub id_path: Option<String>,
    /// Path of the event time.
    pub timestamp_path: Option<String>,
    /// Whether a payload without data at `data_path` is refused.
    pub data_required: bool,
}

impl Default for EventSchema {
    /// The name in field `t`, the whole payload as data, no id or time.
    fn default() -> (res: Self)
        ensures
            res.name_path@ == "t"@,
            res.data_path is None,
            res.id_path is None,
            res.timestamp_path is None,
            !res.data_required,
    {
        EventSchema {
            name_path: "t".to_string(),
            data_path: None,
            id_path: None,
            timestamp_path: None,
            data_required: false,
        }
    }
}

/// Where the data of an event comes from.
#[derive(Debug, Clone, Copy, PartialEq, Eq)]
pub enum DataSource {
    /// The whole payload.
    Payload,
    /// The value found at the data path.
    Found,
    /// JSON `null`, standing for data that is absent but not required.
    Null,
    /// Nothing: the data is required and absent, so the event is refused.
    Missing,
}

impl EventSchema {
    /// Where the data of an event comes from, given whether a value was found
    /// at the data path.
    pub fn data_source(&self, found: bool) -> (res: DataSource)
        ensures
            res == (match self.data_path {
                None => DataSource::Payload,
                Some(_) => if found {
                    DataSource::Found
                } else if self.data_required {
                    DataSource::Missing
                } else {
                    DataSource::Null
                },
            }),
    {
        match &self.data_path {
            None => DataSource::Payload,
            Some(_) => if found {
                DataSource::Found
            } else if self.data_required {
                DataSource::Missing
            } else {
                DataSource::Null
            },
        }
    }
}

} // verus!
