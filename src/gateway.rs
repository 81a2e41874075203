//! The verification-and-signing transaction: what to answer a submission,
//! given the settings, the parsed form and the verification service's answer.
use vstd::prelude::*;
use crate::config::ConfigError;
use crate::config::GatewayConfig;
use crate::redirect::redirect_for_signature;
use crate::redirect::redirect_target;
use crate::signer::hex_of;
use crate::signer::sign_token;
use crate::signer::token_signature_hex;
use crate::submission::Field;
use crate::submission::Submission;
use crate::submission::SubmissionError;
use crate::submission::SubmissionView;
use crate::submission::field_named;
use crate::submission::lemma_accepted_values_non_empty;
use crate::submission::lemma_empty_value_refused;
use crate::submission::lemma_unnamed_field_refused;
use crate::submission::lowercase_of;
use crate::submission::no_fields;
use crate::submission::parse_form;
use crate::submission::result_view;

verus! {

/// HTTP status of a redirect to the signed target ("see other").
pub const SEE_OTHER: u16 = 303;

/// HTTP status of a caller error.
pub const BAD_REQUEST: u16 = 400;

/// HTTP status of a server error.
pub const INTERNAL_SERVER_ERROR: u16 = 500;

/// What came of the one call to the verification service.
#[derive(Debug, PartialEq, Eq)]
pub enum VerificationOutcome {
    /// The service could not be reached; the transport's own description.
    TransportFailure(String),
    /// The service answered with a body that holds no `success` flag.
    MalformedResponse,
    /// The service's `success` flag.
    Verified(bool),
}

/// Why a submission gets no signature.
#[derive(Debug, PartialEq, Eq)]
pub enum GatewayError {
    /// The settings are missing or malformed.
    Config(ConfigError),
    /// The form lacks a field or has an empty one.
    Submission(SubmissionError),
    /// The verification service could not be reached.
    VerificationUnreachable(String),
    /// The verification service's answer could not be read.
    VerificationResponseInvalid,
    /// The verification service did not accept the challenge response.
    ChallengeRejected,
}

/// The HTTP status that answers an error.
pub open spec fn error_status(e: GatewayError) -> u16 {
    match e {
        GatewayError::Submission(_) | GatewayError::ChallengeRejected => BAD_REQUEST,
        _ => INTERNAL_SERVER_ERROR,
    }
}

/// The plain-text body that answers an error.
pub open spec fn error_message(e: GatewayError) -> Seq<char> {
    match e {
        GatewayError::Config(ConfigError::SigningKeyNotSet) => "Private key is not set."@,
        GatewayError::Config(ConfigError::SigningKeyInvalid) => "Invalid private key."@,
        GatewayError::Config(ConfigError::SigningKeyLength) => "Invalid private key length."@,
        GatewayError::Config(ConfigError::VerificationSecretNotSet) => "Recaptcha secret is not set."@,
        GatewayError::Submission(SubmissionError::Empty(Field::ChallengeResponse)) => "Recaptcha response is empty."@,
        GatewayError::Submission(SubmissionError::Empty(Field::RequestToken)) => "Request token is empty."@,
        GatewayError::Submission(SubmissionError::Empty(Field::RedirectUrl)) => "Redirect URL is empty."@,
        GatewayError::Submission(SubmissionError::Missing(Field::ChallengeResponse)) => "Recaptcha response is missing."@,
        GatewayError::Submission(SubmissionError::Missing(Field::RequestToken)) => "Request token is missing."@,
        GatewayError::Submission(SubmissionError::Missing(Field::RedirectUrl)) => "Redirect URL is missing."@,
        GatewayError::VerificationUnreachable(detail) => "Recaptcha request failed: "@ + detail@,
        GatewayError::VerificationResponseInvalid => "Recaptcha response is invalid."@,
        GatewayError::ChallengeRejected => "Recaptcha response is invalid."@,
    }
}

impl GatewayError {
    /// The HTTP status that answers this error: 400 for the caller's
    /// faults, 500 for the server's.
    pub fn status(&self) -> (r: u16)
        ensures
            r == error_status(*self),
    {
        match self {
            GatewayError::Submission(_) | GatewayError::ChallengeRejected => BAD_REQUEST,
            _ => INTERNAL_SERVER_ERROR,
        }
    }

    /// Whether the caller is at fault and must correct the submission.
    pub fn is_client_error(&self) -> (r: bool)
        ensures
            r == (error_status(*self) == BAD_REQUEST),
    {
        self.status() == BAD_REQUEST
    }

    /// The plain-text body that answers this error.
    pub fn message(&self) -> (r: String)
        ensures
            r@ == error_message(*self),
    {
        match self {
            GatewayError::Config(ConfigError::SigningKeyNotSet) => String::from_str("Private key is not set."),
            GatewayError::Config(ConfigError::SigningKeyInvalid) => String::from_str("Invalid private key."),
            GatewayError::Config(ConfigError::SigningKeyLength) => String::from_str("Invalid private key length."),
            GatewayError::Config(ConfigError::VerificationSecretNotSet) => String::from_str("Recaptcha secret is not set."),
            GatewayError::Submission(SubmissionError::Empty(Field::ChallengeResponse)) => String::from_str("Recaptcha response is empty."),
            GatewayError::Submission(SubmissionError::Empty(Field::RequestToken)) => String::from_str("Request token is empty."),
            GatewayError::Submission(SubmissionError::Empty(Field::RedirectUrl)) => String::from_str("Redirect URL is empty."),
            GatewayError::Submission(SubmissionError::Missing(Field::ChallengeResponse)) => String::from_str("Recaptcha response is missing."),
            GatewayError::Submission(SubmissionError::Missing(Field::RequestToken)) => String::from_str("Request token is missing."),
            GatewayError::Submission(SubmissionError::Missing(Field::RedirectUrl)) => String::from_str("Redirect URL is missing."),
            GatewayError::VerificationUnreachable(detail) => {
                let mut m = String::from_str("Recaptcha request failed: ");
                m.append(detail.as_str());
                m
            },
            GatewayError::VerificationResponseInvalid => String::from_str("Recaptcha response is invalid."),
            GatewayError::ChallengeRejected => String::from_str("Recaptcha response is invalid."),
        }
    }
}

/// An HTTP answer: status, `Location` header where there is one, and body.
pub struct Reply {
    pub status: u16,
    pub location: Option<String>,
    pub body: String,
}

/// The values of a reply.
pub ghost struct ReplyView {
    pub status: u16,
    pub location: Option<Seq<char>>,
    pub body: Seq<char>,
}

impl View for Reply {
    type V = ReplyView;

    open spec fn view(&self) -> ReplyView {
        ReplyView {
            status: self.status,
            location: match self.location {
                Some(l) => Some(l@),
                None => None,
            },
            body: self.body@,
        }
    }
}

/// The reply to an error: its status and its message, and no redirect.
pub open spec fn error_reply_view(e: GatewayError) -> ReplyView {
    ReplyView { status: error_status(e), location: None, body: error_message(e) }
}

/// The redirect that carries the token and its signature.
pub open spec fn signed_reply_view(url: Seq<char>, token: Seq<char>, signature_hex: Seq<char>) -> ReplyView {
    ReplyView {
        status: SEE_OTHER,
        location: Some(redirect_target(url, token, signature_hex)),
        body: "Redirecting..."@,
    }
}

/// The reply to a submission once the verification service has answered.
pub open spec fn conclude_view(
    signing_key: Seq<u8>,
    submission: SubmissionView,
    outcome: VerificationOutcome,
) -> ReplyView {
    match outcome {
        VerificationOutcome::TransportFailure(detail) => error_reply_view(
            GatewayError::VerificationUnreachable(detail),
        ),
        VerificationOutcome::MalformedResponse => error_reply_view(
            GatewayError::VerificationResponseInvalid,
        ),
        VerificationOutcome::Verified(false) => error_reply_view(GatewayError::ChallengeRejected),
        VerificationOutcome::Verified(true) => signed_reply_view(
            submission.redirect_url,
            submission.request_token,
            token_signature_hex(signing_key, submission.request_token),
        ),
    }
}

/// The reply to an error.
pub fn error_reply(e: &GatewayError) -> (r: Reply)
    ensures
        r@ == error_reply_view(*e),
{
    Reply { status: e.status(), location: None, body: e.message() }
}

/// The redirect to `url` with the token and a signature of it, given as
/// its 64 bytes.
pub fn signed_reply(url: &str, token: &str, signature: &[u8; 64]) -> (r: Reply)
    ensures
        r@ == signed_reply_view(url@, token@, hex_of(signature@)),
{
    let location = redirect_for_signature(url, token, signature);
    Reply { status: SEE_OTHER, location: Some(location), body: String::from_str("Redirecting...") }
}

/// Acts on the verification service's answer: only a `true` flag has the
/// token signed and the caller redirected.
pub fn conclude(config: &GatewayConfig, submission: &Submission, outcome: &VerificationOutcome) -> (r:
    Reply)
    ensures
        r@ == conclude_view(config.spec_signing_key(), submission@, *outcome),
{
    match outcome {
        VerificationOutcome::TransportFailure(detail) => error_reply(
            &GatewayError::VerificationUnreachable(detail.clone()),
        ),
        VerificationOutcome::MalformedResponse => error_reply(&GatewayError::VerificationResponseInvalid),
        VerificationOutcome::Verified(success) => {
            if *success {
                let signature = sign_token(config.signing_key(), submission.request_token.as_str());
                signed_reply(submission.redirect_url.as_str(), submission.request_token.as_str(), &signature)
            } else {
                error_reply(&GatewayError::ChallengeRejected)
            }
        },
    }
}

/// The one call to make to the verification service: the shared secret
/// and the challenge response, sent as form fields `secret` and `response`.
pub struct VerificationRequest {
    pub secret: String,
    pub response: String,
}

impl VerificationRequest {
    /// The form fields of the call, in order.
    pub fn form_fields(&self) -> (r: Vec<(String, String)>)
        ensures
            r@.len() == 2,
            r@[0].0@ == "secret"@,
            r@[0].1@ == self.secret@,
            r@[1].0@ == "response"@,
            r@[1].1@ == self.response@,
    {
        let mut fields: Vec<(String, String)> = Vec::new();
        fields.push((String::from_str("secret"), self.secret.clone()));
        fields.push((String::from_str("response"), self.response.clone()));
        fields
    }
}

/// What to do next with a parsed submission.
pub enum Step {
    /// Call the verification service.
    Verify(VerificationRequest),
    /// Answer at once; no outbound call is made.
    Respond(Reply),
}

/// The values of a step.
pub ghost enum StepView {
    Verify { secret: Seq<char>, response: Seq<char> },
    Respond(ReplyView),
}

impl View for Step {
    type V = StepView;

    open spec fn view(&self) -> StepView {
        match self {
            Step::Verify(req) => StepView::Verify { secret: req.secret@, response: req.response@ },
            Step::Respond(reply) => StepView::Respond(reply@),
        }
    }
}

/// A complete submission is sent for verification with the shared secret;
/// a refused one is answered with its error.
pub open spec fn begin_view(secret: Seq<char>, parsed: Result<SubmissionView, SubmissionError>) -> StepView {
    match parsed {
        Ok(s) => StepView::Verify { secret, response: s.challenge_response },
        Err(e) => StepView::Respond(error_reply_view(GatewayError::Submission(e))),
    }
}

/// Decides what follows the parse of a form.
pub fn begin(config: &GatewayConfig, parsed: &Result<Submission, SubmissionError>) -> (r: Step)
    ensures
        r@ == begin_view(config.spec_verification_secret(), result_view(*parsed)),
{
    match parsed {
        Ok(s) => Step::Verify(
            VerificationRequest {
                secret: config.verification_secret().to_owned(),
                response: s.challenge_response.clone(),
            },
        ),
        Err(e) => Step::Respond(error_reply(&GatewayError::Submission(*e))),
    }
}

/// The verification service is called only for a complete form, and then
/// with the shared secret and a non-empty challenge response; the token and
/// the URL that it carries are non-empty too.
pub proof fn lemma_call_only_for_complete_form(secret: Seq<char>, parts: Seq<(Seq<char>, Seq<char>)>)
    ensures
        begin_view(secret, parse_form(parts)) matches StepView::Verify { secret: s, response } ==> {
            &&& s == secret
            &&& parse_form(parts) matches Ok(sub)
            &&& response == sub.challenge_response
            &&& response.len() > 0
            &&& sub.request_token.len() > 0
            &&& sub.redirect_url.len() > 0
        },
{
    lemma_accepted_values_non_empty(no_fields(), parts);
}

/// A form in which no part names one of the three fields is refused as the
/// caller's error, and no call to the verification service is made.
pub proof fn lemma_missing_field_no_call(
    secret: Seq<char>,
    parts: Seq<(Seq<char>, Seq<char>)>,
    field: Field,
)
    requires
        forall|i: int| 0 <= i < parts.len() ==> field_named(lowercase_of(#[trigger] parts[i].0)) != Some(field),
    ensures
        begin_view(secret, parse_form(parts)) matches StepView::Respond(reply)
            && reply.status == BAD_REQUEST && reply.location is None,
{
    lemma_unnamed_field_refused(no_fields(), parts, field);
}

/// A form with a recognised field whose value is empty is refused as the
/// caller's error for an empty field, and no call to the verification
/// service is made.
pub proof fn lemma_empty_field_no_call(secret: Seq<char>, parts: Seq<(Seq<char>, Seq<char>)>, i: int)
    requires
        0 <= i < parts.len(),
        field_named(lowercase_of(parts[i].0)) is Some,
        parts[i].1.len() == 0,
    ensures
        parse_form(parts) matches Err(SubmissionError::Empty(_)),
        begin_view(secret, parse_form(parts)) matches StepView::Respond(reply)
            && reply.status == BAD_REQUEST && reply.location is None,
{
    lemma_empty_value_refused(no_fields(), parts, i);
}

/// The message for an empty field is never the message for a missing one.
pub proof fn lemma_empty_and_missing_messages_differ(empty: Field, missing: Field)
    ensures
        error_message(GatewayError::Submission(SubmissionError::Empty(empty))) != error_message(
            GatewayError::Submission(SubmissionError::Missing(missing)),
        ),
{
    reveal_strlit("Recaptcha response is empty.");
    reveal_strlit("Request token is empty.");
    reveal_strlit("Redirect URL is empty.");
    reveal_strlit("Recaptcha response is missing.");
    reveal_strlit("Request token is missing.");
    reveal_strlit("Redirect URL is missing.");
    assert("Recaptcha response is empty."@.len() == 28);
    assert("Request token is empty."@.len() == 23);
    assert("Redirect URL is empty."@.len() == 22);
    assert("Recaptcha response is missing."@.len() == 30);
    assert("Request token is missing."@.len() == 25);
    assert("Redirect URL is missing."@.len() == 24);
}

/// A `false` flag from the verification service is answered as the
/// caller's error, with no redirect and so no signature.
pub proof fn lemma_rejected_challenge_unsigned(signing_key: Seq<u8>, submission: SubmissionView)
    ensures
        conclude_view(signing_key, submission, VerificationOutcome::Verified(false)).status
            == BAD_REQUEST,
        conclude_view(signing_key, submission, VerificationOutcome::Verified(false)).location is None,
{
}

/// An unreachable verification service is answered as a server error, and
/// leaves nothing behind: the same submission, once the service answers
/// `true`, is redirected with its signature.
pub proof fn lemma_transport_failure_not_remembered(
    signing_key: Seq<u8>,
    submission: SubmissionView,
    detail: String,
)
    ensures
        conclude_view(
            signing_key,
            submission,
            VerificationOutcome::TransportFailure(detail),
        ).status == INTERNAL_SERVER_ERROR,
        conclude_view(signing_key, submission, VerificationOutcome::Verified(true)) == signed_reply_view(
            submission.redirect_url,
            submission.request_token,
            token_signature_hex(signing_key, submission.request_token),
        ),
        conclude_view(signing_key, submission, VerificationOutcome::Verified(true)).status
            == SEE_OTHER,
{
}

/// Submitting the same token again, whatever challenge response comes with
/// it, gives the same signature and the same redirect: nothing but the key
/// and the token enters the signature.
pub proof fn lemma_resubmission_same_redirect(
    signing_key: Seq<u8>,
    first: SubmissionView,
    second: SubmissionView,
)
    requires
        first.request_token == second.request_token,
        first.redirect_url == second.redirect_url,
    ensures
        conclude_view(signing_key, first, VerificationOutcome::Verified(true)) == conclude_view(
            signing_key,
            second,
            VerificationOutcome::Verified(true),
        ),
{
}

} // verus!
