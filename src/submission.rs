//! The submission: three named fields read from a multipart form, in the
//! order the parts arrive, with their names matched case-insensitively.
use vstd::prelude::*;

verus! {

/// What `str::to_lowercase` makes of `s`.
pub uninterp spec fn lowercase_of(s: Seq<char>) -> Seq<char>;

/// Relies on `str::to_lowercase`: the result depends on the characters alone.
#[verifier::external_body]
fn lowercase(s: &str) -> (r: String)
    ensures
        r@ == lowercase_of(s@),
{
    s.to_lowercase()
}

/// One of the three fields that a submission must carry.
#[derive(Debug, Clone, Copy, PartialEq, Eq, Structural)]
pub enum Field {
    /// `g-recaptcha-response`: the answer that the CAPTCHA widget produced.
    ChallengeResponse,
    /// `request-token`: the caller's opaque token, to be signed.
    RequestToken,
    /// `redirect-url`: where the signed token is sent.
    RedirectUrl,
}

/// Why a submission is refused. Each is the caller's fault.
#[derive(Debug, Clone, Copy, PartialEq, Eq, Structural)]
pub enum SubmissionError {
    /// The field came with an empty value.
    Empty(Field),
    /// The field never came.
    Missing(Field),
}

/// The field that a lower-cased part name stands for, if any.
pub open spec fn field_named(name: Seq<char>) -> Option<Field> {
    if name == "g-recaptcha-response"@ {
        Some(Field::ChallengeResponse)
    } else if name == "request-token"@ {
        Some(Field::RequestToken)
    } else if name == "redirect-url"@ {
        Some(Field::RedirectUrl)
    } else {
        None
    }
}

/// A complete submission: three non-empty values.
pub struct Submission {
    pub challenge_response: String,
    pub request_token: String,
    pub redirect_url: String,
}

/// The values of a submission.
pub ghost struct SubmissionView {
    pub challenge_response: Seq<char>,
    pub request_token: Seq<char>,
    pub redirect_url: Seq<char>,
}

impl View for Submission {
    type V = SubmissionView;

    open spec fn view(&self) -> SubmissionView {
        SubmissionView {
            challenge_response: self.challenge_response@,
            request_token: self.request_token@,
            redirect_url: self.redirect_url@,
        }
    }
}

/// The values of a parse result.
pub open spec fn result_view(r: Result<Submission, SubmissionError>) -> Result<
    SubmissionView,
    SubmissionError,
> {
    match r {
        Ok(s) => Ok(s@),
        Err(e) => Err(e),
    }
}

/// The fields seen so far while the parts of a form are read.
pub ghost struct PartialSubmission {
    pub challenge_response: Option<Seq<char>>,
    pub request_token: Option<Seq<char>>,
    pub redirect_url: Option<Seq<char>>,
}

/// No field seen yet.
pub open spec fn no_fields() -> PartialSubmission {
    PartialSubmission { challenge_response: None, request_token: None, redirect_url: None }
}

/// The value seen so far for one field.
pub open spec fn seen(state: PartialSubmission, field: Field) -> Option<Seq<char>> {
    match field {
        Field::ChallengeResponse => state.challenge_response,
        Field::RequestToken => state.request_token,
        Field::RedirectUrl => state.redirect_url,
    }
}

/// The state after one recognised field with a non-empty value; a later
/// value of a field replaces an earlier one.
pub open spec fn with_field(state: PartialSubmission, field: Field, value: Seq<char>) -> PartialSubmission {
    match field {
        Field::ChallengeResponse => PartialSubmission { challenge_response: Some(value), ..state },
        Field::RequestToken => PartialSubmission { request_token: Some(value), ..state },
        Field::RedirectUrl => PartialSubmission { redirect_url: Some(value), ..state },
    }
}

/// One part, named by its lower-cased name: an empty value of a recognised
/// field ends the parse; a part that names no field changes nothing.
pub open spec fn accept_step(state: PartialSubmission, lowered_name: Seq<char>, value: Seq<char>) -> Result<
    PartialSubmission,
    SubmissionError,
> {
    match field_named(lowered_name) {
        None => Ok(state),
        Some(field) => if value.len() == 0 {
            Err(SubmissionError::Empty(field))
        } else {
            Ok(with_field(state, field, value))
        },
    }
}

/// After the last part: each field must have come, checked in the order
/// challenge response, request token, redirect URL.
pub open spec fn finish_step(state: PartialSubmission) -> Result<SubmissionView, SubmissionError> {
    match (state.challenge_response, state.request_token, state.redirect_url) {
        (Some(c), Some(t), Some(u)) => Ok(
            SubmissionView { challenge_response: c, request_token: t, redirect_url: u },
        ),
        (None, _, _) => Err(SubmissionError::Missing(Field::ChallengeResponse)),
        (_, None, _) => Err(SubmissionError::Missing(Field::RequestToken)),
        (_, _, None) => Err(SubmissionError::Missing(Field::RedirectUrl)),
    }
}

/// The outcome of reading `parts` (name and value, as given) from `state` on.
pub open spec fn parse_from(state: PartialSubmission, parts: Seq<(Seq<char>, Seq<char>)>) -> Result<
    SubmissionView,
    SubmissionError,
>
    decreases parts.len(),
{
    if parts.len() == 0 {
        finish_step(state)
    } else {
        match accept_step(state, lowercase_of(parts[0].0), parts[0].1) {
            Err(e) => Err(e),
            Ok(next) => parse_from(next, parts.drop_first()),
        }
    }
}

/// The outcome of reading a whole form, its parts given as name and value.
pub open spec fn parse_form(parts: Seq<(Seq<char>, Seq<char>)>) -> Result<SubmissionView, SubmissionError> {
    parse_from(no_fields(), parts)
}

/// The names and values of parts as values.
pub open spec fn parts_view(parts: Seq<(String, String)>) -> Seq<(Seq<char>, Seq<char>)> {
    parts.map_values(|p: (String, String)| (p.0@, p.1@))
}

/// Whether two strings hold the same characters.
fn same_text(a: &str, b: &str) -> (r: bool)
    ensures
        r == (a@ == b@),
{
    let n = a.unicode_len();
    if n != b.unicode_len() {
        return false;
    }
    let mut i: usize = 0;
    while i < n
        invariant
            n == a@.len(),
            n == b@.len(),
            i <= n,
            forall|j: int| 0 <= j < i ==> a@[j] == b@[j],
        decreases n - i,
    {
        if a.get_char(i) != b.get_char(i) {
            return false;
        }
        i = i + 1;
    }
    assert(a@ =~= b@);
    true
}

/// The field that a lower-cased part name stands for, if any.
pub fn field_for_lowered_name(lowered_name: &str) -> (r: Option<Field>)
    ensures
        r == field_named(lowered_name@),
{
    if same_text(lowered_name, "g-recaptcha-response") {
        Some(Field::ChallengeResponse)
    } else if same_text(lowered_name, "request-token") {
        Some(Field::RequestToken)
    } else if same_text(lowered_name, "redirect-url") {
        Some(Field::RedirectUrl)
    } else {
        None
    }
}

/// The field that a part name stands for, matched without regard to case.
pub fn field_for_name(name: &str) -> (r: Option<Field>)
    ensures
        r == field_named(lowercase_of(name@)),
{
    let lowered = lowercase(name);
    field_for_lowered_name(lowered.as_str())
}

/// Reads the parts of a form one at a time.
pub struct SubmissionParser {
    challenge_response: Option<String>,
    request_token: Option<String>,
    redirect_url: Option<String>,
}

/// The value of an optional string.
pub open spec fn opt_view(o: Option<String>) -> Option<Seq<char>> {
    match o {
        Some(s) => Some(s@),
        None => None,
    }
}

impl View for SubmissionParser {
    type V = PartialSubmission;

    closed spec fn view(&self) -> PartialSubmission {
        PartialSubmission {
            challenge_response: opt_view(self.challenge_response),
            request_token: opt_view(self.request_token),
            redirect_url: opt_view(self.redirect_url),
        }
    }
}

impl SubmissionParser {
    /// A parser that has seen no field.
    pub fn new() -> (r: SubmissionParser)
        ensures
            r@ == no_fields(),
    {
        SubmissionParser { challenge_response: None, request_token: None, redirect_url: None }
    }

    /// Takes the value of a recognised field; an empty value is refused and
    /// leaves the parser as it was.
    pub fn accept_field(&mut self, field: Field, value: &str) -> (r: Result<(), SubmissionError>)
        ensures
            value@.len() == 0 ==> r == Err::<(), _>(SubmissionError::Empty(field)) && final(self)@
                == old(self)@,
            value@.len() > 0 ==> r is Ok && final(self)@ == with_field(old(self)@, field, value@),
    {
        if value.is_empty() {
            return Err(SubmissionError::Empty(field));
        }
        let v = value.to_owned();
        match field {
            Field::ChallengeResponse => {
                self.challenge_response = Some(v);
            },
            Field::RequestToken => {
                self.request_token = Some(v);
            },
            Field::RedirectUrl => {
                self.redirect_url = Some(v);
            },
        }
        Ok(())
    }

    /// Takes one part whose name is already lower-cased.
    pub fn accept_lowered(&mut self, lowered_name: &str, value: &str) -> (r: Result<(), SubmissionError>)
        ensures
            match accept_step(old(self)@, lowered_name@, value@) {
                Ok(next) => r is Ok && final(self)@ == next,
                Err(e) => r == Err::<(), _>(e) && final(self)@ == old(self)@,
            },
    {
        match field_for_lowered_name(lowered_name) {
            None => Ok(()),
            Some(field) => self.accept_field(field, value),
        }
    }

    /// Takes one part as it came: its name is matched without regard to case.
    pub fn accept(&mut self, name: &str, value: &str) -> (r: Result<(), SubmissionError>)
        ensures
            match accept_step(old(self)@, lowercase_of(name@), value@) {
                Ok(next) => r is Ok && final(self)@ == next,
                Err(e) => r == Err::<(), _>(e) && final(self)@ == old(self)@,
            },
    {
        let lowered = lowercase(name);
        self.accept_lowered(lowered.as_str(), value)
    }

    /// Ends the parse: the submission, or the first field that never came.
    pub fn finish(self) -> (r: Result<Submission, SubmissionError>)
        ensures
            result_view(r) == finish_step(self@),
    {
        let challenge_response = match self.challenge_response {
            Some(v) => v,
            None => {
                return Err(SubmissionError::Missing(Field::ChallengeResponse));
            },
        };
        let request_token = match self.request_token {
            Some(v) => v,
            None => {
                return Err(SubmissionError::Missing(Field::RequestToken));
            },
        };
        let redirect_url = match self.redirect_url {
            Some(v) => v,
            None => {
                return Err(SubmissionError::Missing(Field::RedirectUrl));
            },
        };
        Ok(Submission { challenge_response, request_token, redirect_url })
    }
}

/// Reads a whole form, its parts given in arrival order as name and value.
pub fn parse_parts(parts: &Vec<(String, String)>) -> (r: Result<Submission, SubmissionError>)
    ensures
        result_view(r) == parse_form(parts_view(parts@)),
{
    let ghost all = parts_view(parts@);
    let mut parser = SubmissionParser::new();
    let mut i: usize = 0;
    assert(all.skip(0) =~= all);
    while i < parts.len()
        invariant
            all == parts_view(parts@),
            i <= parts@.len(),
            parse_form(all) == parse_from(parser@, all.skip(i as int)),
        decreases parts@.len() - i,
    {
        let ghost rest = all.skip(i as int);
        assert(rest.drop_first() =~= all.skip(i + 1));
        let step = parser.accept(parts[i].0.as_str(), parts[i].1.as_str());
        if let Err(e) = step {
            return Err(e);
        }
        i = i + 1;
    }
    assert(all.skip(i as int) =~= Seq::<(Seq<char>, Seq<char>)>::empty());
    parser.finish()
}

/// A field that no part names is never filled in: reading the parts ends
/// in a refusal.
pub proof fn lemma_unnamed_field_refused(
    state: PartialSubmission,
    parts: Seq<(Seq<char>, Seq<char>)>,
    field: Field,
)
    requires
        seen(state, field) is None,
        forall|i: int| 0 <= i < parts.len() ==> field_named(lowercase_of(#[trigger] parts[i].0)) != Some(field),
    ensures
        parse_from(state, parts) is Err,
    decreases parts.len(),
{
    if parts.len() > 0 {
        match accept_step(state, lowercase_of(parts[0].0), parts[0].1) {
            Err(e) => {},
            Ok(next) => {
                let rest = parts.drop_first();
                assert forall|i: int| 0 <= i < rest.len() implies field_named(
                    lowercase_of(#[trigger] rest[i].0),
                ) != Some(field) by {
                    assert(rest[i] == parts[i + 1]);
                }
                lemma_unnamed_field_refused(next, rest, field);
            },
        }
    }
}

/// A recognised part with an empty value makes the parse fail on an empty
/// field, at that part or at an earlier one.
pub proof fn lemma_empty_value_refused(
    state: PartialSubmission,
    parts: Seq<(Seq<char>, Seq<char>)>,
    i: int,
)
    requires
        0 <= i < parts.len(),
        field_named(lowercase_of(parts[i].0)) is Some,
        parts[i].1.len() == 0,
    ensures
        parse_from(state, parts) matches Err(SubmissionError::Empty(_)),
    decreases parts.len(),
{
    match accept_step(state, lowercase_of(parts[0].0), parts[0].1) {
        Err(e) => {},
        Ok(next) => {
            let rest = parts.drop_first();
            assert(i > 0);
            assert(rest[i - 1] == parts[i]);
            lemma_empty_value_refused(next, rest, i - 1);
        },
    }
}

/// Every field seen so far holds a non-empty value.
pub open spec fn seen_values_non_empty(state: PartialSubmission) -> bool {
    &&& state.challenge_response matches Some(v) ==> v.len() > 0
    &&& state.request_token matches Some(v) ==> v.len() > 0
    &&& state.redirect_url matches Some(v) ==> v.len() > 0
}

/// A submission that the parse accepts has all three values, none empty.
pub proof fn lemma_accepted_values_non_empty(state: PartialSubmission, parts: Seq<(Seq<char>, Seq<char>)>)
    requires
        seen_values_non_empty(state),
    ensures
        parse_from(state, parts) matches Ok(s) ==> s.challenge_response.len() > 0
            && s.request_token.len() > 0 && s.redirect_url.len() > 0,
    decreases parts.len(),
{
    if parts.len() > 0 {
        match accept_step(state, lowercase_of(parts[0].0), parts[0].1) {
            Err(e) => {},
            Ok(next) => {
                lemma_accepted_values_non_empty(next, parts.drop_first());
            },
        }
    }
}

} // verus!
