use vstd::prelude::*;

use crate::error::ApiError;
use crate::provider::{build_messages, is_push_token, push_token_format, PushMessage};
use crate::recipients::{
    adhoc_fields, body_chars, collect_push_tokens, parse_adhoc_request, present_tokens,
    strings_view, RequestBody,
};
use crate::secrets::{str_eq, SecretSet};

verus! {

/// A response: status code, whether the text is an error (else a message),
/// and the text.
pub struct Reply {
    pub status: u16,
    pub is_error: bool,
    pub text: String,
}

impl View for Reply {
    type V = (u16, bool, Seq<char>);

    open spec fn view(&self) -> (u16, bool, Seq<char>) {
        (self.status, self.is_error, self.text@)
    }
}

fn reply(status: u16, is_error: bool, text: &str) -> (r: Reply)
    ensures
        r@ == (status, is_error, text@),
{
    Reply { status, is_error, text: String::from_str(text) }
}

pub open spec fn forbidden_reply() -> (u16, bool, Seq<char>) {
    (403, true, "Forbidden: Invalid API Key"@)
}

pub open spec fn invalid_body_reply() -> (u16, bool, Seq<char>) {
    (400, true, "Invalid request body"@)
}

pub open spec fn invalid_token_reply() -> (u16, bool, Seq<char>) {
    (400, true, "Invalid expo push token"@)
}

pub open spec fn method_not_allowed_reply() -> (u16, bool, Seq<char>) {
    (405, true, "Method not allowed"@)
}

pub open spec fn no_tokens_reply() -> (u16, bool, Seq<char>) {
    (200, false, "No push tokens found."@)
}

pub open spec fn sent_reply() -> (u16, bool, Seq<char>) {
    (200, false, "Push notifications sent successfully"@)
}

pub open spec fn send_failed_reply() -> (u16, bool, Seq<char>) {
    (500, true, "Failed to send some push notifications"@)
}

pub open spec fn internal_error_reply() -> (u16, bool, Seq<char>) {
    (500, true, "Internal Server Error"@)
}

/// The response that each error kind maps to: validation errors to precise
/// 4xx responses, everything from remote calls to one generic 500.
pub open spec fn error_reply_of(e: ApiError) -> (u16, bool, Seq<char>) {
    match e {
        ApiError::InvalidApiKey => forbidden_reply(),
        ApiError::InvalidBody => invalid_body_reply(),
        ApiError::BadRequest(m) => (400, true, "Bad request: "@ + m@),
        _ => internal_error_reply(),
    }
}

/// The response for an error.
pub fn error_reply(e: &ApiError) -> (r: Reply)
    ensures
        r@ == error_reply_of(*e),
{
    match e {
        ApiError::InvalidApiKey => reply(403, true, "Forbidden: Invalid API Key"),
        ApiError::InvalidBody => reply(400, true, "Invalid request body"),
        ApiError::BadRequest(m) => Reply {
            status: 400,
            is_error: true,
            text: String::from_str("Bad request: ").concat(m.as_str()),
        },
        _ => reply(500, true, "Internal Server Error"),
    }
}

/// Whether the presented key equals the expected one, byte for byte.
pub fn api_key_matches(expected: &[u8], presented: Option<&[u8]>) -> (r: bool)
    ensures
        r == (presented.is_some() && presented.unwrap()@ == expected@),
{
    match presented {
        None => false,
        Some(p) => {
            if p.len() != expected.len() {
                return false;
            }
            let mut i: usize = 0;
            while i < p.len()
                invariant
                    presented == Some(p),
                    p@.len() == expected@.len(),
                    i <= p@.len(),
                    forall|j: int| 0 <= j < i ==> p@[j] == expected@[j],
                decreases p@.len() - i,
            {
                if p[i] != expected[i] {
                    assert(p@[i as int] != expected@[i as int]);
                    return false;
                }
                i = i + 1;
            }
            assert(p@ =~= expected@);
            true
        },
    }
}

/// The first gate: `None` lets the request through; a missing or wrong key
/// yields 403, whatever the method and body.
pub fn authenticate(expected: &[u8], presented: Option<&[u8]>) -> (r: Option<Reply>)
    ensures
        r is None == (presented.is_some() && presented.unwrap()@ == expected@),
        r matches Some(p) ==> p@ == forbidden_reply(),
{
    if api_key_matches(expected, presented) {
        None
    } else {
        Some(reply(403, true, "Forbidden: Invalid API Key"))
    }
}

/// The provider access token from the secret set.
pub fn provider_access_token(secrets: &SecretSet) -> (r: Result<String, ApiError>)
    ensures
        secrets@.contains_key("expo-access-token"@) ==> (r matches Ok(v) && v@
            == secrets@["expo-access-token"@]),
        !secrets@.contains_key("expo-access-token"@) ==> (r matches Err(
            ApiError::MissingSecret(k),
        ) && k@ == "expo-access-token"@),
{
    secrets.require("expo-access-token")
}

/// Which recipient source a request method selects.
#[derive(Debug, Clone, Copy, PartialEq, Eq, Structural)]
pub enum Route {
    Scheduled,
    Adhoc,
    NotAllowed,
}

pub open spec fn route_of(method: Seq<char>) -> Route {
    if method == "GET"@ {
        Route::Scheduled
    } else if method == "POST"@ {
        Route::Adhoc
    } else {
        Route::NotAllowed
    }
}

/// `GET` selects the store, `POST` the request body; nothing else is allowed.
pub fn route(method: &str) -> (r: Route)
    ensures
        r == route_of(method@),
{
    if str_eq(method, "GET") {
        Route::Scheduled
    } else if str_eq(method, "POST") {
        Route::Adhoc
    } else {
        Route::NotAllowed
    }
}

/// The 405 response for a method that selects no recipient source.
pub fn method_not_allowed() -> (r: Reply)
    ensures
        r@ == method_not_allowed_reply(),
{
    reply(405, true, "Method not allowed")
}

/// A title, a body and the recipients to send them to.
pub struct Notification {
    pub title: String,
    pub body: String,
    pub recipients: Vec<String>,
}

impl View for Notification {
    type V = (Seq<char>, Seq<char>, Seq<Seq<char>>);

    open spec fn view(&self) -> (Seq<char>, Seq<char>, Seq<Seq<char>>) {
        (self.title@, self.body@, strings_view(self.recipients@))
    }
}

pub open spec fn scheduled_title() -> Seq<char> {
    "25日だよ"@
}

pub open spec fn scheduled_body() -> Seq<char> {
    "パートナーに請求しよう"@
}

/// The scheduled notification: fixed title and body, sent to every store row
/// that holds a token.
pub fn scheduled_notification(token_fields: &Vec<Option<String>>) -> (r: Notification)
    ensures
        r@ == (scheduled_title(), scheduled_body(), present_tokens(token_fields@)),
{
    Notification {
        title: String::from_str("25日だよ"),
        body: String::from_str("パートナーに請求しよう"),
        recipients: collect_push_tokens(token_fields),
    }
}

/// What an ad-hoc request body resolves to: the notification for its single
/// token, or the response that ends the request.
pub open spec fn adhoc_outcome(b: RequestBody) -> Result<
    (Seq<char>, Seq<char>, Seq<Seq<char>>),
    (u16, bool, Seq<char>),
> {
    match body_chars(b) {
        None => Err(invalid_body_reply()),
        Some(t) => match adhoc_fields(t) {
            None => Err(invalid_body_reply()),
            Some(Err(m)) => Err((400, true, "Bad request: "@ + m)),
            Some(Ok((title, body, token))) => if push_token_format(token) {
                Ok((title, body, seq![token]))
            } else {
                Err(invalid_token_reply())
            },
        },
    }
}

/// Resolves an ad-hoc request body to a one-recipient notification; a
/// malformed body, a missing field or a malformed token ends the request
/// with a 400 response.
pub fn adhoc_notification(body: &RequestBody) -> (r: Result<Notification, Reply>)
    ensures
        match r {
            Ok(n) => adhoc_outcome(*body) == Ok::<_, (u16, bool, Seq<char>)>(n@),
            Err(p) => adhoc_outcome(*body) == Err::<(Seq<char>, Seq<char>, Seq<Seq<char>>), _>(
                p@,
            ),
        },
{
    match parse_adhoc_request(body) {
        Err(e) => Err(error_reply(&e)),
        Ok(req) => {
            if is_push_token(req.push_token.as_str()) {
                let ghost tok = req.push_token@;
                let mut recipients: Vec<String> = Vec::new();
                recipients.push(req.push_token);
                let n = Notification { title: req.title, body: req.body, recipients };
                assert(strings_view(n.recipients@) =~= seq![tok]);
                Ok(n)
            } else {
                Err(reply(400, true, "Invalid expo push token"))
            }
        },
    }
}

/// What comes after recipient resolution: a response with nothing to send,
/// or the batch to send.
pub enum Dispatch {
    Done(Reply),
    Send(Vec<PushMessage>),
}

/// The messages that a notification's batch is made of, as recipient token,
/// title and body; `None` when there is nothing to send.
pub open spec fn batch_of(n: (Seq<char>, Seq<char>, Seq<Seq<char>>)) -> Option<
    Seq<(Seq<char>, Seq<char>, Seq<char>)>,
> {
    if n.2.len() == 0 {
        None
    } else {
        Some(n.2.map_values(|t: Seq<char>| (t, n.0, n.1)))
    }
}

/// The views of a sequence of messages.
pub open spec fn messages_view(ms: Seq<PushMessage>) -> Seq<(Seq<char>, Seq<char>, Seq<char>)> {
    ms.map_values(|m: PushMessage| m@)
}

/// An empty recipient list ends the request with the no-op response; else one
/// message is built per recipient, and one refused token fails the batch.
pub fn prepare_dispatch(n: &Notification) -> (r: Result<Dispatch, ApiError>)
    ensures
        batch_of(n@) is None ==> (r matches Ok(Dispatch::Done(p)) && p@ == no_tokens_reply()),
        batch_of(n@) is Some && (forall|i: int|
            0 <= i < n@.2.len() ==> push_token_format(#[trigger] n@.2[i])) ==> (r matches Ok(
            Dispatch::Send(ms),
        ) && messages_view(ms@) == batch_of(n@).unwrap()),
        batch_of(n@) is Some && !(forall|i: int|
            0 <= i < n@.2.len() ==> push_token_format(#[trigger] n@.2[i])) ==> (r matches Err(
            ApiError::PushMessageBuild,
        )),
{
    if n.recipients.len() == 0 {
        return Ok(Dispatch::Done(reply(200, false, "No push tokens found.")));
    }
    let r = build_messages(&n.title, &n.body, &n.recipients);
    assert(forall|i: int| 0 <= i < n.recipients@.len() ==> n@.2[i] == #[trigger] n.recipients@[i]@);
    match r {
        Ok(ms) => {
            assert(messages_view(ms@) =~= batch_of(n@).unwrap());
            Ok(Dispatch::Send(ms))
        },
        Err(e) => Err(e),
    }
}

/// A well-formed ad-hoc request with a well-formed token resolves to exactly
/// one recipient, and its batch is exactly one message for that token.
pub proof fn lemma_adhoc_single_message(
    b: RequestBody,
    title: Seq<char>,
    body: Seq<char>,
    token: Seq<char>,
)
    requires
        body_chars(b) matches Some(t) && adhoc_fields(t) == Some(
            Ok::<_, Seq<char>>((title, body, token)),
        ),
        push_token_format(token),
    ensures
        adhoc_outcome(b) == Ok::<_, (u16, bool, Seq<char>)>((title, body, seq![token])),
        batch_of((title, body, seq![token])) == Some(seq![(token, title, body)]),
{
    let n = (title, body, seq![token]);
    assert(n.2.map_values(|t: Seq<char>| (t, n.0, n.1)) =~= seq![(token, title, body)]);
}

/// The response for a finished batch, given whether each send succeeded: any
/// failure makes the whole batch a failure.
pub fn aggregate(outcomes: &Vec<bool>) -> (r: Reply)
    ensures
        (forall|i: int| 0 <= i < outcomes@.len() ==> #[trigger] outcomes@[i]) ==> r@ == sent_reply(),
        (exists|i: int| 0 <= i < outcomes@.len() && !#[trigger] outcomes@[i]) ==> r@
            == send_failed_reply(),
{
    let mut i: usize = 0;
    while i < outcomes.len()
        invariant
            i <= outcomes@.len(),
            forall|j: int| 0 <= j < i ==> #[trigger] outcomes@[j],
        decreases outcomes@.len() - i,
    {
        if !outcomes[i] {
            return reply(500, true, "Failed to send some push notifications");
        }
        i = i + 1;
    }
    reply(200, false, "Push notifications sent successfully")
}

} // verus!
