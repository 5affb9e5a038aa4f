use vstd::prelude::*;

use expo_push_notification_client::{Expo, ExpoPushMessage, ValidationError};

use crate::error::ApiError;

verus! {

#[verifier::external_type_specification]
#[verifier::external_body]
pub struct ExExpoPushMessage(ExpoPushMessage);

#[verifier::external_type_specification]
#[verifier::external_body]
pub struct ExValidationError(ValidationError);

/// Whether `s` begins with `p`.
pub open spec fn has_prefix(s: Seq<char>, p: Seq<char>) -> bool {
    p.len() <= s.len() && s.subrange(0, p.len() as int) == p
}

/// The bracketed token form: `ExponentPushToken[...]` or `ExpoPushToken[...]`.
pub open spec fn bracketed_token(s: Seq<char>) -> bool {
    (has_prefix(s, "ExponentPushToken["@) || has_prefix(s, "ExpoPushToken["@)) && s.len() > 0
        && s.last() == ']'
}

/// Whether `s` matches the provider's device-id pattern
/// `^[a-z\d]{8}-[a-z\d]{4}-[a-z\d]{4}-[a-z\d]{4}-[a-z\d]{12}$`.
pub uninterp spec fn matches_device_id_pattern(s: Seq<char>) -> bool;

/// The provider's token-format rule.
pub open spec fn push_token_format(s: Seq<char>) -> bool {
    bracketed_token(s) || matches_device_id_pattern(s)
}

/// Relies on `Expo::is_expo_push_token`: the bracketed forms, or a match of the
/// device-id regular expression.
#[verifier::external_body]
fn expo_token_check(token: &str) -> (r: bool)
    ensures
        r == (bracketed_token(token@) || matches_device_id_pattern(token@)),
{
    Expo::is_expo_push_token(token)
}

/// Relies on `ExpoPushMessage::builder(..).title(..).body(..).build()`: it
/// fails exactly when a recipient token fails the same rule as
/// `Expo::is_expo_push_token`.
#[verifier::external_body]
fn build_expo_message(token: &String, title: &String, body: &String) -> (r: Result<
    ExpoPushMessage,
    ValidationError,
>)
    ensures
        r.is_ok() == push_token_format(token@),
{
    ExpoPushMessage::builder(vec![token.clone()]).title(title.clone()).body(body.clone()).build()
}

/// Whether `token` satisfies the provider's token-format rule.
pub fn is_push_token(token: &str) -> (r: bool)
    ensures
        r == push_token_format(token@),
{
    expo_token_check(token)
}

/// One provider message for one recipient.
pub struct PushMessage {
    token: String,
    title: String,
    body: String,
    message: ExpoPushMessage,
}

impl View for PushMessage {
    /// Recipient token, title and body.
    type V = (Seq<char>, Seq<char>, Seq<char>);

    closed spec fn view(&self) -> (Seq<char>, Seq<char>, Seq<char>) {
        (self.token@, self.title@, self.body@)
    }
}

impl PushMessage {
    /// Builds the provider message for `token`; fails with `PushMessageBuild`
    /// when the provider refuses the token.
    pub fn new(token: String, title: String, body: String) -> (r: Result<PushMessage, ApiError>)
        ensures
            r.is_ok() == push_token_format(token@),
            r matches Ok(m) ==> m@ == (token@, title@, body@),
            r matches Err(e) ==> e == ApiError::PushMessageBuild,
    {
        match build_expo_message(&token, &title, &body) {
            Ok(message) => Ok(PushMessage { token, title, body, message }),
            Err(_) => Err(ApiError::PushMessageBuild),
        }
    }

    /// The recipient token.
    pub fn token(&self) -> (r: &String)
        ensures
            r@ == self@.0,
    {
        &self.token
    }

    /// The title.
    pub fn title(&self) -> (r: &String)
        ensures
            r@ == self@.1,
    {
        &self.title
    }

    /// The body text.
    pub fn body(&self) -> (r: &String)
        ensures
            r@ == self@.2,
    {
        &self.body
    }

    /// The provider's form of this message, for sending.
    pub fn provider_message(&self) -> &ExpoPushMessage {
        &self.message
    }
}

/// Whether `m` is the message for `token` with the given title and body.
pub open spec fn message_for(m: PushMessage, token: Seq<char>, title: Seq<char>, body: Seq<char>) -> bool {
    m@ == (token, title, body)
}

/// Builds one message per token, in order. A single refused token fails the
/// whole batch with `PushMessageBuild`.
pub fn build_messages(title: &String, body: &String, tokens: &Vec<String>) -> (r: Result<
    Vec<PushMessage>,
    ApiError,
>)
    ensures
        r.is_ok() == (forall|i: int| 0 <= i < tokens@.len() ==> push_token_format(#[trigger] tokens@[i]@)),
        r matches Ok(ms) ==> ms@.len() == tokens@.len() && forall|i: int|
            0 <= i < tokens@.len() ==> message_for(#[trigger] ms@[i], tokens@[i]@, title@, body@),
        r matches Err(e) ==> e == ApiError::PushMessageBuild,
{
    let mut out: Vec<PushMessage> = Vec::new();
    let mut i: usize = 0;
    while i < tokens.len()
        invariant
            i <= tokens@.len(),
            out@.len() == i,
            forall|j: int| 0 <= j < i ==> push_token_format(#[trigger] tokens@[j]@),
            forall|j: int| 0 <= j < i ==> message_for(#[trigger] out@[j], tokens@[j]@, title@, body@),
        decreases tokens@.len() - i,
    {
        match PushMessage::new(tokens[i].clone(), title.clone(), body.clone()) {
            Ok(m) => out.push(m),
            Err(e) => return Err(e),
        }
        i = i + 1;
    }
    Ok(out)
}

} // verus!
