use vstd::prelude::*;
use vstd::utf8::{decode_utf8, valid_utf8};

use supabase_rs::SupabaseClient;

use crate::error::ApiError;
use crate::secrets::SecretSet;

verus! {

#[verifier::external_type_specification]
#[verifier::external_body]
pub struct ExSupabaseClient(SupabaseClient);

#[verifier::external_type_specification]
#[verifier::external_body]
pub struct ExSupabaseError(supabase_rs::Error);

#[verifier::external_type_specification]
#[verifier::external_body]
pub struct ExJsonError(serde_json::Error);

/// Whether the recipient-store client accepts a project URL and access key:
/// the URL parses, uses http or https with a host, carries no credentials,
/// query or fragment, and the key is not empty.
pub uninterp spec fn store_client_accepts(url: Seq<char>, key: Seq<char>) -> bool;

/// Relies on `SupabaseClient::new`: whether it succeeds depends on its checks
/// of the URL and the key alone.
#[verifier::external_body]
fn new_store_client(url: &String, key: &String) -> (r: Result<SupabaseClient, supabase_rs::Error>)
    ensures
        r is Ok == store_client_accepts(url@, key@),
{
    SupabaseClient::new(url.clone(), key.clone())
}

/// Builds the recipient-store client from the `supabase-url` and
/// `supabase-key` secrets.
pub fn initialize_supabase_client(secrets: &SecretSet) -> (r: Result<SupabaseClient, ApiError>)
    ensures
        !secrets@.contains_key("supabase-url"@) ==> (r matches Err(ApiError::MissingSecret(k))
            && k@ == "supabase-url"@),
        secrets@.contains_key("supabase-url"@) && !secrets@.contains_key("supabase-key"@) ==> (
        r matches Err(ApiError::MissingSecret(k)) && k@ == "supabase-key"@),
        secrets@.contains_key("supabase-url"@) && secrets@.contains_key("supabase-key"@) ==> (
        r is Ok || r matches Err(ApiError::SupabaseInitialization)),
        secrets@.contains_key("supabase-url"@) && secrets@.contains_key("supabase-key"@) ==> (
        r is Ok == store_client_accepts(secrets@["supabase-url"@], secrets@["supabase-key"@])),
{
    let url = secrets.require("supabase-url")?;
    let key = secrets.require("supabase-key")?;
    match new_store_client(&url, &key) {
        Ok(c) => Ok(c),
        Err(_) => Err(ApiError::SupabaseInitialization),
    }
}

/// The character views of a sequence of strings.
pub open spec fn strings_view(v: Seq<String>) -> Seq<Seq<char>> {
    v.map_values(|s: String| s@)
}

/// The tokens of the rows that have one, in row order.
pub open spec fn present_tokens(fields: Seq<Option<String>>) -> Seq<Seq<char>>
    decreases fields.len(),
{
    if fields.len() == 0 {
        Seq::empty()
    } else {
        let rest = present_tokens(fields.drop_last());
        match fields.last() {
            Some(t) => rest.push(t@),
            None => rest,
        }
    }
}

/// Store rows that lack the token field add no recipient.
pub proof fn lemma_tokenless_rows_add_nothing(rows: Seq<Option<String>>, tokenless: Seq<Option<String>>)
    requires
        forall|i: int| 0 <= i < tokenless.len() ==> #[trigger] tokenless[i] is None,
    ensures
        present_tokens(rows + tokenless) == present_tokens(rows),
    decreases tokenless.len(),
{
    if tokenless.len() > 0 {
        let shorter = tokenless.drop_last();
        assert((rows + tokenless).drop_last() =~= rows + shorter);
        assert((rows + tokenless).last() == tokenless.last());
        lemma_tokenless_rows_add_nothing(rows, shorter);
    } else {
        assert(rows + tokenless =~= rows);
    }
}

/// Collects the token field of every store row that has one; rows without it
/// are skipped.
pub fn collect_push_tokens(fields: &Vec<Option<String>>) -> (r: Vec<String>)
    ensures
        strings_view(r@) == present_tokens(fields@),
{
    let mut out: Vec<String> = Vec::new();
    let mut i: usize = 0;
    while i < fields.len()
        invariant
            i <= fields@.len(),
            strings_view(out@) == present_tokens(fields@.take(i as int)),
        decreases fields@.len() - i,
    {
        assert(fields@.take(i as int + 1).drop_last() =~= fields@.take(i as int));
        match &fields[i] {
            Some(t) => {
                let ghost before = out@;
                out.push(t.clone());
                assert(strings_view(out@) =~= strings_view(before).push(t@));
            },
            None => {},
        }
        i = i + 1;
    }
    assert(fields@.take(fields@.len() as int) =~= fields@);
    out
}

/// The body of an incoming request.
pub enum RequestBody {
    Empty,
    Text(String),
    Binary(Vec<u8>),
}

/// The text of a body: text as is, bytes when they are valid UTF-8.
pub open spec fn body_chars(b: RequestBody) -> Option<Seq<char>> {
    match b {
        RequestBody::Empty => None,
        RequestBody::Text(s) => Some(s@),
        RequestBody::Binary(v) => if valid_utf8(v@) {
            Some(decode_utf8(v@))
        } else {
            None
        },
    }
}

/// Relies on `String::from_utf8`: it succeeds exactly on valid UTF-8 and then
/// holds the decoded characters.
#[verifier::external_body]
fn decode_utf8_bytes(bytes: &Vec<u8>) -> (r: Option<String>)
    ensures
        r.is_some() == valid_utf8(bytes@),
        r matches Some(s) ==> s@ == decode_utf8(bytes@),
{
    String::from_utf8(bytes.clone()).ok()
}

/// The text of a request body, or `InvalidBody` when it has none.
fn body_text(body: &RequestBody) -> (r: Result<String, ApiError>)
    ensures
        match body_chars(*body) {
            Some(t) => r matches Ok(s) && s@ == t,
            None => r matches Err(ApiError::InvalidBody),
        },
{
    match body {
        RequestBody::Empty => Err(ApiError::InvalidBody),
        RequestBody::Text(s) => Ok(s.clone()),
        RequestBody::Binary(b) => match decode_utf8_bytes(b) {
            Some(s) => Ok(s),
            None => Err(ApiError::InvalidBody),
        },
    }
}

/// Whether `text` parses as a JSON document.
pub uninterp spec fn is_json_text(text: Seq<char>) -> bool;

/// Relies on `serde_json::from_str::<Value>`: whether the text parses.
#[verifier::external_body]
fn parses_as_json(text: &str) -> (r: bool)
    ensures
        r == is_json_text(text@),
{
    serde_json::from_str::<serde_json::Value>(text).is_ok()
}

/// The text of a request body that holds JSON; `InvalidBody` when the body is
/// empty, is not UTF-8, or does not parse as JSON.
pub fn extract_body(body: &RequestBody) -> (r: Result<String, ApiError>)
    ensures
        match body_chars(*body) {
            Some(t) => if is_json_text(t) {
                r matches Ok(s) && s@ == t
            } else {
                r matches Err(ApiError::InvalidBody)
            },
            None => r matches Err(ApiError::InvalidBody),
        },
{
    let text = body_text(body)?;
    if parses_as_json(text.as_str()) {
        Ok(text)
    } else {
        Err(ApiError::InvalidBody)
    }
}

/// What reading member `key` of the JSON text `text` yields: `None` when the
/// text is not JSON; `Some(None)` when it is not an object with a string
/// member `key`; else that string.
pub uninterp spec fn json_string_member(text: Seq<char>, key: Seq<char>) -> Option<Option<Seq<char>>>;

/// The character view of an optional string.
pub open spec fn opt_chars(o: Option<String>) -> Option<Seq<char>> {
    match o {
        Some(s) => Some(s@),
        None => None,
    }
}

/// Relies on `serde_json::from_str::<Value>`, then `Value::get` and
/// `Value::as_str`: parses the text and reads member `key` as a string.
#[verifier::external_body]
fn read_string_member(text: &str, key: &str) -> (r: Result<Option<String>, serde_json::Error>)
    ensures
        r is Err == !is_json_text(text@),
        match r {
            Ok(f) => json_string_member(text@, key@) == Some(opt_chars(f)),
            Err(_) => json_string_member(text@, key@) is None,
        },
{
    let v: serde_json::Value = serde_json::from_str(text)?;
    Ok(v.get(key).and_then(|m| m.as_str()).map(|s| s.to_string()))
}

/// The fields of an ad-hoc request.
pub struct AdhocRequest {
    pub title: String,
    pub body: String,
    pub push_token: String,
}

/// What an ad-hoc body text yields: `None` when it is not JSON; an error
/// message naming the first missing field; or title, body and token.
pub open spec fn adhoc_fields(t: Seq<char>) -> Option<
    Result<(Seq<char>, Seq<char>, Seq<char>), Seq<char>>,
> {
    if !is_json_text(t) {
        None
    } else {
        match json_string_member(t, "title"@) {
            None => None,
            Some(None) => Some(Err("Title is required"@)),
            Some(Some(title)) => match json_string_member(t, "body"@) {
                None => None,
                Some(None) => Some(Err("Body is required"@)),
                Some(Some(body)) => match json_string_member(t, "push_token"@) {
                    None => None,
                    Some(None) => Some(Err("push_token is required"@)),
                    Some(Some(token)) => Some(Ok((title, body, token))),
                },
            },
        }
    }
}

/// Reads one required string member, mapping an unparsable text to
/// `InvalidBody` and an absent member to `BadRequest(missing)`.
fn required_member(text: &str, key: &str, missing: &str) -> (r: Result<String, ApiError>)
    ensures
        match json_string_member(text@, key@) {
            None => r matches Err(ApiError::InvalidBody),
            Some(None) => r matches Err(ApiError::BadRequest(m)) && m@ == missing@,
            Some(Some(v)) => r matches Ok(s) && s@ == v,
        },
{
    match read_string_member(text, key) {
        Err(_) => Err(ApiError::InvalidBody),
        Ok(None) => Err(ApiError::BadRequest(String::from_str(missing))),
        Ok(Some(s)) => Ok(s),
    }
}

/// Parses an ad-hoc request body into its three required fields.
pub fn parse_adhoc_request(body: &RequestBody) -> (r: Result<AdhocRequest, ApiError>)
    ensures
        match body_chars(*body) {
            None => r matches Err(ApiError::InvalidBody),
            Some(t) => match adhoc_fields(t) {
                None => r matches Err(ApiError::InvalidBody),
                Some(Err(m)) => r matches Err(ApiError::BadRequest(s)) && s@ == m,
                Some(Ok((a, b, c))) => r matches Ok(q) && q.title@ == a && q.body@ == b
                    && q.push_token@ == c,
            },
        },
{
    let text = extract_body(body)?;
    let title = required_member(text.as_str(), "title", "Title is required")?;
    let body = required_member(text.as_str(), "body", "Body is required")?;
    let push_token = required_member(text.as_str(), "push_token", "push_token is required")?;
    Ok(AdhocRequest { title, body, push_token })
}

} // verus!
