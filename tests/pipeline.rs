use expo_push_api::error::ApiError;
use expo_push_api::gate::{
    adhoc_notification, aggregate, api_key_matches, authenticate, error_reply, method_not_allowed,
    prepare_dispatch, provider_access_token, route, scheduled_notification, Dispatch,
    Notification, Reply, Route,
};
use expo_push_api::provider::{build_messages, is_push_token, PushMessage};
use expo_push_api::recipients::{
    collect_push_tokens, extract_body, initialize_supabase_client, parse_adhoc_request,
    RequestBody,
};
use expo_push_api::secrets::{leaf_key, secrets_from_parameters, str_eq, SecretSet};

fn s(x: &str) -> String {
    x.to_string()
}

fn text_body(x: &str) -> RequestBody {
    RequestBody::Text(s(x))
}

fn assert_reply(r: &Reply, status: u16, is_error: bool, text: &str) {
    assert_eq!(r.status, status);
    assert_eq!(r.is_error, is_error);
    assert_eq!(r.text, text);
}

fn secrets_of(pairs: &[(&str, &str)]) -> SecretSet {
    let mut set = SecretSet::new();
    for (k, v) in pairs {
        set.insert(s(k), s(v));
    }
    set
}

#[test]
fn leaf_key_takes_last_segment() {
    assert_eq!(leaf_key("/expo-push-api/supabase-key"), "supabase-key");
    assert_eq!(leaf_key("a/b/c/expo-access-token"), "expo-access-token");
    assert_eq!(leaf_key("plain"), "plain");
    assert_eq!(leaf_key("trailing/"), "");
    assert_eq!(leaf_key(""), "");
}

#[test]
fn provider_token_round_trip_any_prefix_depth() {
    for name in ["/p/expo-access-token", "/a/b/c/d/expo-access-token", "/expo-access-token"] {
        let set = secrets_from_parameters(vec![(Some(s(name)), Some(s("tok")))]);
        assert_eq!(provider_access_token(&set), Ok(s("tok")));
    }
}

#[test]
fn parameters_without_name_or_value_are_skipped() {
    let set = secrets_from_parameters(vec![
        (None, Some(s("v1"))),
        (Some(s("/p/supabase-url")), None),
        (Some(s("/p/supabase-key")), Some(s("key"))),
    ]);
    assert_eq!(set.get("supabase-url"), None);
    assert_eq!(set.get("supabase-key"), Some(&s("key")));
}

#[test]
fn later_parameter_replaces_earlier() {
    let set = secrets_from_parameters(vec![
        (Some(s("/a/k")), Some(s("first"))),
        (Some(s("/b/k")), Some(s("second"))),
    ]);
    assert_eq!(set.require("k"), Ok(s("second")));
}

#[test]
fn missing_secret_names_the_key() {
    let set = SecretSet::new();
    assert_eq!(set.require("supabase-url"), Err(ApiError::MissingSecret(s("supabase-url"))));
    assert_eq!(
        provider_access_token(&set),
        Err(ApiError::MissingSecret(s("expo-access-token")))
    );
}

#[test]
fn str_eq_compares_characters() {
    assert!(str_eq("GET", "GET"));
    assert!(!str_eq("GET", "GE"));
    assert!(!str_eq("GET", "get"));
}

#[test]
fn store_client_needs_both_secrets() {
    let none = SecretSet::new();
    assert!(matches!(
        initialize_supabase_client(&none),
        Err(ApiError::MissingSecret(k)) if k == "supabase-url"
    ));
    let url_only = secrets_of(&[("supabase-url", "https://example.supabase.co")]);
    assert!(matches!(
        initialize_supabase_client(&url_only),
        Err(ApiError::MissingSecret(k)) if k == "supabase-key"
    ));
}

#[test]
fn store_client_rejects_bad_url() {
    let bad = secrets_of(&[("supabase-url", "not a url"), ("supabase-key", "k")]);
    assert!(matches!(
        initialize_supabase_client(&bad),
        Err(ApiError::SupabaseInitialization)
    ));
}

#[test]
fn token_format_rule() {
    assert!(is_push_token("ExponentPushToken[abc]"));
    assert!(is_push_token("ExpoPushToken[xyz]"));
    assert!(is_push_token("12345678-abcd-ef01-2345-6789abcdef01"));
    assert!(!is_push_token("x"));
    assert!(!is_push_token("ExponentPushToken[abc"));
    assert!(!is_push_token(""));
}

#[test]
fn push_message_keeps_fields() {
    let m = PushMessage::new(s("ExponentPushToken[abc]"), s("Hi"), s("Test")).unwrap();
    assert_eq!(m.token(), "ExponentPushToken[abc]");
    assert_eq!(m.title(), "Hi");
    assert_eq!(m.body(), "Test");
    assert!(matches!(
        PushMessage::new(s("x"), s("Hi"), s("Test")),
        Err(ApiError::PushMessageBuild)
    ));
}

#[test]
fn build_messages_one_per_token_in_order() {
    let tokens = vec![s("ExponentPushToken[a]"), s("ExpoPushToken[b]")];
    let ms = build_messages(&s("T"), &s("B"), &tokens).unwrap();
    assert_eq!(ms.len(), 2);
    assert_eq!(ms[0].token(), "ExponentPushToken[a]");
    assert_eq!(ms[1].token(), "ExpoPushToken[b]");
    assert_eq!(ms[1].title(), "T");
    assert_eq!(ms[1].body(), "B");
}

#[test]
fn build_messages_fails_whole_batch_on_one_bad_token() {
    let tokens = vec![s("ExponentPushToken[a]"), s("bad")];
    assert!(matches!(
        build_messages(&s("T"), &s("B"), &tokens),
        Err(ApiError::PushMessageBuild)
    ));
}

#[test]
fn rows_without_token_are_skipped() {
    let fields = vec![Some(s("t1")), None, Some(s("t2")), None];
    assert_eq!(collect_push_tokens(&fields), vec![s("t1"), s("t2")]);
    assert!(collect_push_tokens(&vec![None, None]).is_empty());
}

#[test]
fn scheduled_notification_has_fixed_text() {
    let n = scheduled_notification(&vec![None, Some(s("ExponentPushToken[a]"))]);
    assert_eq!(n.title, "25日だよ");
    assert_eq!(n.body, "パートナーに請求しよう");
    assert_eq!(n.recipients, vec![s("ExponentPushToken[a]")]);
}

#[test]
fn extract_body_variants() {
    assert_eq!(extract_body(&RequestBody::Empty), Err(ApiError::InvalidBody));
    assert_eq!(extract_body(&text_body("{}")), Ok(s("{}")));
    assert_eq!(
        extract_body(&RequestBody::Binary("{\"a\":1}".as_bytes().to_vec())),
        Ok(s("{\"a\":1}"))
    );
    assert_eq!(
        extract_body(&RequestBody::Binary(vec![0xff, 0xfe])),
        Err(ApiError::InvalidBody)
    );
}

#[test]
fn extract_body_rejects_non_json_text() {
    assert_eq!(extract_body(&text_body("not json")), Err(ApiError::InvalidBody));
    assert_eq!(extract_body(&text_body("{")), Err(ApiError::InvalidBody));
    assert_eq!(
        extract_body(&RequestBody::Binary("nope".as_bytes().to_vec())),
        Err(ApiError::InvalidBody)
    );
    assert_eq!(extract_body(&text_body("[1,2]")), Ok(s("[1,2]")));
}

#[test]
fn parse_adhoc_reads_three_fields() {
    let body = text_body(r#"{"title":"Hi","body":"Test","push_token":"ExponentPushToken[abc]"}"#);
    let req = parse_adhoc_request(&body).unwrap();
    assert_eq!(req.title, "Hi");
    assert_eq!(req.body, "Test");
    assert_eq!(req.push_token, "ExponentPushToken[abc]");
}

#[test]
fn parse_adhoc_missing_body_field() {
    let body = text_body(r#"{"title":"Hi","push_token":"x"}"#);
    assert_eq!(
        parse_adhoc_request(&body).err(),
        Some(ApiError::BadRequest(s("Body is required")))
    );
}

#[test]
fn parse_adhoc_missing_or_mistyped_fields() {
    assert_eq!(
        parse_adhoc_request(&text_body(r#"{"body":"b","push_token":"x"}"#)).err(),
        Some(ApiError::BadRequest(s("Title is required")))
    );
    assert_eq!(
        parse_adhoc_request(&text_body(r#"{"title":"t","body":"b","push_token":5}"#)).err(),
        Some(ApiError::BadRequest(s("push_token is required")))
    );
    assert_eq!(
        parse_adhoc_request(&text_body("[1,2]")).err(),
        Some(ApiError::BadRequest(s("Title is required")))
    );
}

#[test]
fn parse_adhoc_unparsable_body() {
    assert_eq!(parse_adhoc_request(&text_body("{not json")).err(), Some(ApiError::InvalidBody));
    assert_eq!(parse_adhoc_request(&RequestBody::Empty).err(), Some(ApiError::InvalidBody));
}

#[test]
fn adhoc_valid_request_sends_one_message() {
    let body = text_body(r#"{"title":"Hi","body":"Test","push_token":"ExponentPushToken[abc]"}"#);
    let n = adhoc_notification(&body).ok().unwrap();
    assert_eq!(n.recipients, vec![s("ExponentPushToken[abc]")]);
    match prepare_dispatch(&n) {
        Ok(Dispatch::Send(ms)) => {
            assert_eq!(ms.len(), 1);
            assert_eq!(ms[0].token(), "ExponentPushToken[abc]");
            assert_eq!(ms[0].title(), "Hi");
            assert_eq!(ms[0].body(), "Test");
        }
        _ => panic!("expected a batch of one"),
    }
    assert_reply(&aggregate(&vec![true]), 200, false, "Push notifications sent successfully");
}

#[test]
fn adhoc_missing_body_is_400_naming_body() {
    let body = text_body(r#"{"title":"Hi","push_token":"x"}"#);
    let r = adhoc_notification(&body).err().unwrap();
    assert_reply(&r, 400, true, "Bad request: Body is required");
}

#[test]
fn adhoc_invalid_token_is_400() {
    let body = text_body(r#"{"title":"Hi","body":"Test","push_token":"x"}"#);
    let r = adhoc_notification(&body).err().unwrap();
    assert_reply(&r, 400, true, "Invalid expo push token");
}

#[test]
fn adhoc_unparsable_body_is_400() {
    let r = adhoc_notification(&text_body("nope")).err().unwrap();
    assert_reply(&r, 400, true, "Invalid request body");
}

#[test]
fn empty_recipients_short_circuit() {
    let n = Notification { title: s("t"), body: s("b"), recipients: vec![] };
    match prepare_dispatch(&n) {
        Ok(Dispatch::Done(r)) => assert_reply(&r, 200, false, "No push tokens found."),
        _ => panic!("expected the no-op response"),
    }
    let scheduled = scheduled_notification(&vec![None, None]);
    assert!(matches!(prepare_dispatch(&scheduled), Ok(Dispatch::Done(_))));
}

#[test]
fn malformed_store_token_fails_batch() {
    let n = Notification { title: s("t"), body: s("b"), recipients: vec![s("bad")] };
    assert!(matches!(prepare_dispatch(&n), Err(ApiError::PushMessageBuild)));
}

#[test]
fn aggregate_all_success() {
    assert_reply(&aggregate(&vec![true, true, true]), 200, false, "Push notifications sent successfully");
}

#[test]
fn aggregate_any_failure() {
    assert_reply(&aggregate(&vec![true, false, true]), 500, true, "Failed to send some push notifications");
    assert_reply(&aggregate(&vec![false]), 500, true, "Failed to send some push notifications");
}

#[test]
fn api_key_check() {
    assert!(api_key_matches(b"secret", Some(b"secret")));
    assert!(!api_key_matches(b"secret", Some(b"secreT")));
    assert!(!api_key_matches(b"secret", Some(b"secre")));
    assert!(!api_key_matches(b"secret", None));
}

#[test]
fn authenticate_forbids_missing_or_wrong_key() {
    assert!(authenticate(b"k", Some(b"k")).is_none());
    assert_reply(&authenticate(b"k", None).unwrap(), 403, true, "Forbidden: Invalid API Key");
    assert_reply(&authenticate(b"k", Some(b"x")).unwrap(), 403, true, "Forbidden: Invalid API Key");
}

#[test]
fn routing_by_method() {
    assert_eq!(route("GET"), Route::Scheduled);
    assert_eq!(route("POST"), Route::Adhoc);
    assert_eq!(route("PUT"), Route::NotAllowed);
    assert_reply(&method_not_allowed(), 405, true, "Method not allowed");
}

#[test]
fn error_replies() {
    assert_reply(&error_reply(&ApiError::InvalidBody), 400, true, "Invalid request body");
    assert_reply(&error_reply(&ApiError::BadRequest(s("Title is required"))), 400, true, "Bad request: Title is required");
    assert_reply(&error_reply(&ApiError::InvalidApiKey), 403, true, "Forbidden: Invalid API Key");
    assert_reply(&error_reply(&ApiError::SsmError), 500, true, "Internal Server Error");
    assert_reply(&error_reply(&ApiError::MissingSecret(s("x"))), 500, true, "Internal Server Error");
    assert_reply(&error_reply(&ApiError::PushMessageBuild), 500, true, "Internal Server Error");
}

#[test]
fn store_client_built_from_valid_settings() {
    let good = secrets_of(&[("supabase-url", "https://example.supabase.co"), ("supabase-key", "k")]);
    assert!(initialize_supabase_client(&good).is_ok());
}

#[test]
fn store_client_rejects_empty_key() {
    let empty_key = secrets_of(&[("supabase-url", "https://example.supabase.co"), ("supabase-key", "")]);
    assert!(matches!(
        initialize_supabase_client(&empty_key),
        Err(ApiError::SupabaseInitialization)
    ));
}
