use tranquility::error::{DecodeError, Error, Kind};
use tranquility::json::parse_json;
use tranquility::thing::Thing;

#[test]
fn missing_discriminant() {
    let body = r#"{ "data": {} }"#;
    let err = Thing::decode(&parse_json(body).unwrap()).unwrap_err();
    assert!(matches!(err, DecodeError::MissingDiscriminant));
    let body = r#"{ "kind": 3, "data": {} }"#;
    let err = Thing::decode(&parse_json(body).unwrap()).unwrap_err();
    assert!(matches!(err, DecodeError::MissingDiscriminant));
    let body = r#"[1, 2]"#;
    let err = Thing::decode(&parse_json(body).unwrap()).unwrap_err();
    assert!(matches!(err, DecodeError::MissingDiscriminant));
}

#[test]
fn missing_payload() {
    let body = r#"{ "kind": "t1" }"#;
    let err = Thing::decode(&parse_json(body).unwrap()).unwrap_err();
    assert!(matches!(err, DecodeError::MissingPayload));
}

#[test]
fn schema_mismatch_names_the_field() {
    let body = r#"{
        "kind": "t1",
        "data": {
            "link_id": "t3_aaa",
            "subreddit_id": "t5_bbb",
            "parent_id": "t5_bbb",
            "name": "t1_c1",
            "replies": ""
        }
    }"#;
    let err = Thing::decode(&parse_json(body).unwrap()).unwrap_err();
    match err {
        DecodeError::SchemaMismatch { kind, field } => {
            assert_eq!(kind, Kind::Comment);
            assert_eq!(field, "author");
        },
        _ => panic!("wrong error"),
    }
}

#[test]
fn schema_mismatch_on_bad_fullname() {
    let body = r#"{
        "kind": "t1",
        "data": {
            "author": "alice",
            "link_id": "not a fullname",
            "subreddit_id": "t5_bbb",
            "parent_id": "t5_bbb",
            "name": "t1_c1",
            "replies": ""
        }
    }"#;
    let err = Thing::decode(&parse_json(body).unwrap()).unwrap_err();
    match err {
        DecodeError::SchemaMismatch { kind, field } => {
            assert_eq!(kind, Kind::Comment);
            assert_eq!(field, "link_id");
        },
        _ => panic!("wrong error"),
    }
}

#[test]
fn schema_mismatch_on_non_object_data() {
    let body = r#"{ "kind": "t5", "data": [1] }"#;
    let err = Thing::decode(&parse_json(body).unwrap()).unwrap_err();
    match err {
        DecodeError::SchemaMismatch { kind, field } => {
            assert_eq!(kind, Kind::Subreddit);
            assert_eq!(field, "data");
        },
        _ => panic!("wrong error"),
    }
}

#[test]
fn body_that_is_not_json() {
    let err = tranquility::client::body_thing("{ nope").unwrap_err();
    assert!(matches!(err, Error::JsonSyntax));
}

#[test]
fn missing_and_unparsable_headers() {
    let err = tranquility::ratelimit::read_rate_headers(None, Some("1"), Some("2")).unwrap_err();
    match err {
        Error::MissingHeader(h) => assert_eq!(h, "x-ratelimit-used"),
        _ => panic!("wrong error"),
    }
    let err = tranquility::ratelimit::read_rate_headers(Some("1"), None, Some("2")).unwrap_err();
    match err {
        Error::MissingHeader(h) => assert_eq!(h, "x-ratelimit-remaining"),
        _ => panic!("wrong error"),
    }
    let err = tranquility::ratelimit::read_rate_headers(Some("1"), Some("2"), None).unwrap_err();
    match err {
        Error::MissingHeader(h) => assert_eq!(h, "x-ratelimit-reset"),
        _ => panic!("wrong error"),
    }
    let err =
        tranquility::ratelimit::read_rate_headers(Some("ten"), Some("1"), Some("2")).unwrap_err();
    match err {
        Error::HeaderParse(h) => assert_eq!(h, "x-ratelimit-used"),
        _ => panic!("wrong error"),
    }
    let err =
        tranquility::ratelimit::read_rate_headers(Some("1"), Some("1e3"), Some("2")).unwrap_err();
    match err {
        Error::HeaderParse(h) => assert_eq!(h, "x-ratelimit-remaining"),
        _ => panic!("wrong error"),
    }
    let err =
        tranquility::ratelimit::read_rate_headers(Some("1"), Some("2"), Some("-4")).unwrap_err();
    match err {
        Error::HeaderParse(h) => assert_eq!(h, "x-ratelimit-reset"),
        _ => panic!("wrong error"),
    }
}

#[test]
fn provider_error_on_login() {
    let body = r#"{ "error": 401, "message": "Unauthorized" }"#;
    let err = tranquility::auth::login_from_body(body).unwrap_err();
    match err {
        Error::Auth(tranquility::error::AuthError::Provider(api)) => {
            assert_eq!(api.code, 401);
            assert_eq!(api.message, "Unauthorized");
        },
        _ => panic!("wrong error"),
    }
}

#[test]
fn malformed_login_response() {
    let body = r#"{ "access_token": "tok" }"#;
    let err = tranquility::auth::login_from_body(body).unwrap_err();
    assert!(matches!(err, Error::Auth(tranquility::error::AuthError::Malformed)));
    let body = r#"[]"#;
    let err = tranquility::auth::login_from_body(body).unwrap_err();
    assert!(matches!(err, Error::Auth(tranquility::error::AuthError::Malformed)));
}

#[test]
fn successful_login_response() {
    let body = r#"{ "access_token": "tok123", "expires_in": 3600, "scope": "*" }"#;
    let (token, expires_in) = tranquility::auth::login_from_body(body).unwrap();
    assert_eq!(token, "tok123");
    assert_eq!(expires_in, 3600);
}

#[test]
fn submit_errors_become_provider_errors() {
    let body = r#"{ "json": { "errors": [["RATELIMIT", "you are doing that too much"]] } }"#;
    let err = tranquility::client::submit_check(body).unwrap_err();
    match err {
        Error::Api(api) => {
            assert_eq!(api.code, 0);
            assert_eq!(api.message, "RATELIMIT");
        },
        _ => panic!("wrong error"),
    }
    let body = r#"{ "json": { "errors": [] } }"#;
    assert!(tranquility::client::submit_check(body).is_ok());
    let body = r#"{ "nope": 1 }"#;
    let err = tranquility::client::submit_check(body).unwrap_err();
    assert!(matches!(err, Error::Custom(_)));
}

#[test]
fn empty_listing_yields_a_typed_failure() {
    let body = r#"{
        "kind": "Listing",
        "data": { "modhash": null, "dist": null, "after": null, "before": null, "children": [] }
    }"#;
    let err = tranquility::client::comment_from_body(body).unwrap_err();
    match err {
        Error::Custom(m) => assert_eq!(m, "empty listing"),
        _ => panic!("wrong error"),
    }
}

#[test]
fn array_endpoint_rejects_non_arrays() {
    let err = tranquility::client::body_things(r#"{"kind": "t1"}"#).unwrap_err();
    match err {
        Error::Custom(m) => assert_eq!(m, "expected an array"),
        _ => panic!("wrong error"),
    }
}

#[test]
fn coercion_mismatch_names_both_kinds() {
    let body = r#"{ "kind": "t4", "data": {} }"#;
    let thing = Thing::decode(&parse_json(body).unwrap()).unwrap();
    let err = thing.into_listing().unwrap_err();
    assert_eq!(err.expected, Kind::Listing);
    assert_eq!(err.actual, Kind::Message);
}
