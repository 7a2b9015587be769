use tranquility::auth::{login_body, token_endpoint};
use tranquility::fullname::fullname_check;
use tranquility::misc::Params;
use tranquility::ratelimit::{parse_remaining, parse_u64_dec};
use tranquility::route::Route;

#[test]
fn route_urls() {
    assert_eq!(
        Route::UserAbout("spez".to_string()).url(),
        "https://oauth.reddit.com/user/spez/about"
    );
    assert_eq!(
        Route::SubredditAbout("rust".to_string()).url(),
        "https://oauth.reddit.com/r/rust/about"
    );
    assert_eq!(
        Route::SubredditHot("rust".to_string()).url(),
        "https://oauth.reddit.com/r/rust/hot"
    );
    assert_eq!(Route::Info.url(), "https://oauth.reddit.com/api/info");
    assert_eq!(Route::Comment.url(), "https://oauth.reddit.com/api/comment");
    assert_eq!(
        Route::SubmissionComment("abc".to_string(), "def".to_string()).url(),
        "https://oauth.reddit.com/comments/abc/_/def"
    );
    assert_eq!(
        Route::Custom("/x/y".to_string()).url(),
        "https://oauth.reddit.com/x/y"
    );
    assert_eq!(Route::Submit.url(), "https://oauth.reddit.com/api/submit");
    assert_eq!(
        Route::Info.url_raw_json(),
        "https://oauth.reddit.com/api/info?raw_json=1"
    );
}

#[test]
fn login_request_pieces() {
    assert_eq!(token_endpoint(), "https://www.reddit.com/api/v1/access_token");
    assert_eq!(
        login_body("bob", "hunter2"),
        "grant_type=password&username=bob&password=hunter2"
    );
}

#[test]
fn params_keep_their_order() {
    let p = Params::new().add("id", "t1_a").add("api_type", "json");
    assert_eq!(p.0.len(), 2);
    assert_eq!(p.0[0], ("id".to_string(), "t1_a".to_string()));
    assert_eq!(p.0[1], ("api_type".to_string(), "json".to_string()));
}

#[test]
fn fullname_shape_is_checked() {
    assert!(fullname_check("t1_abc"));
    assert!(fullname_check("t6_zz9"));
    assert!(!fullname_check("t7_abc"));
    assert!(!fullname_check("x1_abc"));
    assert!(!fullname_check("t1abc"));
    assert!(!fullname_check("t1_ab_c"));
    assert!(!fullname_check("t1"));
    assert!(!fullname_check(""));
}

#[test]
fn decimal_parsing_edges() {
    assert_eq!(parse_u64_dec("0"), Some(0));
    assert_eq!(parse_u64_dec("600"), Some(600));
    assert_eq!(parse_u64_dec("18446744073709551615"), Some(u64::MAX));
    assert_eq!(parse_u64_dec("18446744073709551616"), None);
    assert_eq!(parse_u64_dec(""), None);
    assert_eq!(parse_u64_dec("12a"), None);
    assert_eq!(parse_u64_dec("-3"), None);
    assert_eq!(parse_remaining("10"), Some(10));
    assert_eq!(parse_remaining("0.5"), Some(0));
    assert_eq!(parse_remaining("3.25"), Some(3));
    assert_eq!(parse_remaining("."), None);
    assert_eq!(parse_remaining("3."), None);
    assert_eq!(parse_remaining(".5"), None);
    assert_eq!(parse_remaining("1.2.3"), None);
    assert_eq!(parse_remaining("1e3"), None);
}

#[test]
fn typed_bodies() {
    let user_body = r#"{
        "kind": "t2",
        "data": {
            "comment_karma": 1, "link_karma": 2, "name": "bob", "id": "t2_x",
            "verified": true, "is_mod": false,
            "subreddit": { "description": "d" }
        }
    }"#;
    let u = tranquility::client::user_from_body(user_body).unwrap();
    assert_eq!(u.name, "bob");

    let avail = tranquility::client::available_from_body("true").unwrap();
    assert!(avail);
    let avail = tranquility::client::available_from_body("false").unwrap();
    assert!(!avail);

    let posts_body = r#"{
        "kind": "Listing",
        "data": {
            "modhash": null, "dist": 1, "after": null, "before": null,
            "children": [{
                "kind": "t3",
                "data": {
                    "title": "t", "author": "a", "score": 1, "num_comments": 0,
                    "subreddit": "s", "name": "t3_x", "all_awardings": []
                }
            }]
        }
    }"#;
    let posts = tranquility::client::posts_from_body(posts_body).unwrap();
    assert_eq!(posts.len(), 1);
    assert_eq!(posts[0].title, "t");

    let link = tranquility::client::link_from_body(posts_body).unwrap();
    assert_eq!(link.name.as_str(), "t3_x");
}
