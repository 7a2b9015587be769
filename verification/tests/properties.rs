use tranquility::auth::{TokenDecision, TokenState};
use tranquility::award::Award;
use tranquility::error::Kind;
use tranquility::fullname::Fullname;
use tranquility::json::{parse_json, JsonValue};
use tranquility::link::Link;
use tranquility::message::Message;
use tranquility::misc::{
    CommentSort, LinkSort, QuarantinePermissions, SubmissionType, SubredditType,
};
use tranquility::more::More;
use tranquility::ratelimit::{pause_secs, read_rate_headers};
use tranquility::subreddit::Subreddit;
use tranquility::thing::{Comment, Listing, Thing};
use tranquility::user::{User, UserSubreddit};

fn fname(s: &str) -> Fullname {
    Fullname::new(s.to_string())
}

fn sample_comment(replies: Option<Box<Thing>>) -> Comment {
    Comment {
        author: "alice".to_string(),
        link_id: fname("t3_aaa"),
        subreddit_id: fname("t5_bbb"),
        parent_id: fname("t5_bbb"),
        name: fname("t1_c1"),
        replies,
    }
}

fn sample_award() -> Award {
    Award {
        id: "gid_1".to_string(),
        subreddit_id: None,
        coin_price: 500,
        icon_url: "https://example.invalid/icon.png".to_string(),
        days_of_premium: 7,
        is_enabled: true,
        description: "shiny".to_string(),
        count: 2,
        name: "Gold".to_string(),
    }
}

fn sample_link() -> Link {
    Link {
        title: "a post".to_string(),
        author: "alice".to_string(),
        score: -3,
        num_comments: 9,
        subreddit: "formalmethods".to_string(),
        name: fname("t3_aaa"),
        all_awardings: vec![sample_award()],
    }
}

fn sample_user() -> User {
    User {
        comment_karma: -10,
        link_karma: 42,
        name: "bob".to_string(),
        id: fname("t2_xyz"),
        verified: false,
        is_mod: true,
        subreddit: UserSubreddit { description: "bob's page".to_string() },
    }
}

fn sample_subreddit() -> Subreddit {
    Subreddit {
        description: "desc".to_string(),
        display_name: "formalmethods".to_string(),
        display_name_prefixed: "r/formalmethods".to_string(),
        subscribers: 4242,
        title: "Formal Methods".to_string(),
        id: "2qh0y".to_string(),
        name: fname("t5_2qh0y"),
        subreddit_type: SubredditType::Private,
        quarantine: true,
        quarantine_permissions: Some(QuarantinePermissions {
            styles: true,
            sharing: false,
            sr_images: true,
            subscriber_count: false,
            media: true,
            polls: false,
            videos: true,
            images: false,
            crossposts: true,
        }),
        over18: false,
        suggested_comment_sort: Some(CommentSort::Controversial),
        submission_type: SubmissionType::Text,
    }
}

fn sample_more() -> More {
    More {
        count: 11,
        name: fname("t1_zzz"),
        id: "zzz".to_string(),
        parent_id: fname("t1_yyy"),
        depth: 2,
        children: vec!["aa1".to_string(), "aa2".to_string()],
        after: Some("t3_after".to_string()),
        before: None,
    }
}

fn round_trip(t: &Thing) -> Thing {
    Thing::decode(&t.encode()).expect("an encoded envelope must decode")
}

#[test]
fn round_trip_comment() {
    let inner = Listing {
        modhash: None,
        dist: Some(1),
        children: vec![Thing::Comment(sample_comment(None))],
        after: None,
        before: None,
        limit: None,
        count: None,
        show: None,
    };
    let t = Thing::Comment(sample_comment(Some(Box::new(Thing::Listing(inner)))));
    match round_trip(&t) {
        Thing::Comment(c) => {
            assert_eq!(c.author, "alice");
            assert_eq!(c.name.as_str(), "t1_c1");
            let replies = *c.replies.expect("replies kept");
            match replies {
                Thing::Listing(l) => {
                    assert_eq!(l.dist, Some(1));
                    assert_eq!(l.children.len(), 1);
                },
                _ => panic!("wrong replies kind"),
            }
        },
        _ => panic!("wrong kind"),
    }
}

#[test]
fn round_trip_user() {
    match round_trip(&Thing::Account(sample_user())) {
        Thing::Account(u) => {
            assert_eq!(u.comment_karma, -10);
            assert_eq!(u.link_karma, 42);
            assert_eq!(u.name, "bob");
            assert_eq!(u.id.as_str(), "t2_xyz");
            assert!(!u.verified);
            assert!(u.is_mod);
            assert_eq!(u.subreddit.description, "bob's page");
        },
        _ => panic!("wrong kind"),
    }
}

#[test]
fn round_trip_link() {
    match round_trip(&Thing::Link(sample_link())) {
        Thing::Link(l) => {
            assert_eq!(l.title, "a post");
            assert_eq!(l.score, -3);
            assert_eq!(l.num_comments, 9);
            assert_eq!(l.all_awardings.len(), 1);
            assert_eq!(l.all_awardings[0].name, "Gold");
            assert_eq!(l.all_awardings[0].coin_price, 500);
        },
        _ => panic!("wrong kind"),
    }
}

#[test]
fn round_trip_message() {
    match round_trip(&Thing::Message(Message {})) {
        Thing::Message(_) => {},
        _ => panic!("wrong kind"),
    }
}

#[test]
fn round_trip_subreddit() {
    match round_trip(&Thing::Subreddit(sample_subreddit())) {
        Thing::Subreddit(s) => {
            assert_eq!(s.display_name, "formalmethods");
            assert_eq!(s.subscribers, 4242);
            assert!(matches!(s.subreddit_type, SubredditType::Private));
            assert!(matches!(
                s.suggested_comment_sort,
                Some(CommentSort::Controversial)
            ));
            assert!(matches!(s.submission_type, SubmissionType::Text));
            let qp = s.quarantine_permissions.expect("permissions kept");
            assert!(qp.styles && !qp.sharing && qp.crossposts);
        },
        _ => panic!("wrong kind"),
    }
}

#[test]
fn round_trip_award() {
    match round_trip(&Thing::Award(sample_award())) {
        Thing::Award(a) => {
            assert_eq!(a.id, "gid_1");
            assert_eq!(a.subreddit_id, None);
            assert_eq!(a.days_of_premium, 7);
            assert_eq!(a.description, "shiny");
        },
        _ => panic!("wrong kind"),
    }
}

#[test]
fn round_trip_listing() {
    let l = Listing {
        modhash: Some("mh".to_string()),
        dist: Some(2),
        children: vec![Thing::Link(sample_link()), Thing::Comment(sample_comment(None))],
        after: Some(fname("t3_aft")),
        before: None,
        limit: Some(25),
        count: None,
        show: Some("all".to_string()),
    };
    match round_trip(&Thing::Listing(l)) {
        Thing::Listing(l) => {
            assert_eq!(l.modhash.as_deref(), Some("mh"));
            assert_eq!(l.dist, Some(2));
            assert_eq!(l.children.len(), 2);
            assert_eq!(l.after.map(|f| f.as_str().to_string()), Some("t3_aft".to_string()));
            assert_eq!(l.before.map(|f| f.as_str().to_string()), None);
            assert_eq!(l.limit, Some(25));
            assert_eq!(l.show.as_deref(), Some("all"));
            assert!(matches!(l.children[0], Thing::Link(_)));
            assert!(matches!(l.children[1], Thing::Comment(_)));
        },
        _ => panic!("wrong kind"),
    }
}

#[test]
fn round_trip_more() {
    match round_trip(&Thing::More(sample_more())) {
        Thing::More(m) => {
            assert_eq!(m.count, 11);
            assert_eq!(m.depth, 2);
            assert_eq!(m.children, vec!["aa1".to_string(), "aa2".to_string()]);
            assert_eq!(m.after.as_deref(), Some("t3_after"));
            assert_eq!(m.before, None);
        },
        _ => panic!("wrong kind"),
    }
}

#[test]
fn empty_replies_sentinel_decodes_to_none() {
    let body = r#"{
        "kind": "t1",
        "data": {
            "author": "alice",
            "link_id": "t3_aaa",
            "subreddit_id": "t5_bbb",
            "parent_id": "t5_bbb",
            "name": "t1_c1",
            "replies": ""
        }
    }"#;
    let thing = Thing::decode(&parse_json(body).unwrap()).unwrap();
    match thing {
        Thing::Comment(c) => assert!(c.replies.is_none()),
        _ => panic!("wrong kind"),
    }
}

#[test]
fn fullname_prefix_and_name() {
    let f = Fullname::new("t3_abc123".to_string());
    assert_eq!(f.prefix(), "t3");
    assert_eq!(f.name(), "abc123");
}

#[test]
fn projection_fails_fast_and_returns_nothing() {
    let children = vec![
        Thing::Link(sample_link()),
        Thing::Link(sample_link()),
        Thing::Comment(sample_comment(None)),
    ];
    let listing = Listing {
        modhash: None,
        dist: None,
        children,
        after: None,
        before: None,
        limit: None,
        count: None,
        show: None,
    };
    let err = listing.into_comments().expect_err("a link is not a comment");
    assert_eq!(err.expected, Kind::Comment);
    assert_eq!(err.actual, Kind::Link);
    let children = vec![
        Thing::Link(sample_link()),
        Thing::Link(sample_link()),
        Thing::Comment(sample_comment(None)),
    ];
    let listing = Listing {
        modhash: None,
        dist: None,
        children,
        after: None,
        before: None,
        limit: None,
        count: None,
        show: None,
    };
    let err = listing.into_links().expect_err("the third child is a comment");
    assert_eq!(err.expected, Kind::Link);
    assert_eq!(err.actual, Kind::Comment);
}

#[test]
fn single_flight_refresh() {
    let mut state = TokenState::new();
    let d1 = state.ensure_valid_step(100);
    assert_eq!(d1, TokenDecision::StartLogin);
    let d2 = state.ensure_valid_step(101);
    assert_eq!(d2, TokenDecision::Wait);
    let d3 = state.ensure_valid_step(102);
    assert_eq!(d3, TokenDecision::Wait);
    state.apply_login("tok".to_string(), 3600, 102);
    let d4 = state.ensure_valid_step(103);
    assert_eq!(d4, TokenDecision::UseToken);
    let d5 = state.ensure_valid_step(200);
    assert_eq!(d5, TokenDecision::UseToken);
    assert_eq!(state.current_token().map(|t| t.as_str()), Some("tok"));
    let d6 = state.ensure_valid_step(102 + 3601);
    assert_eq!(d6, TokenDecision::StartLogin);
}

#[test]
fn exhausted_quota_pauses_for_reset() {
    let rl = read_rate_headers(Some("10"), Some("0"), Some("5")).unwrap();
    assert_eq!(pause_secs(&rl), 5);
    let rl = read_rate_headers(Some("10"), Some("10"), Some("5")).unwrap();
    assert_eq!(pause_secs(&rl), 0);
    let rl = read_rate_headers(Some("10"), Some("0.5"), Some("7")).unwrap();
    assert_eq!(pause_secs(&rl), 7);
}

#[test]
fn unknown_kind_is_an_error_not_a_crash() {
    let body = r#"{ "kind": "t9", "data": {} }"#;
    let err = Thing::decode(&parse_json(body).unwrap()).expect_err("t9 is unknown");
    match err {
        tranquility::error::DecodeError::UnknownKind(k) => assert_eq!(k, "t9"),
        _ => panic!("wrong error"),
    }
}

#[test]
fn thread_extraction_yields_root_replies_in_order() {
    let listing_with = |children: &str| -> String {
        format!(
            r#"{{
                "kind": "Listing",
                "data": {{
                    "modhash": null, "dist": null, "after": null, "before": null,
                    "children": [{}]
                }}
            }}"#,
            children
        )
    };
    let comment_with = |author: &str, name: &str, replies: &str| -> String {
        format!(
            r#"{{
                "kind": "t1",
                "data": {{
                    "author": "{}", "link_id": "t3_aaa", "subreddit_id": "t5_bbb",
                    "parent_id": "t5_bbb", "name": "{}", "replies": {}
                }}
            }}"#,
            author, name, replies
        )
    };
    let replies = format!(
        "{}, {}",
        comment_with("bob", "t1_c2", "\"\""),
        comment_with("carol", "t1_c3", "\"\"")
    );
    let root = comment_with("alice", "t1_c1", &listing_with(&replies));
    let body = format!("[{}, {}]", listing_with(""), listing_with(&root));
    let out = tranquility::client::replies_from_body(&body).unwrap();
    let out = out.expect("the root comment has replies");
    assert_eq!(out.len(), 2);
    assert_eq!(out[0].author, "bob");
    assert_eq!(out[1].author, "carol");

    let root = comment_with("alice", "t1_c1", "\"\"");
    let body = format!("[{}, {}]", listing_with(""), listing_with(&root));
    let out = tranquility::client::replies_from_body(&body).unwrap();
    assert!(out.is_none());
}

#[test]
fn enum_wire_tags_round_trip() {
    for t in [SubredditType::Public, SubredditType::Private] {
        assert_eq!(SubredditType::from_wire(t.wire_str()), Some(t));
    }
    for t in [CommentSort::Top, CommentSort::Best, CommentSort::Controversial, CommentSort::New] {
        assert_eq!(CommentSort::from_wire(t.wire_str()), Some(t));
    }
    for t in [SubmissionType::Any, SubmissionType::Link, SubmissionType::Text] {
        assert_eq!(SubmissionType::from_wire(t.wire_str()), Some(t));
    }
    for t in [
        LinkSort::Hour,
        LinkSort::Day,
        LinkSort::Week,
        LinkSort::Month,
        LinkSort::Year,
        LinkSort::All,
    ] {
        assert_eq!(LinkSort::from_wire(t.wire_str()), Some(t));
    }
    assert_eq!(SubredditType::from_wire("lurkers"), None);
}

#[test]
fn comment_parent_detection() {
    let top = sample_comment(None);
    assert!(!top.has_parent());
    let nested = Comment {
        parent_id: fname("t1_c0"),
        ..sample_comment(None)
    };
    assert!(nested.has_parent());
}

#[test]
fn json_values_survive_the_parser() {
    let j = parse_json(r#"{"a": [1, -2, true, null, "x"], "b": {"c": 3}}"#).unwrap();
    match j {
        JsonValue::Obj(fields) => {
            assert_eq!(fields.len(), 2);
            assert_eq!(fields[0].0, "a");
            match &fields[0].1 {
                JsonValue::Arr(elems) => {
                    assert_eq!(elems.len(), 5);
                    assert!(matches!(elems[0], JsonValue::UInt(1)));
                    assert!(matches!(elems[1], JsonValue::Int(-2)));
                    assert!(matches!(elems[2], JsonValue::Bool(true)));
                    assert!(matches!(elems[3], JsonValue::Null));
                    match &elems[4] {
                        JsonValue::Str(s) => assert_eq!(s, "x"),
                        _ => panic!("wrong element"),
                    }
                },
                _ => panic!("wrong field"),
            }
        },
        _ => panic!("wrong shape"),
    }
    assert!(parse_json("{not json").is_none());
}
