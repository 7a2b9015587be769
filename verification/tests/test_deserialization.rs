use tranquility::json::parse_json;
use tranquility::thing::Thing;

fn user_about_json() -> String {
    r#"{
        "kind": "t2",
        "data": {
            "comment_karma": 1200,
            "link_karma": 300,
            "name": "spez",
            "id": "t2_1w72",
            "verified": true,
            "is_mod": true,
            "subreddit": { "description": "the admin's own page" }
        }
    }"#
        .to_string()
}

fn subreddit_about_json() -> String {
    r#"{
        "kind": "t5",
        "data": {
            "description": "a place for verified things",
            "display_name": "formalmethods",
            "display_name_prefixed": "r/formalmethods",
            "subscribers": 4242,
            "title": "Formal Methods",
            "id": "2qh0y",
            "name": "t5_2qh0y",
            "subreddit_type": "public",
            "quarantine": false,
            "quarantine_permissions": null,
            "over18": false,
            "suggested_comment_sort": null,
            "submission_type": "any"
        }
    }"#
        .to_string()
}

fn comment_json(author: &str, name: &str, replies: &str) -> String {
    format!(
        r#"{{
            "kind": "t1",
            "data": {{
                "author": "{}",
                "link_id": "t3_aaa",
                "subreddit_id": "t5_bbb",
                "parent_id": "t5_bbb",
                "name": "{}",
                "replies": {}
            }}
        }}"#,
        author, name, replies
    )
}

fn link_json(title: &str) -> String {
    format!(
        r#"{{
            "kind": "t3",
            "data": {{
                "title": "{}",
                "author": "alice",
                "score": 17,
                "num_comments": 3,
                "subreddit": "formalmethods",
                "name": "t3_aaa",
                "all_awardings": []
            }}
        }}"#,
        title
    )
}

fn listing_json(children: &str) -> String {
    format!(
        r#"{{
            "kind": "Listing",
            "data": {{
                "modhash": null,
                "dist": null,
                "after": null,
                "before": null,
                "children": [{}]
            }}
        }}"#,
        children
    )
}

#[test]
fn test_user_about() {
    let thing = Thing::decode(&parse_json(&user_about_json()).expect("valid json"))
        .expect("Failed to deserialize.");
    assert!(thing.into_user().is_ok())
}

#[test]
fn test_subreddit_about() {
    let thing = Thing::decode(&parse_json(&subreddit_about_json()).expect("valid json"))
        .expect("Failed to deserialize.");
    assert!(thing.into_subreddit().is_ok())
}

#[test]
fn test_info_comment() {
    let body = listing_json(&comment_json("alice", "t1_c1", "\"\""));
    let thing = Thing::decode(&parse_json(&body).expect("valid json"))
        .expect("Failed to deserialize.");
    let listing = thing.into_listing().unwrap();
    let children = listing.into_comments().expect("Expected children");
    assert!(children.first().is_some())
}

#[test]
fn test_info_link() {
    let body = listing_json(&link_json("a post"));
    let thing = Thing::decode(&parse_json(&body).expect("valid json"))
        .expect("Failed to deserialize.");
    let listing = thing.into_listing().unwrap();
    let children = listing.into_links().expect("Expected children");
    assert!(children.first().is_some())
}

#[test]
fn test_article_comments() {
    let reply = comment_json("bob", "t1_c2", "\"\"");
    let root = comment_json("alice", "t1_c1", &listing_json(&reply));
    let body = format!(
        "[{}, {}]",
        listing_json(&link_json("the article")),
        listing_json(&root)
    );
    let mut things = tranquility::client::body_things(&body).unwrap();
    let listing = things.remove(1).into_listing().unwrap();
    let mut comments = listing.into_comments().unwrap();
    let comment = comments.remove(0);
    let replies = *comment.replies.unwrap();
    let replies2 = replies.into_listing().unwrap();
    let replies3 = replies2.into_comments().unwrap();
    assert_eq!(replies3.len(), 1)
}
