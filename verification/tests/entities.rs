use rustc_serialize::json::Json;
use tweet_decode::common::FromJson;
use tweet_decode::entities::{HashtagEntity, MediaEntity, MentionEntity, UrlEntity};
use tweet_decode::error::Error;
use tweet_decode::user::TwitterUser;

fn parse_entity(text: &str) -> Json {
    Json::from_str(text).unwrap()
}

fn without(text: &str, name: &str) -> Json {
    let mut doc = Json::from_str(text).unwrap();
    assert!(doc.as_object_mut().unwrap().remove(name).is_some());
    doc
}

const HASHTAG: &str = "{\"indices\": [10, 15], \"text\": \"rust\"}";

const URL: &str = "{\"display_url\": \"example.com/a\", \"expanded_url\": \"http://example.com/a\", \"indices\": [0, 23], \"url\": \"http://t.co/abc\"}";

const MENTION: &str =
    "{\"id\": 783214, \"indices\": [3, 11], \"name\": \"Twitter\", \"screen_name\": \"twitter\"}";

const MEDIA: &str = "{\"display_url\": \"pic.example.com/x\", \"expanded_url\": \"http://example.com/photo/1\", \"id\": 266031293949698048, \"indices\": [17, 37], \"media_url\": \"http://pbs.example.com/x.jpg\", \"media_url_https\": \"https://pbs.example.com/x.jpg\", \"type\": \"photo\", \"url\": \"http://t.co/x\"}";

const USER: &str = "{\"id\": 7, \"name\": \"Ann\", \"screen_name\": \"ann\"}";

#[test]
fn hashtag_decodes() {
    let tag = HashtagEntity::from_json(&parse_entity(HASHTAG)).unwrap();
    assert_eq!(tag.indices, (10, 15));
    assert_eq!(tag.text, "rust");
}

#[test]
fn hashtag_needs_each_member() {
    for name in ["indices", "text"] {
        let got = HashtagEntity::from_json(&without(HASHTAG, name));
        assert_eq!(got.err(), Some(Error::InvalidResponse));
    }
}

#[test]
fn hashtag_needs_an_object() {
    let got = HashtagEntity::from_json(&parse_entity("[[10, 15], \"rust\"]"));
    assert_eq!(got.err(), Some(Error::InvalidResponse));
    let got = HashtagEntity::from_json(&parse_entity("\"rust\""));
    assert_eq!(got.err(), Some(Error::InvalidResponse));
}

#[test]
fn hashtag_needs_members_of_the_right_shape() {
    let got = HashtagEntity::from_json(&parse_entity("{\"indices\": [10], \"text\": \"rust\"}"));
    assert_eq!(got.err(), Some(Error::InvalidResponse));
    let got = HashtagEntity::from_json(&parse_entity("{\"indices\": [10, 15], \"text\": 4}"));
    assert_eq!(got.err(), Some(Error::InvalidResponse));
}

#[test]
fn url_decodes() {
    let url = UrlEntity::from_json(&parse_entity(URL)).unwrap();
    assert_eq!(url.display_url, "example.com/a");
    assert_eq!(url.expanded_url, "http://example.com/a");
    assert_eq!(url.indices, (0, 23));
    assert_eq!(url.url, "http://t.co/abc");
}

#[test]
fn url_needs_each_member() {
    for name in ["display_url", "expanded_url", "indices", "url"] {
        let got = UrlEntity::from_json(&without(URL, name));
        assert_eq!(got.err(), Some(Error::InvalidResponse));
    }
}

#[test]
fn url_needs_an_object() {
    let got = UrlEntity::from_json(&parse_entity("\"http://t.co/abc\""));
    assert_eq!(got.err(), Some(Error::InvalidResponse));
}

#[test]
fn mention_decodes() {
    let mention = MentionEntity::from_json(&parse_entity(MENTION)).unwrap();
    assert_eq!(mention.id, 783214);
    assert_eq!(mention.indices, (3, 11));
    assert_eq!(mention.name, "Twitter");
    assert_eq!(mention.screen_name, "twitter");
}

#[test]
fn mention_needs_each_member() {
    for name in ["id", "indices", "name", "screen_name"] {
        let got = MentionEntity::from_json(&without(MENTION, name));
        assert_eq!(got.err(), Some(Error::InvalidResponse));
    }
}

#[test]
fn mention_needs_an_object() {
    let got = MentionEntity::from_json(&parse_entity("783214"));
    assert_eq!(got.err(), Some(Error::InvalidResponse));
}

#[test]
fn media_decodes() {
    let media = MediaEntity::from_json(&parse_entity(MEDIA)).unwrap();
    assert_eq!(media.display_url, "pic.example.com/x");
    assert_eq!(media.expanded_url, "http://example.com/photo/1");
    assert_eq!(media.id, 266031293949698048);
    assert_eq!(media.indices, (17, 37));
    assert_eq!(media.media_url, "http://pbs.example.com/x.jpg");
    assert_eq!(media.media_url_https, "https://pbs.example.com/x.jpg");
    assert_eq!(media.media_type, "photo");
    assert_eq!(media.url, "http://t.co/x");
}

#[test]
fn media_needs_each_member() {
    for name in [
        "display_url",
        "expanded_url",
        "id",
        "indices",
        "media_url",
        "media_url_https",
        "type",
        "url",
    ] {
        let got = MediaEntity::from_json(&without(MEDIA, name));
        assert_eq!(got.err(), Some(Error::InvalidResponse));
    }
}

#[test]
fn media_needs_an_object() {
    let got = MediaEntity::from_json(&parse_entity("null"));
    assert_eq!(got.err(), Some(Error::InvalidResponse));
}

#[test]
fn user_decodes_with_its_required_members_alone() {
    let user = TwitterUser::from_json(&parse_entity(USER)).unwrap();
    assert_eq!(user.id, 7);
    assert_eq!(user.name, "Ann");
    assert_eq!(user.screen_name, "ann");
    assert_eq!(user.description, None);
    assert_eq!(user.location, None);
    assert_eq!(user.url, None);
}

#[test]
fn user_takes_its_optional_members() {
    let user = TwitterUser::from_json(&parse_entity(
        "{\"id\": 7, \"name\": \"Ann\", \"screen_name\": \"ann\", \"description\": \"hi\", \"location\": \"Oslo\", \"url\": null}",
    ))
    .unwrap();
    assert_eq!(user.description, Some(String::from("hi")));
    assert_eq!(user.location, Some(String::from("Oslo")));
    assert_eq!(user.url, None);
}

#[test]
fn user_needs_each_required_member() {
    for name in ["id", "name", "screen_name"] {
        let got = TwitterUser::from_json(&without(USER, name));
        assert_eq!(got.err(), Some(Error::InvalidResponse));
    }
}

#[test]
fn user_needs_an_object() {
    let got = TwitterUser::from_json(&parse_entity("[7, \"Ann\", \"ann\"]"));
    assert_eq!(got.err(), Some(Error::InvalidResponse));
}
