//! Status updates and the containers of their entities.

use crate::common::{field, field_decoded, field_or, optional_field, FromJson};
use crate::entities::{
    HashtagEntity, HashtagEntityView, MediaEntity, MediaEntityView, MentionEntity,
    MentionEntityView, UrlEntity, UrlEntityView,
};
use crate::error::Error;
use crate::json::{as_i64, find, is_object, json_value, member, JsonValue};
use crate::user::{TwitterUser, TwitterUserView};
use rustc_serialize::json::Json;
use vstd::prelude::*;

verus! {

/// Container for URL, hashtag, mention, and media information associated with
/// a tweet.
#[derive(Debug)]
pub struct TweetEntities {
    /// Collection of hashtags parsed from the tweet.
    pub hashtags: Vec<HashtagEntity>,
    /// Collection of financial symbols, or "cashtags", parsed from the tweet.
    pub symbols: Vec<HashtagEntity>,
    /// Collection of URLs parsed from the tweet.
    pub urls: Vec<UrlEntity>,
    /// Collection of user mentions parsed from the tweet.
    pub user_mentions: Vec<MentionEntity>,
    /// If the tweet contains any attached media, this contains a collection of
    /// media information from the tweet. A tweet without media has `None`
    /// here, which is not the same as an empty collection.
    pub media: Option<Vec<MediaEntity>>,
}

/// The value of a [`TweetEntities`].
pub struct TweetEntitiesView {
    pub hashtags: Seq<HashtagEntityView>,
    pub symbols: Seq<HashtagEntityView>,
    pub urls: Seq<UrlEntityView>,
    pub user_mentions: Seq<MentionEntityView>,
    pub media: Option<Seq<MediaEntityView>>,
}

impl DeepView for TweetEntities {
    type V = TweetEntitiesView;

    open spec fn deep_view(&self) -> TweetEntitiesView {
        TweetEntitiesView {
            hashtags: self.hashtags.deep_view(),
            symbols: self.symbols.deep_view(),
            urls: self.urls.deep_view(),
            user_mentions: self.user_mentions.deep_view(),
            media: self.media.deep_view(),
        }
    }
}

impl FromJson for TweetEntities {
    /// An object whose `hashtags`, `symbols`, `urls` and `user_mentions` all
    /// decode. `media` is taken where it decodes and is absent otherwise.
    open spec fn decoded(v: JsonValue) -> Option<TweetEntitiesView> {
        if v is Object && field_decoded::<Vec<HashtagEntity>>(v, "hashtags"@) is Some
            && field_decoded::<Vec<HashtagEntity>>(v, "symbols"@) is Some && field_decoded::<
            Vec<UrlEntity>,
        >(v, "urls"@) is Some && field_decoded::<Vec<MentionEntity>>(v, "user_mentions"@)
            is Some {
            Some(
                TweetEntitiesView {
                    hashtags: field_decoded::<Vec<HashtagEntity>>(v, "hashtags"@)->0,
                    symbols: field_decoded::<Vec<HashtagEntity>>(v, "symbols"@)->0,
                    urls: field_decoded::<Vec<UrlEntity>>(v, "urls"@)->0,
                    user_mentions: field_decoded::<Vec<MentionEntity>>(v, "user_mentions"@)->0,
                    media: field_decoded::<Vec<MediaEntity>>(v, "media"@),
                },
            )
        } else {
            None
        }
    }

    fn from_json(input: &Json) -> (r: Result<TweetEntities, Error>) {
        if !is_object(input) {
            return Err(Error::InvalidResponse);
        }
        Ok(
            TweetEntities {
                hashtags: field(input, "hashtags")?,
                symbols: field(input, "symbols")?,
                urls: field(input, "urls")?,
                user_mentions: field(input, "user_mentions")?,
                media: optional_field(input, "media"),
            },
        )
    }
}

/// Container for extended media information for a tweet.
///
/// If a tweet has a photo, set of photos, gif, or video attached to it, this
/// holds the real media information, where the `media` of [`TweetEntities`]
/// holds only the first photo of a set, or a thumbnail of a gif or video.
#[derive(Debug)]
pub struct ExtendedTweetEntities {
    /// Collection of extended media information attached to the tweet.
    pub media: Vec<MediaEntity>,
}

/// The value of an [`ExtendedTweetEntities`].
pub struct ExtendedTweetEntitiesView {
    pub media: Seq<MediaEntityView>,
}

impl DeepView for ExtendedTweetEntities {
    type V = ExtendedTweetEntitiesView;

    open spec fn deep_view(&self) -> ExtendedTweetEntitiesView {
        ExtendedTweetEntitiesView { media: self.media.deep_view() }
    }
}

impl FromJson for ExtendedTweetEntities {
    /// An object whose `media` decodes; the collection may be empty.
    open spec fn decoded(v: JsonValue) -> Option<ExtendedTweetEntitiesView> {
        if v is Object && field_decoded::<Vec<MediaEntity>>(v, "media"@) is Some {
            Some(
                ExtendedTweetEntitiesView {
                    media: field_decoded::<Vec<MediaEntity>>(v, "media"@)->0,
                },
            )
        } else {
            None
        }
    }

    fn from_json(input: &Json) -> (r: Result<ExtendedTweetEntities, Error>) {
        if !is_object(input) {
            return Err(Error::InvalidResponse);
        }
        Ok(ExtendedTweetEntities { media: field(input, "media")? })
    }
}

/// What the member `name` of `v` refers to, where the member is an object that
/// stands for another status by its `id` alone.
///
/// A member that is absent, or is no object, refers to nothing. A member that
/// is an object must have a numeric `id`: one that has none is refused.
pub open spec fn reduced_reference(v: JsonValue, name: Seq<char>) -> Result<Option<i64>, Error> {
    match member(v, name) {
        Some(JsonValue::Object(m)) => match field_decoded::<i64>(JsonValue::Object(m), "id"@) {
            Some(id) => Ok(Some(id)),
            None => Err(Error::InvalidResponse),
        },
        _ => Ok(None),
    }
}

/// Reads the member `field` of `input` as a reference to another status,
/// reduced to the `id` of that status.
pub fn current_user_retweet(input: &Json, field: &'static str) -> (r: Result<Option<i64>, Error>)
    ensures
        r == reduced_reference(json_value(*input), field@),
{
    reveal(field_decoded);
    match find(input, field) {
        Some(obj) => {
            if is_object(obj) {
                match find(obj, "id") {
                    Some(o) => match as_i64(o) {
                        Some(id) => Ok(Some(id)),
                        None => Err(Error::InvalidResponse),
                    },
                    None => Err(Error::InvalidResponse),
                }
            } else {
                Ok(None)
            }
        },
        None => Ok(None),
    }
}

/// Represents a single status update.
#[derive(Debug)]
pub struct Tweet {
    /// UTC timestamp showing when the tweet was posted, formatted like
    /// "Wed Aug 27 13:08:45 +0000 2008".
    pub created_at: String,
    /// If the authenticated user has retweeted this tweet, contains the ID of
    /// the retweet.
    pub current_user_retweet: Option<i64>,
    /// Link, hashtag, and user mention information extracted from the tweet
    /// text.
    pub entities: TweetEntities,
    /// Extended media information attached to the tweet, if media is
    /// available.
    pub extended_entities: Option<ExtendedTweetEntities>,
    /// "Approximately" how many times this tweet has been liked by users.
    pub favorite_count: i32,
    /// Indicates whether the authenticated user has liked this tweet.
    pub favorited: Option<bool>,
    /// Numeric ID for this tweet.
    pub id: i64,
    /// If the tweet is a reply, contains the ID of the user that was replied
    /// to.
    pub in_reply_to_user_id: Option<i64>,
    /// If the tweet is a reply, contains the screen name of the user that was
    /// replied to.
    pub in_reply_to_screen_name: Option<String>,
    /// If the tweet is a reply, contains the ID of the tweet that was replied
    /// to.
    pub in_reply_to_status_id: Option<i64>,
    /// Can contain a language ID indicating the machine-detected language of
    /// the text, or "und" if no language could be detected.
    pub lang: String,
    /// If the tweet has a link, indicates whether the link may contain content
    /// that could be identified as sensitive.
    pub possibly_sensitive: Option<bool>,
    /// If this tweet is quoting another by link, contains the ID of the quoted
    /// tweet.
    pub quoted_status_id: Option<i64>,
    /// If this tweet is quoting another by link, contains the quoted tweet.
    pub quoted_status: Option<Box<Tweet>>,
    /// The number of times this tweet has been retweeted (with native
    /// retweets).
    pub retweet_count: i32,
    /// Indicates whether the authenticated user has retweeted this tweet.
    pub retweeted: Option<bool>,
    /// If this tweet is a retweet, then this field contains the status that
    /// was retweeted.
    pub retweeted_status: Option<Box<Tweet>>,
    /// The application used to post the tweet, as an HTML anchor tag
    /// containing the app's URL and name.
    pub source: String,
    /// The text of the tweet.
    pub text: String,
    /// The user who posted this tweet.
    pub user: Box<TwitterUser>,
    /// If present and `true`, indicates that this tweet has been withheld due
    /// to a DMCA complaint.
    pub withheld_copyright: bool,
    /// If present, contains two-letter country codes indicating where this
    /// tweet is being withheld. `XX` stands for all countries, `XY` for a
    /// tweet withheld due to a DMCA complaint.
    pub withheld_in_countries: Option<Vec<String>>,
    /// If present, indicates whether the content being withheld is the
    /// `status` or the `user`.
    pub withheld_scope: Option<String>,
}

/// The value of a [`Tweet`].
pub struct TweetView {
    pub created_at: Seq<char>,
    pub current_user_retweet: Option<i64>,
    pub entities: TweetEntitiesView,
    pub extended_entities: Option<ExtendedTweetEntitiesView>,
    pub favorite_count: i32,
    pub favorited: Option<bool>,
    pub id: i64,
    pub in_reply_to_user_id: Option<i64>,
    pub in_reply_to_screen_name: Option<Seq<char>>,
    pub in_reply_to_status_id: Option<i64>,
    pub lang: Seq<char>,
    pub possibly_sensitive: Option<bool>,
    pub quoted_status_id: Option<i64>,
    pub quoted_status: Option<Box<TweetView>>,
    pub retweet_count: i32,
    pub retweeted: Option<bool>,
    pub retweeted_status: Option<Box<TweetView>>,
    pub source: Seq<char>,
    pub text: Seq<char>,
    pub user: TwitterUserView,
    pub withheld_copyright: bool,
    pub withheld_in_countries: Option<Seq<Seq<char>>>,
    pub withheld_scope: Option<Seq<char>>,
}

/// The value of the status `t`, with the statuses nested in it.
pub open spec fn tweet_view(t: Tweet) -> TweetView
    decreases t,
{
    TweetView {
        created_at: t.created_at@,
        current_user_retweet: t.current_user_retweet,
        entities: t.entities.deep_view(),
        extended_entities: t.extended_entities.deep_view(),
        favorite_count: t.favorite_count,
        favorited: t.favorited,
        id: t.id,
        in_reply_to_user_id: t.in_reply_to_user_id,
        in_reply_to_screen_name: t.in_reply_to_screen_name.deep_view(),
        in_reply_to_status_id: t.in_reply_to_status_id,
        lang: t.lang@,
        possibly_sensitive: t.possibly_sensitive,
        quoted_status_id: t.quoted_status_id,
        quoted_status: match t.quoted_status {
            Some(inner) => Some(Box::new(tweet_view(*inner))),
            None => None,
        },
        retweet_count: t.retweet_count,
        retweeted: t.retweeted,
        retweeted_status: match t.retweeted_status {
            Some(inner) => Some(Box::new(tweet_view(*inner))),
            None => None,
        },
        source: t.source@,
        text: t.text@,
        user: t.user.deep_view(),
        withheld_copyright: t.withheld_copyright,
        withheld_in_countries: t.withheld_in_countries.deep_view(),
        withheld_scope: t.withheld_scope.deep_view(),
    }
}

impl DeepView for Tweet {
    type V = TweetView;

    open spec fn deep_view(&self) -> TweetView {
        tweet_view(*self)
    }
}

/// The value of a status that may be nested in another.
pub open spec fn nested_view(t: Option<Box<Tweet>>) -> Option<Box<TweetView>> {
    match t {
        Some(inner) => Some(Box::new(tweet_view(*inner))),
        None => None,
    }
}

/// Whether `v` has what no status can be without: it is an object whose
/// `created_at`, `entities`, `id`, `lang`, `retweet_count`, `source`, `text`
/// and `user` all decode, and whose `current_user_retweet`, where it is an
/// object, has a numeric `id`.
pub open spec fn tweet_fits(v: JsonValue) -> bool {
    &&& v is Object
    &&& field_decoded::<String>(v, "created_at"@) is Some
    &&& reduced_reference(v, "current_user_retweet"@) is Ok
    &&& field_decoded::<TweetEntities>(v, "entities"@) is Some
    &&& field_decoded::<i64>(v, "id"@) is Some
    &&& field_decoded::<String>(v, "lang"@) is Some
    &&& field_decoded::<i32>(v, "retweet_count"@) is Some
    &&& field_decoded::<String>(v, "source"@) is Some
    &&& field_decoded::<String>(v, "text"@) is Some
    &&& field_decoded::<TwitterUser>(v, "user"@) is Some
}

/// The status nested in `v` under `name`: present where `v` has such a member
/// and the member decodes as a status.
pub open spec fn nested_tweet(v: JsonValue, name: Seq<char>) -> Option<Box<TweetView>>
    decreases v, 0int,
{
    match member(v, name) {
        Some(x) => match tweet_decoded(x) {
            Some(t) => Some(Box::new(t)),
            None => None,
        },
        None => None,
    }
}

/// What `v` decodes to as a status.
///
/// A value that fits (see [`tweet_fits`]) decodes, whatever else it holds.
/// `favorite_count` and `withheld_copyright` fall back to `0` and `false`; a
/// quoted or retweeted status is taken where it decodes in its turn; every
/// other member is taken where it decodes and is absent otherwise.
pub open spec fn tweet_decoded(v: JsonValue) -> Option<TweetView>
    decreases v, 1int,
{
    if tweet_fits(v) {
        Some(
            TweetView {
                created_at: field_decoded::<String>(v, "created_at"@)->0,
                current_user_retweet: reduced_reference(v, "current_user_retweet"@)->Ok_0,
                entities: field_decoded::<TweetEntities>(v, "entities"@)->0,
                extended_entities: field_decoded::<ExtendedTweetEntities>(v, "extended_entities"@),
                favorite_count: match field_decoded::<i32>(v, "favorite_count"@) {
                    Some(n) => n,
                    None => 0,
                },
                favorited: field_decoded::<bool>(v, "favorited"@),
                id: field_decoded::<i64>(v, "id"@)->0,
                in_reply_to_user_id: field_decoded::<i64>(v, "in_reply_to_user_id"@),
                in_reply_to_screen_name: field_decoded::<String>(v, "in_reply_to_screen_name"@),
                in_reply_to_status_id: field_decoded::<i64>(v, "in_reply_to_status_id"@),
                lang: field_decoded::<String>(v, "lang"@)->0,
                possibly_sensitive: field_decoded::<bool>(v, "possibly_sensitive"@),
                quoted_status_id: field_decoded::<i64>(v, "quoted_status_id"@),
                quoted_status: nested_tweet(v, "quoted_status"@),
                retweet_count: field_decoded::<i32>(v, "retweet_count"@)->0,
                retweeted: field_decoded::<bool>(v, "retweeted"@),
                retweeted_status: nested_tweet(v, "retweeted_status"@),
                source: field_decoded::<String>(v, "source"@)->0,
                text: field_decoded::<String>(v, "text"@)->0,
                user: field_decoded::<TwitterUser>(v, "user"@)->0,
                withheld_copyright: match field_decoded::<bool>(v, "withheld_copyright"@) {
                    Some(b) => b,
                    None => false,
                },
                withheld_in_countries: field_decoded::<Vec<String>>(v, "withheld_in_countries"@),
                withheld_scope: field_decoded::<String>(v, "withheld_scope"@),
            },
        )
    } else {
        None
    }
}

/// Decodes the status nested in `input` under `name`, leniently: a member that
/// is absent and one that is no status both give `None`.
fn nested_status(input: &Json, name: &str) -> (r: Option<Box<Tweet>>)
    ensures
        nested_view(r) == nested_tweet(json_value(*input), name@),
    decreases json_value(*input), 0int,
{
    match find(input, name) {
        Some(x) => match Tweet::from_json(x) {
            Ok(t) => Some(Box::new(t)),
            Err(_) => None,
        },
        None => None,
    }
}

impl FromJson for Tweet {
    /// See [`tweet_decoded`].
    open spec fn decoded(v: JsonValue) -> Option<TweetView> {
        tweet_decoded(v)
    }

    /// Decodes a status, with the statuses that it quotes or retweets, to any
    /// depth. A document that is no object is refused before any member is
    /// looked at.
    fn from_json(input: &Json) -> (r: Result<Tweet, Error>)
        decreases json_value(*input), 1int,
    {
        if !is_object(input) {
            return Err(Error::InvalidResponse);
        }
        Ok(
            Tweet {
                created_at: field(input, "created_at")?,
                current_user_retweet: current_user_retweet(input, "current_user_retweet")?,
                entities: field(input, "entities")?,
                extended_entities: optional_field(input, "extended_entities"),
                favorite_count: field_or(input, "favorite_count", 0),
                favorited: optional_field(input, "favorited"),
                id: field(input, "id")?,
                in_reply_to_user_id: optional_field(input, "in_reply_to_user_id"),
                in_reply_to_screen_name: optional_field(input, "in_reply_to_screen_name"),
                in_reply_to_status_id: optional_field(input, "in_reply_to_status_id"),
                lang: field(input, "lang")?,
                possibly_sensitive: optional_field(input, "possibly_sensitive"),
                quoted_status_id: optional_field(input, "quoted_status_id"),
                quoted_status: nested_status(input, "quoted_status"),
                retweet_count: field(input, "retweet_count")?,
                retweeted: optional_field(input, "retweeted"),
                retweeted_status: nested_status(input, "retweeted_status"),
                source: field(input, "source")?,
                text: field(input, "text")?,
                user: Box::new(field(input, "user")?),
                withheld_copyright: field_or(input, "withheld_copyright", false),
                withheld_in_countries: optional_field(input, "withheld_in_countries"),
                withheld_scope: optional_field(input, "withheld_scope"),
            },
        )
    }
}

} // verus!
