//! What decoding a status guarantees, proved from the definition of what a
//! document decodes to.

use crate::common::{field_decoded, FromJson};
use crate::entities::MediaEntity;
use crate::error::Error;
use crate::json::{member, JsonValue};
use crate::tweet::{
    reduced_reference, tweet_decoded, tweet_fits, ExtendedTweetEntities, TweetEntities,
};
use crate::user::TwitterUser;
use vstd::prelude::*;

verus! {

/// Whether `name` is one of the members that no status can be without.
pub open spec fn is_required_member(name: Seq<char>) -> bool {
    ||| name == "created_at"@
    ||| name == "entities"@
    ||| name == "id"@
    ||| name == "lang"@
    ||| name == "retweet_count"@
    ||| name == "source"@
    ||| name == "text"@
    ||| name == "user"@
}

/// A value that is no object decodes to no status, whatever it holds.
pub proof fn lemma_non_object_is_refused(v: JsonValue)
    requires
        !(v is Object),
    ensures
        tweet_decoded(v) is None,
        TweetEntities::decoded(v) is None,
        ExtendedTweetEntities::decoded(v) is None,
{
}

/// A value that lacks one of the required members decodes to no status.
pub proof fn lemma_missing_required_member_is_refused(v: JsonValue, name: Seq<char>)
    requires
        is_required_member(name),
        member(v, name) is None,
    ensures
        tweet_decoded(v) is None,
{
    reveal(field_decoded);
}

/// A value one of whose required members does not decode, be it of whatever
/// shape, decodes to no status.
pub proof fn lemma_required_member_must_decode(v: JsonValue)
    ensures
        field_decoded::<String>(v, "created_at"@) is None ==> tweet_decoded(v) is None,
        field_decoded::<TweetEntities>(v, "entities"@) is None ==> tweet_decoded(v) is None,
        field_decoded::<i64>(v, "id"@) is None ==> tweet_decoded(v) is None,
        field_decoded::<String>(v, "lang"@) is None ==> tweet_decoded(v) is None,
        field_decoded::<i32>(v, "retweet_count"@) is None ==> tweet_decoded(v) is None,
        field_decoded::<String>(v, "source"@) is None ==> tweet_decoded(v) is None,
        field_decoded::<String>(v, "text"@) is None ==> tweet_decoded(v) is None,
        field_decoded::<TwitterUser>(v, "user"@) is None ==> tweet_decoded(v) is None,
{
}

/// A status decodes exactly where the value fits: no member but the required
/// ones and `current_user_retweet` can make decoding fail. In particular a
/// quoted or retweeted status that does not decode leaves the outer status
/// standing, with that member absent.
pub proof fn lemma_only_required_members_refuse(v: JsonValue)
    ensures
        tweet_decoded(v) is Some <==> tweet_fits(v),
        member(v, "quoted_status"@) matches Some(q) && tweet_decoded(q) is None && tweet_fits(v)
            ==> tweet_decoded(v)->0.quoted_status is None,
        member(v, "retweeted_status"@) matches Some(q) && tweet_decoded(q) is None && tweet_fits(
            v,
        ) ==> tweet_decoded(v)->0.retweeted_status is None,
{
}

/// A minimal status decodes, and decodes to the documented defaults.
///
/// Where an object with a finite set of members has the required members and
/// no others, and each of them decodes, the object decodes to a status whose
/// `favorite_count` is `0`, whose `withheld_copyright` is `false`, and whose
/// other optional members are all absent.
pub proof fn lemma_minimal_status_decodes(v: JsonValue)
    requires
        v matches JsonValue::Object(m) && m.dom().finite() && forall|name: Seq<char>|
            m.contains_key(name) <==> is_required_member(name),
        field_decoded::<String>(v, "created_at"@) is Some,
        field_decoded::<TweetEntities>(v, "entities"@) is Some,
        field_decoded::<i64>(v, "id"@) is Some,
        field_decoded::<String>(v, "lang"@) is Some,
        field_decoded::<i32>(v, "retweet_count"@) is Some,
        field_decoded::<String>(v, "source"@) is Some,
        field_decoded::<String>(v, "text"@) is Some,
        field_decoded::<TwitterUser>(v, "user"@) is Some,
    ensures
        tweet_decoded(v) matches Some(t) && {
            &&& t.favorite_count == 0
            &&& t.withheld_copyright == false
            &&& t.current_user_retweet is None
            &&& t.extended_entities is None
            &&& t.favorited is None
            &&& t.in_reply_to_user_id is None
            &&& t.in_reply_to_screen_name is None
            &&& t.in_reply_to_status_id is None
            &&& t.possibly_sensitive is None
            &&& t.quoted_status_id is None
            &&& t.quoted_status is None
            &&& t.retweeted is None
            &&& t.retweeted_status is None
            &&& t.withheld_in_countries is None
            &&& t.withheld_scope is None
        },
{
    reveal(field_decoded);
    lemma_optional_members_are_not_required();
}

/// None of the optional members of a status bears the name of a required one.
proof fn lemma_optional_members_are_not_required()
    ensures
        !is_required_member("current_user_retweet"@),
        !is_required_member("extended_entities"@),
        !is_required_member("favorite_count"@),
        !is_required_member("favorited"@),
        !is_required_member("in_reply_to_user_id"@),
        !is_required_member("in_reply_to_screen_name"@),
        !is_required_member("in_reply_to_status_id"@),
        !is_required_member("possibly_sensitive"@),
        !is_required_member("quoted_status_id"@),
        !is_required_member("quoted_status"@),
        !is_required_member("retweeted"@),
        !is_required_member("retweeted_status"@),
        !is_required_member("withheld_copyright"@),
        !is_required_member("withheld_in_countries"@),
        !is_required_member("withheld_scope"@),
{
    reveal_strlit("created_at");
    assert("created_at"@.len() == 10);
    reveal_strlit("entities");
    assert("entities"@.len() == 8);
    reveal_strlit("id");
    assert("id"@.len() == 2);
    reveal_strlit("lang");
    assert("lang"@.len() == 4);
    reveal_strlit("retweet_count");
    assert("retweet_count"@.len() == 13);
    reveal_strlit("source");
    assert("source"@.len() == 6);
    reveal_strlit("text");
    assert("text"@.len() == 4);
    reveal_strlit("user");
    assert("user"@.len() == 4);
    reveal_strlit("current_user_retweet");
    assert("current_user_retweet"@.len() == 20);
    reveal_strlit("extended_entities");
    assert("extended_entities"@.len() == 17);
    reveal_strlit("favorite_count");
    assert("favorite_count"@.len() == 14);
    reveal_strlit("favorited");
    assert("favorited"@.len() == 9);
    reveal_strlit("in_reply_to_user_id");
    assert("in_reply_to_user_id"@.len() == 19);
    reveal_strlit("in_reply_to_screen_name");
    assert("in_reply_to_screen_name"@.len() == 23);
    reveal_strlit("in_reply_to_status_id");
    assert("in_reply_to_status_id"@.len() == 21);
    reveal_strlit("possibly_sensitive");
    assert("possibly_sensitive"@.len() == 18);
    reveal_strlit("quoted_status_id");
    assert("quoted_status_id"@.len() == 16);
    reveal_strlit("quoted_status");
    assert("quoted_status"@.len() == 13);
    reveal_strlit("retweeted");
    assert("retweeted"@.len() == 9);
    reveal_strlit("retweeted_status");
    assert("retweeted_status"@.len() == 16);
    reveal_strlit("withheld_copyright");
    assert("withheld_copyright"@.len() == 18);
    reveal_strlit("withheld_in_countries");
    assert("withheld_in_countries"@.len() == 21);
    reveal_strlit("withheld_scope");
    assert("withheld_scope"@.len() == 14);
    assert("quoted_status"@[0] == 'q' && "retweet_count"@[0] == 'r');
}

/// A status that quotes or retweets a status that decodes holds that status,
/// decoded as it would be on its own.
pub proof fn lemma_nested_status_decodes(v: JsonValue, name: Seq<char>, inner: JsonValue)
    requires
        tweet_decoded(v) is Some,
        name == "quoted_status"@ || name == "retweeted_status"@,
        member(v, name) == Some(inner),
        tweet_decoded(inner) is Some,
    ensures
        name == "quoted_status"@ ==> tweet_decoded(v)->0.quoted_status == Some(
            Box::new(tweet_decoded(inner)->0),
        ),
        name == "retweeted_status"@ ==> tweet_decoded(v)->0.retweeted_status == Some(
            Box::new(tweet_decoded(inner)->0),
        ),
{
}

/// What a reference that is reduced to an `id` comes to: nothing where the
/// member is absent or is no object, the `id` where the member is an object
/// with a numeric `id`, and a refusal where it is an object without one.
pub proof fn lemma_reduced_reference(v: JsonValue, name: Seq<char>)
    ensures
        reduced_reference(v, name) == match member(v, name) {
            None => Ok::<Option<i64>, Error>(None),
            Some(r) => if !(r is Object) {
                Ok(None)
            } else {
                match field_decoded::<i64>(r, "id"@) {
                    Some(id) => Ok(Some(id)),
                    None => Err(Error::InvalidResponse),
                }
            },
        },
{
}

/// The `current_user_retweet` of a status is that reference, and a status
/// whose reference is refused is refused as a whole.
pub proof fn lemma_current_user_retweet_decides(v: JsonValue)
    ensures
        reduced_reference(v, "current_user_retweet"@) is Err ==> tweet_decoded(v) is None,
        tweet_decoded(v) matches Some(t) ==> reduced_reference(v, "current_user_retweet"@) == Ok::<
            Option<i64>,
            Error,
        >(t.current_user_retweet),
{
}

/// The `media` of the entities of a status tells an absent collection from an
/// empty one: without the member it is `None`, with an empty array it is the
/// empty sequence.
pub proof fn lemma_media_absent_or_empty(v: JsonValue)
    requires
        TweetEntities::decoded(v) is Some,
    ensures
        member(v, "media"@) is None ==> TweetEntities::decoded(v)->0.media is None,
        member(v, "media"@) == Some(JsonValue::Array(Seq::empty())) ==> TweetEntities::decoded(
            v,
        )->0.media == Some(Seq::<<MediaEntity as DeepView>::V>::empty()),
{
    reveal(field_decoded);
    if member(v, "media"@) == Some(JsonValue::Array(Seq::empty())) {
        let got = Vec::<MediaEntity>::decoded(JsonValue::Array(Seq::empty()));
        assert(got is Some);
        assert(got->0 =~= Seq::<<MediaEntity as DeepView>::V>::empty());
    }
}

/// A decoded array keeps the order of the document: it has as many items as
/// the array, each the decoding of the item in the same place. An array with
/// an item that does not decode is refused as a whole.
pub proof fn lemma_array_keeps_order<T: FromJson>(items: Seq<JsonValue>)
    ensures
        Vec::<T>::decoded(JsonValue::Array(items)) matches Some(s) ==> s.len() == items.len()
            && forall|i: int| 0 <= i < items.len() ==> T::decoded(items[i]) == Some(#[trigger] s[i]),
        forall|i: int|
            0 <= i < items.len() && (#[trigger] T::decoded(items[i])) is None ==> Vec::<
                T,
            >::decoded(JsonValue::Array(items)) is None,
{
}

} // verus!
