//! The account that a status belongs to.

use crate::common::{field, field_decoded, optional_field, FromJson};
use crate::error::Error;
use crate::json::{is_object, JsonValue};
use rustc_serialize::json::Json;
use vstd::prelude::*;

verus! {

/// An account, as far as a status tells of its author.
#[derive(Debug)]
pub struct TwitterUser {
    /// What the account says of itself, if it says anything.
    pub description: Option<String>,
    /// The numeric identifier of the account.
    pub id: i64,
    /// The place that the account names as its own, if any.
    pub location: Option<String>,
    /// The display name of the account.
    pub name: String,
    /// The handle of the account, without the leading `@`.
    pub screen_name: String,
    /// The web address that the account gives, if any.
    pub url: Option<String>,
}

/// The value of a [`TwitterUser`].
pub struct TwitterUserView {
    pub description: Option<Seq<char>>,
    pub id: i64,
    pub location: Option<Seq<char>>,
    pub name: Seq<char>,
    pub screen_name: Seq<char>,
    pub url: Option<Seq<char>>,
}

impl DeepView for TwitterUser {
    type V = TwitterUserView;

    open spec fn deep_view(&self) -> TwitterUserView {
        TwitterUserView {
            description: self.description.deep_view(),
            id: self.id,
            location: self.location.deep_view(),
            name: self.name@,
            screen_name: self.screen_name@,
            url: self.url.deep_view(),
        }
    }
}

impl FromJson for TwitterUser {
    /// An object with a numeric `id` and with texts `name` and `screen_name`.
    /// `description`, `location` and `url` are taken where they are texts and
    /// are absent otherwise.
    open spec fn decoded(v: JsonValue) -> Option<TwitterUserView> {
        if v is Object && field_decoded::<i64>(v, "id"@) is Some && field_decoded::<String>(
            v,
            "name"@,
        ) is Some && field_decoded::<String>(v, "screen_name"@) is Some {
            Some(
                TwitterUserView {
                    description: field_decoded::<String>(v, "description"@),
                    id: field_decoded::<i64>(v, "id"@)->0,
                    location: field_decoded::<String>(v, "location"@),
                    name: field_decoded::<String>(v, "name"@)->0,
                    screen_name: field_decoded::<String>(v, "screen_name"@)->0,
                    url: field_decoded::<String>(v, "url"@),
                },
            )
        } else {
            None
        }
    }

    fn from_json(input: &Json) -> (r: Result<TwitterUser, Error>) {
        if !is_object(input) {
            return Err(Error::InvalidResponse);
        }
        Ok(
            TwitterUser {
                description: optional_field(input, "description"),
                id: field(input, "id")?,
                location: optional_field(input, "location"),
                name: field(input, "name")?,
                screen_name: field(input, "screen_name")?,
                url: optional_field(input, "url"),
            },
        )
    }
}

} // verus!
