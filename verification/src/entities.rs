//! The annotations that mark special spans of a status text: hashtags, links,
//! mentions and media.
//!
//! Each is a flat record. A document decodes to one where it is an object that
//! has every member of the record in the shape the record asks for.

use crate::common::{field, field_decoded, FromJson};
use crate::error::Error;
use crate::json::{is_object, JsonValue};
use rustc_serialize::json::Json;
use vstd::prelude::*;

verus! {

/// A hashtag, or a financial symbol ("cashtag"), found in a text.
#[derive(Debug)]
pub struct HashtagEntity {
    /// Where the tag stands in the text: the offset of its `#` or `$`, and the
    /// offset just behind its last character.
    pub indices: (i32, i32),
    /// The tag without its leading `#` or `$`.
    pub text: String,
}

/// The value of a [`HashtagEntity`].
pub struct HashtagEntityView {
    pub indices: (i32, i32),
    pub text: Seq<char>,
}

impl DeepView for HashtagEntity {
    type V = HashtagEntityView;

    open spec fn deep_view(&self) -> HashtagEntityView {
        HashtagEntityView { indices: self.indices, text: self.text@ }
    }
}

impl FromJson for HashtagEntity {
    open spec fn decoded(v: JsonValue) -> Option<HashtagEntityView> {
        if v is Object && field_decoded::<(i32, i32)>(v, "indices"@) is Some && field_decoded::<
            String,
        >(v, "text"@) is Some {
            Some(
                HashtagEntityView {
                    indices: field_decoded::<(i32, i32)>(v, "indices"@)->0,
                    text: field_decoded::<String>(v, "text"@)->0,
                },
            )
        } else {
            None
        }
    }

    fn from_json(input: &Json) -> (r: Result<HashtagEntity, Error>) {
        if !is_object(input) {
            return Err(Error::InvalidResponse);
        }
        Ok(HashtagEntity { indices: field(input, "indices")?, text: field(input, "text")? })
    }
}

/// A link found in a text.
#[derive(Debug)]
pub struct UrlEntity {
    /// The link as it is shown to a reader.
    pub display_url: String,
    /// The address that the link leads to in the end.
    pub expanded_url: String,
    /// Where the link stands in the text: the offset of its first character,
    /// and the offset just behind its last.
    pub indices: (i32, i32),
    /// The shortened address that stands in the text itself.
    pub url: String,
}

/// The value of a [`UrlEntity`].
pub struct UrlEntityView {
    pub display_url: Seq<char>,
    pub expanded_url: Seq<char>,
    pub indices: (i32, i32),
    pub url: Seq<char>,
}

impl DeepView for UrlEntity {
    type V = UrlEntityView;

    open spec fn deep_view(&self) -> UrlEntityView {
        UrlEntityView {
            display_url: self.display_url@,
            expanded_url: self.expanded_url@,
            indices: self.indices,
            url: self.url@,
        }
    }
}

impl FromJson for UrlEntity {
    open spec fn decoded(v: JsonValue) -> Option<UrlEntityView> {
        if v is Object && field_decoded::<String>(v, "display_url"@) is Some && field_decoded::<
            String,
        >(v, "expanded_url"@) is Some && field_decoded::<(i32, i32)>(v, "indices"@) is Some
            && field_decoded::<String>(v, "url"@) is Some {
            Some(
                UrlEntityView {
                    display_url: field_decoded::<String>(v, "display_url"@)->0,
                    expanded_url: field_decoded::<String>(v, "expanded_url"@)->0,
                    indices: field_decoded::<(i32, i32)>(v, "indices"@)->0,
                    url: field_decoded::<String>(v, "url"@)->0,
                },
            )
        } else {
            None
        }
    }

    fn from_json(input: &Json) -> (r: Result<UrlEntity, Error>) {
        if !is_object(input) {
            return Err(Error::InvalidResponse);
        }
        Ok(
            UrlEntity {
                display_url: field(input, "display_url")?,
                expanded_url: field(input, "expanded_url")?,
                indices: field(input, "indices")?,
                url: field(input, "url")?,
            },
        )
    }
}

/// A mention of another account found in a text.
#[derive(Debug)]
pub struct MentionEntity {
    /// The numeric identifier of the account.
    pub id: i64,
    /// Where the mention stands in the text: the offset of its `@`, and the
    /// offset just behind its last character.
    pub indices: (i32, i32),
    /// The display name of the account.
    pub name: String,
    /// The handle of the account, without the leading `@`.
    pub screen_name: String,
}

/// The value of a [`MentionEntity`].
pub struct MentionEntityView {
    pub id: i64,
    pub indices: (i32, i32),
    pub name: Seq<char>,
    pub screen_name: Seq<char>,
}

impl DeepView for MentionEntity {
    type V = MentionEntityView;

    open spec fn deep_view(&self) -> MentionEntityView {
        MentionEntityView {
            id: self.id,
            indices: self.indices,
            name: self.name@,
            screen_name: self.screen_name@,
        }
    }
}

impl FromJson for MentionEntity {
    open spec fn decoded(v: JsonValue) -> Option<MentionEntityView> {
        if v is Object && field_decoded::<i64>(v, "id"@) is Some && field_decoded::<(i32, i32)>(
            v,
            "indices"@,
        ) is Some && field_decoded::<String>(v, "name"@) is Some && field_decoded::<String>(
            v,
            "screen_name"@,
        ) is Some {
            Some(
                MentionEntityView {
                    id: field_decoded::<i64>(v, "id"@)->0,
                    indices: field_decoded::<(i32, i32)>(v, "indices"@)->0,
                    name: field_decoded::<String>(v, "name"@)->0,
                    screen_name: field_decoded::<String>(v, "screen_name"@)->0,
                },
            )
        } else {
            None
        }
    }

    fn from_json(input: &Json) -> (r: Result<MentionEntity, Error>) {
        if !is_object(input) {
            return Err(Error::InvalidResponse);
        }
        Ok(
            MentionEntity {
                id: field(input, "id")?,
                indices: field(input, "indices")?,
                name: field(input, "name")?,
                screen_name: field(input, "screen_name")?,
            },
        )
    }
}

/// A photo, animation or video attached to a status.
#[derive(Debug)]
pub struct MediaEntity {
    /// The address of the media as it is shown to a reader.
    pub display_url: String,
    /// The address of the page that shows the media.
    pub expanded_url: String,
    /// The numeric identifier of the media.
    pub id: i64,
    /// Where the media link stands in the text: the offset of its first
    /// character, and the offset just behind its last.
    pub indices: (i32, i32),
    /// The address of the media file.
    pub media_url: String,
    /// The address of the media file over a secure connection.
    pub media_url_https: String,
    /// The kind of media, the member `type` of the document.
    pub media_type: String,
    /// The shortened address that stands in the text itself.
    pub url: String,
}

/// The value of a [`MediaEntity`].
pub struct MediaEntityView {
    pub display_url: Seq<char>,
    pub expanded_url: Seq<char>,
    pub id: i64,
    pub indices: (i32, i32),
    pub media_url: Seq<char>,
    pub media_url_https: Seq<char>,
    pub media_type: Seq<char>,
    pub url: Seq<char>,
}

impl DeepView for MediaEntity {
    type V = MediaEntityView;

    open spec fn deep_view(&self) -> MediaEntityView {
        MediaEntityView {
            display_url: self.display_url@,
            expanded_url: self.expanded_url@,
            id: self.id,
            indices: self.indices,
            media_url: self.media_url@,
            media_url_https: self.media_url_https@,
            media_type: self.media_type@,
            url: self.url@,
        }
    }
}

impl FromJson for MediaEntity {
    open spec fn decoded(v: JsonValue) -> Option<MediaEntityView> {
        if v is Object && field_decoded::<String>(v, "display_url"@) is Some && field_decoded::<
            String,
        >(v, "expanded_url"@) is Some && field_decoded::<i64>(v, "id"@) is Some && field_decoded::<
            (i32, i32),
        >(v, "indices"@) is Some && field_decoded::<String>(v, "media_url"@) is Some
            && field_decoded::<String>(v, "media_url_https"@) is Some && field_decoded::<String>(
            v,
            "type"@,
        ) is Some && field_decoded::<String>(v, "url"@) is Some {
            Some(
                MediaEntityView {
                    display_url: field_decoded::<String>(v, "display_url"@)->0,
                    expanded_url: field_decoded::<String>(v, "expanded_url"@)->0,
                    id: field_decoded::<i64>(v, "id"@)->0,
                    indices: field_decoded::<(i32, i32)>(v, "indices"@)->0,
                    media_url: field_decoded::<String>(v, "media_url"@)->0,
                    media_url_https: field_decoded::<String>(v, "media_url_https"@)->0,
                    media_type: field_decoded::<String>(v, "type"@)->0,
                    url: field_decoded::<String>(v, "url"@)->0,
                },
            )
        } else {
            None
        }
    }

    fn from_json(input: &Json) -> (r: Result<MediaEntity, Error>) {
        if !is_object(input) {
            return Err(Error::InvalidResponse);
        }
        Ok(
            MediaEntity {
                display_url: field(input, "display_url")?,
                expanded_url: field(input, "expanded_url")?,
                id: field(input, "id")?,
                indices: field(input, "indices")?,
                media_url: field(input, "media_url")?,
                media_url_https: field(input, "media_url_https")?,
                media_type: field(input, "type")?,
                url: field(input, "url")?,
            },
        )
    }
}

} // verus!
