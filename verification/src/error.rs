//! The one error type of the library.

use vstd::prelude::*;
use vstd::string::*;

verus! {

/// The kinds of entity that a payload is mapped to.
#[derive(Debug, Clone, Copy, PartialEq, Eq, Structural)]
pub enum Entity {
    Artist,
    DiscographyEntry,
    LabelArtist,
    Album,
    Band,
    Track,
    Tag,
    Geoname,
    SearchResult,
}

/// The fields that make up an entity's identity.
#[derive(Debug, Clone, Copy, PartialEq, Eq, Structural)]
pub enum Field {
    Id,
    Title,
    Name,
}

/// Every way in which an operation of this library fails.
#[derive(Debug, Clone, PartialEq, Eq)]
pub enum Error {
    /// The page could not be fetched; `url` is the address that was asked for.
    TransportError { url: String },
    /// The address has none of the shapes that the library resolves, or
    /// names a page of another kind than the one asked for.
    InvalidUrl,
    /// The page holds no embedded payload.
    PayloadNotFound,
    /// The embedded payload is there but is not well-formed data.
    PayloadDecodeError,
    /// A field of an entity's identity is absent from the payload.
    MissingField { field: Field, entity: Entity },
    /// A date is not written in the site's date format.
    DateFormatError,
}

impl Field {
    /// The field's name as payloads write it.
    pub open spec fn spec_name(self) -> Seq<char> {
        match self {
            Field::Id => "id"@,
            Field::Title => "title"@,
            Field::Name => "name"@,
        }
    }

    /// The field's name as payloads write it.
    pub fn name(&self) -> (r: &'static str)
        ensures
            r@ == self.spec_name(),
    {
        match self {
            Field::Id => "id",
            Field::Title => "title",
            Field::Name => "name",
        }
    }
}

impl Entity {
    /// The entity kind in words.
    pub open spec fn spec_name(self) -> Seq<char> {
        match self {
            Entity::Artist => "artist"@,
            Entity::DiscographyEntry => "discography entry"@,
            Entity::LabelArtist => "label artist"@,
            Entity::Album => "album"@,
            Entity::Band => "band"@,
            Entity::Track => "track"@,
            Entity::Tag => "tag"@,
            Entity::Geoname => "geoname"@,
            Entity::SearchResult => "search result"@,
        }
    }

    /// The entity kind in words.
    pub fn name(&self) -> (r: &'static str)
        ensures
            r@ == self.spec_name(),
    {
        match self {
            Entity::Artist => "artist",
            Entity::DiscographyEntry => "discography entry",
            Entity::LabelArtist => "label artist",
            Entity::Album => "album",
            Entity::Band => "band",
            Entity::Track => "track",
            Entity::Tag => "tag",
            Entity::Geoname => "geoname",
            Entity::SearchResult => "search result",
        }
    }
}

impl Error {
    /// The error for a page at `url` that could not be fetched.
    pub fn transport(url: &str) -> (e: Error)
        ensures
            e matches Error::TransportError { url: u } && u@ == url@,
    {
        Error::TransportError { url: url.to_owned() }
    }

    /// The text of `describe`: the stage that failed, with the address or
    /// the field concerned where there is one.
    pub open spec fn description(self) -> Seq<char> {
        match self {
            Error::TransportError { url } => "request failed: "@ + url@,
            Error::InvalidUrl => "unrecognized page address"@,
            Error::PayloadNotFound => "no embedded payload in the page"@,
            Error::PayloadDecodeError => "the embedded payload is not well-formed"@,
            Error::MissingField { field, entity } => "missing field "@ + field.spec_name() + " of "@
                + entity.spec_name(),
            Error::DateFormatError => "unrecognized date format"@,
        }
    }

    /// One line that says which stage failed and on what.
    pub fn describe(&self) -> (r: String)
        ensures
            r@ == self.description(),
    {
        match self {
            Error::TransportError { url } => {
                let mut r = String::from_str("request failed: ");
                r.append(url.as_str());
                r
            },
            Error::InvalidUrl => String::from_str("unrecognized page address"),
            Error::PayloadNotFound => String::from_str("no embedded payload in the page"),
            Error::PayloadDecodeError => String::from_str(
                "the embedded payload is not well-formed",
            ),
            Error::MissingField { field, entity } => {
                let mut r = String::from_str("missing field ");
                r.append(field.name());
                r.append(" of ");
                r.append(entity.name());
                r
            },
            Error::DateFormatError => String::from_str("unrecognized date format"),
        }
    }
}

} // verus!
