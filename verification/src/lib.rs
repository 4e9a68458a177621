//! Reads the catalogue of a music site whose pages carry their data as an
//! embedded JSON payload: artists, albums, tracks and search results.
//!
//! The library does no input or output. A caller asks it for the address
//! to fetch ([`artist_url`], [`album_url`], [`track_url`], [`search_url`],
//! [`page_request`]), fetches that address, and hands the body back
//! ([`artist_from_page`], [`album_from_page`], [`track_from_page`],
//! [`artist_from_url_page`], [`album_from_url_page`],
//! [`track_from_url_page`], [`search_from_response`]). What comes back is
//! an entity with every field read by a stated rule, or an [`Error`] that
//! names the stage that failed.
//!
//! Every function is verified against a contract over the mathematical
//! model of its arguments and its result: the model of a page is its
//! characters, that of a payload is a [`tree::Tree`], and that of an entity
//! is its view. Two things are assumed and not proved: what `serde_json`
//! makes of a JSON text, which [`json`] names without describing it, and
//! that `String::push` appends its character.

pub mod album;
pub mod artist;
pub mod date;
pub mod error;
pub mod extract;
pub mod image;
pub mod json;
pub mod mapping;
pub mod number;
pub mod page;
pub mod search;
pub mod text;
pub mod tree;
pub mod url;

pub use album::{
    Album, AlbumBand, AlbumTag, AlbumTagGeoname, AlbumTrack, AlbumType, PurchaseOptions,
};
pub use artist::{
    Artist, ArtistDiscographyEntry, ArtistDiscographyEntryType, ArtistSite, LabelArtist,
};
pub use date::Date;
pub use error::{Entity, Error, Field};
pub use image::{AlbumImage, Image};
pub use page::{
    album_from_page, album_from_url_page, artist_from_page, artist_from_url_page, page_request,
    search_from_response, track_from_page, track_from_url_page,
};
pub use search::{
    SearchResultItem, SearchResultItemAlbum, SearchResultItemArtist, SearchResultItemFan,
    SearchResultItemTrack,
};
pub use url::{album_url, artist_url, search_url, track_url, BandcampUrl, PageKind};
