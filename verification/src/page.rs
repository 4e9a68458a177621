//! The operations of the library on fetched pages: from the body of a
//! page, and where a page was asked for by its address from that address
//! and the address at which the fetch ended, to the entity that the page
//! describes.

use vstd::prelude::*;
use crate::album::{Album, AlbumType, AlbumView};
use crate::artist::{Artist, ArtistView};
use crate::error::Error;
use crate::extract::{embedded, find, marker, payload_text};
use crate::json::{decoded, parse};
use crate::mapping::{modeled, FromPayload};
use crate::number::decimal;
use crate::search::{modeled_results, SearchResultItem, SearchResultItemView};
use crate::tree::{Payload, Tree};
use crate::url::{
    address_of, album_address, album_address_is_read, decimal_is_name, home_address,
    home_address_is_read, resolve_kind, resolved_kind, track_address, track_address_is_read,
    BandcampUrl, BandcampUrlView, PageKind,
};

verus! {

/// The payload of the page `body`, decoded: the text that the page embeds,
/// read as JSON.
pub open spec fn page_tree(body: Seq<char>) -> Result<Tree, Error> {
    match embedded(body) {
        Err(e) => Err(e),
        Ok(text) => decoded(text),
    }
}

/// Finds and decodes the payload of a page. It fails with
/// `PayloadNotFound` where the page has no marker, and with
/// `PayloadDecodeError` where what the marker introduces is not closed or
/// is not JSON.
pub fn read_page(body: &str) -> (r: Result<Payload, Error>)
    ensures
        modeled(r) == page_tree(body@),
{
    let text = payload_text(body)?;
    parse(text.as_str())
}

/// The artist that the page `body` describes.
pub open spec fn artist_page(body: Seq<char>) -> Result<ArtistView, Error> {
    match page_tree(body) {
        Err(e) => Err(e),
        Ok(t) => Artist::described(t),
    }
}

/// The album of type `album_type` that the page `body` describes.
pub open spec fn album_page(body: Seq<char>, album_type: AlbumType) -> Result<AlbumView, Error> {
    match page_tree(body) {
        Err(e) => Err(e),
        Ok(t) => AlbumView::of(t, album_type),
    }
}

/// The results that the response `body` of the search endpoint lists. The
/// response is JSON as it stands, not a page.
pub open spec fn search_response(body: Seq<char>) -> Result<Seq<SearchResultItemView>, Error> {
    match decoded(body) {
        Err(e) => Err(e),
        Ok(t) => SearchResultItemView::of_response(t),
    }
}

/// What a page fetched for the address `url` gives, where the fetch ended
/// at `effective` and a page of kind `kind` was asked for: `InvalidUrl`
/// where `url` names no page or the page is of another kind, else `page`.
pub open spec fn by_url<T>(
    url: Seq<char>,
    effective: Option<Seq<char>>,
    kind: PageKind,
    page: Result<T, Error>,
) -> Result<T, Error> {
    match BandcampUrlView::of(url) {
        None => Err(Error::InvalidUrl),
        Some(requested) => if resolved_kind(requested, effective) == kind {
            page
        } else {
            Err(Error::InvalidUrl)
        },
    }
}

/// The address to fetch for a page that is asked for by its address: the
/// address in its canonical form. It fails with `InvalidUrl` exactly when
/// `url` names no page, so that nothing is fetched for such a text.
pub fn page_request(url: &str) -> (r: Result<String, Error>)
    ensures
        match r {
            Ok(target) => BandcampUrlView::of(url@) is Some && target@ == BandcampUrlView::of(
                url@,
            )->Some_0.address(),
            Err(e) => BandcampUrlView::of(url@) is None && e == Error::InvalidUrl,
        },
{
    match BandcampUrl::parse(url) {
        Ok(requested) => Ok(requested.address()),
        Err(e) => Err(e),
    }
}

/// Checks that the page fetched for `url` is of the kind `kind`.
fn expect_kind(url: &str, effective_url: Option<&str>, kind: PageKind) -> (r: Result<(), Error>)
    ensures
        r == by_url(url@, address_of(effective_url), kind, Ok::<(), Error>(())),
{
    let requested = match BandcampUrl::parse(url) {
        Ok(u) => u,
        Err(e) => { return Err(e); },
    };
    let found = resolve_kind(&requested, effective_url);
    let same = match (found, kind) {
        (PageKind::Artist, PageKind::Artist) => true,
        (PageKind::Album, PageKind::Album) => true,
        (PageKind::Track, PageKind::Track) => true,
        _ => false,
    };
    if same {
        Ok(())
    } else {
        Err(Error::InvalidUrl)
    }
}

/// Reads the artist from the page that was fetched for the artist's
/// identifier.
pub fn artist_from_page(body: &str) -> (r: Result<Artist, Error>)
    ensures
        modeled(r) == artist_page(body@),
{
    let payload = read_page(body)?;
    Artist::from_payload(&payload)
}

/// Reads the album from the page that was fetched for its identifiers.
pub fn album_from_page(body: &str) -> (r: Result<Album, Error>)
    ensures
        modeled(r) == album_page(body@, AlbumType::Album),
        r matches Ok(album) ==> album@.well_formed(),
{
    let payload = read_page(body)?;
    Album::from_payload(&payload, AlbumType::Album)
}

/// Reads the track from the page that was fetched for its identifiers, as
/// an album of type `Track` that holds the one track.
pub fn track_from_page(body: &str) -> (r: Result<Album, Error>)
    ensures
        modeled(r) == album_page(body@, AlbumType::Track),
        r matches Ok(album) ==> album@.well_formed(),
{
    let payload = read_page(body)?;
    Album::from_payload(&payload, AlbumType::Track)
}

/// Reads the artist from the page that was fetched for the address `url`;
/// `effective_url` is the address at which the fetch ended, if the fetcher
/// reports one. The address is checked before the page is read.
pub fn artist_from_url_page(url: &str, body: &str, effective_url: Option<&str>) -> (r: Result<
    Artist,
    Error,
>)
    ensures
        modeled(r) == by_url(url@, address_of(effective_url), PageKind::Artist, artist_page(body@)),
{
    expect_kind(url, effective_url, PageKind::Artist)?;
    artist_from_page(body)
}

/// Reads the album from the page that was fetched for the address `url`;
/// `effective_url` is the address at which the fetch ended, if the fetcher
/// reports one. The address is checked before the page is read.
pub fn album_from_url_page(url: &str, body: &str, effective_url: Option<&str>) -> (r: Result<
    Album,
    Error,
>)
    ensures
        modeled(r) == by_url(
            url@,
            address_of(effective_url),
            PageKind::Album,
            album_page(body@, AlbumType::Album),
        ),
        r matches Ok(album) ==> album@.well_formed(),
{
    expect_kind(url, effective_url, PageKind::Album)?;
    album_from_page(body)
}

/// Reads the track from the page that was fetched for the address `url`;
/// `effective_url` is the address at which the fetch ended, if the fetcher
/// reports one. The address is checked before the page is read.
pub fn track_from_url_page(url: &str, body: &str, effective_url: Option<&str>) -> (r: Result<
    Album,
    Error,
>)
    ensures
        modeled(r) == by_url(
            url@,
            address_of(effective_url),
            PageKind::Track,
            album_page(body@, AlbumType::Track),
        ),
        r matches Ok(album) ==> album@.well_formed(),
{
    expect_kind(url, effective_url, PageKind::Track)?;
    track_from_page(body)
}

/// Reads the results from the response of the search endpoint.
pub fn search_from_response(body: &str) -> (r: Result<Vec<SearchResultItem>, Error>)
    ensures
        modeled_results(r) == search_response(body@),
{
    let payload = parse(body)?;
    SearchResultItem::from_response(&payload)
}

/// A page without the marker gives `PayloadNotFound`, whatever is asked
/// of it.
pub proof fn page_without_marker(body: Seq<char>)
    requires
        find(body, marker()) is None,
    ensures
        page_tree(body) == Err::<Tree, Error>(Error::PayloadNotFound),
        artist_page(body) == Err::<ArtistView, Error>(Error::PayloadNotFound),
        album_page(body, AlbumType::Album) == Err::<AlbumView, Error>(Error::PayloadNotFound),
        album_page(body, AlbumType::Track) == Err::<AlbumView, Error>(Error::PayloadNotFound),
{
}

/// A page with the marker never gives `PayloadNotFound`; and where what
/// the marker introduces is not closed by a quote, or is not well-formed
/// JSON, the page gives `PayloadDecodeError`, whatever is asked of it.
pub proof fn page_with_marker(body: Seq<char>)
    requires
        find(body, marker()) is Some,
    ensures
        page_tree(body) != Err::<Tree, Error>(Error::PayloadNotFound),
        page_tree(body) is Err ==> {
            &&& page_tree(body) == Err::<Tree, Error>(Error::PayloadDecodeError)
            &&& artist_page(body) == Err::<ArtistView, Error>(Error::PayloadDecodeError)
            &&& album_page(body, AlbumType::Album) == Err::<AlbumView, Error>(
                Error::PayloadDecodeError,
            )
            &&& album_page(body, AlbumType::Track) == Err::<AlbumView, Error>(
                Error::PayloadDecodeError,
            )
        },
{
}

/// An album read from a page has the identifiers that the page carries:
/// where the payload gives `album_id` as its `id` and `artist_id` as the
/// `id` of its `band`, the album that is read has `album_id` and its band
/// has `artist_id`.
pub proof fn album_has_the_identity_of_its_page(body: Seq<char>, artist_id: u64, album_id: u64)
    requires
        page_tree(body) is Ok,
        page_tree(body)->Ok_0.at("id"@).whole() == Ok::<Option<u64>, Error>(Some(album_id)),
        page_tree(body)->Ok_0.at("band"@).at("id"@).whole() == Ok::<Option<u64>, Error>(
            Some(artist_id),
        ),
        album_page(body, AlbumType::Album) is Ok,
    ensures
        album_page(body, AlbumType::Album)->Ok_0.id == album_id,
        album_page(body, AlbumType::Album)->Ok_0.band.id == artist_id,
        album_page(body, AlbumType::Album)->Ok_0.album_type == AlbumType::Album,
{
}

/// A track read from a page is an album of type `Track` with exactly one
/// track, and that track has the identifier that the page carries.
pub proof fn track_is_an_album_of_one_track(body: Seq<char>, track_id: u64)
    requires
        page_tree(body) is Ok,
        page_tree(body)->Ok_0.at("id"@).whole() == Ok::<Option<u64>, Error>(Some(track_id)),
        album_page(body, AlbumType::Track) is Ok,
    ensures
        album_page(body, AlbumType::Track)->Ok_0.album_type == AlbumType::Track,
        album_page(body, AlbumType::Track)->Ok_0.id == track_id,
        album_page(body, AlbumType::Track)->Ok_0.tracks.len() == 1,
        album_page(body, AlbumType::Track)->Ok_0.tracks[0].id == track_id,
        album_page(body, AlbumType::Track)->Ok_0.well_formed(),
{
    AlbumView::read_is_well_formed(page_tree(body)->Ok_0, AlbumType::Track);
}

/// A page asked for by an address of its own kind reads as the same page
/// asked for by identifiers: for an address that names an album or a
/// track, wherever the fetch ended.
pub proof fn by_url_of_its_kind<T>(
    url: Seq<char>,
    effective: Option<Seq<char>>,
    kind: PageKind,
    page: Result<T, Error>,
)
    requires
        BandcampUrlView::of(url) is Some,
        BandcampUrlView::of(url)->Some_0.kind == kind,
        kind != PageKind::Artist,
    ensures
        by_url(url, effective, kind, page) == page,
{
}

/// An artist asked for by the address of a home page, where the fetch
/// stayed at that address or ended at the address that carries the
/// artist's identifier, reads as the artist asked for by that identifier.
pub proof fn artist_by_url_is_artist_by_id(url: Seq<char>, body: Seq<char>, artist_id: u64)
    requires
        BandcampUrlView::of(url) is Some,
        BandcampUrlView::of(url)->Some_0.kind == PageKind::Artist,
    ensures
        by_url(url, None, PageKind::Artist, artist_page(body)) == artist_page(body),
        by_url(
            url,
            Some(home_address(decimal(artist_id as nat))),
            PageKind::Artist,
            artist_page(body),
        ) == artist_page(body),
{
    decimal_is_name(artist_id as nat);
    home_address_is_read(decimal(artist_id as nat));
}

/// An album asked for by an address, where the fetch ended at the
/// address that carries the identifiers of the album, reads as the album
/// asked for by those identifiers: for the address of an album, and for
/// the address of a home page that leads on to the album.
pub proof fn album_by_url_is_album_by_id(
    url: Seq<char>,
    body: Seq<char>,
    artist_id: u64,
    album_id: u64,
)
    requires
        BandcampUrlView::of(url) is Some,
        BandcampUrlView::of(url)->Some_0.kind != PageKind::Track,
    ensures
        by_url(
            url,
            Some(album_address(decimal(artist_id as nat), decimal(album_id as nat))),
            PageKind::Album,
            album_page(body, AlbumType::Album),
        ) == album_page(body, AlbumType::Album),
{
    decimal_is_name(artist_id as nat);
    decimal_is_name(album_id as nat);
    album_address_is_read(decimal(artist_id as nat), decimal(album_id as nat));
}

/// A track asked for by an address, where the fetch ended at the address
/// that carries the identifiers of the track, reads as the track asked
/// for by those identifiers: for the address of a track, and for the
/// address of a home page that leads on to the track.
pub proof fn track_by_url_is_track_by_id(
    url: Seq<char>,
    body: Seq<char>,
    artist_id: u64,
    track_id: u64,
)
    requires
        BandcampUrlView::of(url) is Some,
        BandcampUrlView::of(url)->Some_0.kind != PageKind::Album,
    ensures
        by_url(
            url,
            Some(track_address(decimal(artist_id as nat), decimal(track_id as nat))),
            PageKind::Track,
            album_page(body, AlbumType::Track),
        ) == album_page(body, AlbumType::Track),
{
    decimal_is_name(artist_id as nat);
    decimal_is_name(track_id as nat);
    track_address_is_read(decimal(artist_id as nat), decimal(track_id as nat));
}

/// An album or a track asked for by its own canonical address reads as
/// it reads asked for by its identifiers, wherever the fetch ended.
pub proof fn album_by_its_own_address(
    body: Seq<char>,
    album_type: AlbumType,
    effective: Option<Seq<char>>,
)
    requires
        album_page(body, album_type) is Ok,
    ensures
        by_url(
            album_page(body, album_type)->Ok_0.canonical_address(),
            effective,
            match album_type {
                AlbumType::Album => PageKind::Album,
                AlbumType::Track => PageKind::Track,
            },
            album_page(body, album_type),
        ) == album_page(body, album_type),
{
    let album = album_page(body, album_type)->Ok_0;
    decimal_is_name(album.band.id as nat);
    decimal_is_name(album.id as nat);
    match album_type {
        AlbumType::Album => album_address_is_read(
            decimal(album.band.id as nat),
            decimal(album.id as nat),
        ),
        AlbumType::Track => track_address_is_read(
            decimal(album.band.id as nat),
            decimal(album.id as nat),
        ),
    }
}

/// An artist asked for by the artist's own canonical address reads as
/// the artist asked for by identifier, where the fetch stayed at that
/// address.
pub proof fn artist_by_their_own_address(body: Seq<char>)
    requires
        artist_page(body) is Ok,
    ensures
        by_url(
            artist_page(body)->Ok_0.canonical_address(),
            None,
            PageKind::Artist,
            artist_page(body),
        ) == artist_page(body),
        by_url(
            artist_page(body)->Ok_0.canonical_address(),
            Some(artist_page(body)->Ok_0.canonical_address()),
            PageKind::Artist,
            artist_page(body),
        ) == artist_page(body),
{
    let artist = artist_page(body)->Ok_0;
    decimal_is_name(artist.id as nat);
    home_address_is_read(decimal(artist.id as nat));
}

} // verus!
