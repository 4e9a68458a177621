//! Artists and labels: the discography, the links and the artists of a
//! label, each with the rule by which it is read from a payload.

use vstd::prelude::*;
use crate::error::{Entity, Error, Field};
use crate::image::{AlbumImage, Image};
use crate::mapping::{
    is_readable, models, need, null_as_default, read_list, read_list_at, readable, reader,
    FromPayload,
};
use crate::number::decimal;
use crate::text::same_text;
use crate::tree::{needed, or_default, Payload, Tree};
use crate::url::{artist_url, home_address};

verus! {

/// What an entry of a discography points to.
#[derive(Debug, Clone, Copy, PartialEq, Eq, Structural)]
pub enum ArtistDiscographyEntryType {
    Album,
    Track,
}

/// The type that the field `t` names: `album`, or `track`; an entry that
/// names none is an album.
pub open spec fn entry_type_of(t: Tree) -> Result<ArtistDiscographyEntryType, Error> {
    match t.text() {
        Err(e) => Err(e),
        Ok(None) => Ok(ArtistDiscographyEntryType::Album),
        Ok(Some(s)) => if s == "album"@ {
            Ok(ArtistDiscographyEntryType::Album)
        } else if s == "track"@ {
            Ok(ArtistDiscographyEntryType::Track)
        } else {
            Err(Error::PayloadDecodeError)
        },
    }
}

/// Reads the type of a discography entry.
fn read_entry_type(p: &Payload) -> (r: Result<ArtistDiscographyEntryType, Error>)
    ensures
        r == entry_type_of(p@.at("item_type"@)),
{
    match p.text_at("item_type")? {
        None => Ok(ArtistDiscographyEntryType::Album),
        Some(s) => {
            if same_text(s.as_str(), "album") {
                Ok(ArtistDiscographyEntryType::Album)
            } else if same_text(s.as_str(), "track") {
                Ok(ArtistDiscographyEntryType::Track)
            } else {
                Err(Error::PayloadDecodeError)
            }
        },
    }
}

/// One release in an artist's discography.
#[derive(Debug, Clone, PartialEq, Eq)]
pub struct ArtistDiscographyEntry {
    pub item_type: ArtistDiscographyEntryType,
    pub id: u64,
    pub title: String,
    pub image: AlbumImage,
}

/// The model of an [`ArtistDiscographyEntry`].
pub struct ArtistDiscographyEntryView {
    pub item_type: ArtistDiscographyEntryType,
    pub id: u64,
    pub title: Seq<char>,
    pub image: AlbumImage,
}

impl View for ArtistDiscographyEntry {
    type V = ArtistDiscographyEntryView;

    open spec fn view(&self) -> ArtistDiscographyEntryView {
        ArtistDiscographyEntryView {
            item_type: self.item_type,
            id: self.id,
            title: self.title@,
            image: self.image,
        }
    }
}

impl FromPayload for ArtistDiscographyEntry {
    /// The entry that the record `t` describes: `id` and `title` are its
    /// identity.
    open spec fn described(t: Tree) -> Result<ArtistDiscographyEntryView, Error> {
        let id = needed(t.at("id"@).whole(), Field::Id, Entity::DiscographyEntry);
        let title = needed(t.at("title"@).text(), Field::Title, Entity::DiscographyEntry);
        let item_type = entry_type_of(t.at("item_type"@));
        let image = AlbumImage::of(t);
        if !readable(t) {
            Err(Error::PayloadDecodeError)
        } else if id is Err {
            Err(id->Err_0)
        } else if title is Err {
            Err(title->Err_0)
        } else if item_type is Err {
            Err(item_type->Err_0)
        } else if image is Err {
            Err(image->Err_0)
        } else {
            Ok(
                ArtistDiscographyEntryView {
                    item_type: item_type->Ok_0,
                    id: id->Ok_0,
                    title: title->Ok_0,
                    image: image->Ok_0,
                },
            )
        }
    }

    fn from_payload(p: &Payload) -> (r: Result<ArtistDiscographyEntry, Error>) {
        if !is_readable(p) {
            return Err(Error::PayloadDecodeError);
        }
        let id = need(p.whole_at("id")?, Field::Id, Entity::DiscographyEntry)?;
        let title = need(p.text_at("title")?, Field::Title, Entity::DiscographyEntry)?;
        let item_type = read_entry_type(p)?;
        let image = AlbumImage::from_record(p)?;
        Ok(ArtistDiscographyEntry { item_type, id, title, image })
    }
}

/// A link that an artist shows on the page.
#[derive(Debug, Clone, PartialEq, Eq)]
pub struct ArtistSite {
    pub title: String,
    pub url: String,
}

/// The model of an [`ArtistSite`].
pub struct ArtistSiteView {
    pub title: Seq<char>,
    pub url: Seq<char>,
}

impl View for ArtistSite {
    type V = ArtistSiteView;

    open spec fn view(&self) -> ArtistSiteView {
        ArtistSiteView { title: self.title@, url: self.url@ }
    }
}

impl FromPayload for ArtistSite {
    /// The link that the record `t` describes. It has no identity: `title`
    /// and `url` are empty where they are not given.
    open spec fn described(t: Tree) -> Result<ArtistSiteView, Error> {
        let title = or_default(t.at("title"@).text(), Seq::empty());
        let url = or_default(t.at("url"@).text(), Seq::empty());
        if !readable(t) {
            Err(Error::PayloadDecodeError)
        } else if title is Err {
            Err(title->Err_0)
        } else if url is Err {
            Err(url->Err_0)
        } else {
            Ok(ArtistSiteView { title: title->Ok_0, url: url->Ok_0 })
        }
    }

    fn from_payload(p: &Payload) -> (r: Result<ArtistSite, Error>) {
        if !is_readable(p) {
            return Err(Error::PayloadDecodeError);
        }
        let title = null_as_default(p.text_at("title")?, String::new());
        let url = null_as_default(p.text_at("url")?, String::new());
        Ok(ArtistSite { title, url })
    }
}

/// One artist of a label.
#[derive(Debug, Clone, PartialEq, Eq)]
pub struct LabelArtist {
    pub id: u64,
    pub name: String,
}

/// The model of a [`LabelArtist`].
pub struct LabelArtistView {
    pub id: u64,
    pub name: Seq<char>,
}

impl View for LabelArtist {
    type V = LabelArtistView;

    open spec fn view(&self) -> LabelArtistView {
        LabelArtistView { id: self.id, name: self.name@ }
    }
}

impl FromPayload for LabelArtist {
    /// The artist that the record `t` describes: `id` and `name` are its
    /// identity.
    open spec fn described(t: Tree) -> Result<LabelArtistView, Error> {
        let id = needed(t.at("id"@).whole(), Field::Id, Entity::LabelArtist);
        let name = needed(t.at("name"@).text(), Field::Name, Entity::LabelArtist);
        if !readable(t) {
            Err(Error::PayloadDecodeError)
        } else if id is Err {
            Err(id->Err_0)
        } else if name is Err {
            Err(name->Err_0)
        } else {
            Ok(LabelArtistView { id: id->Ok_0, name: name->Ok_0 })
        }
    }

    fn from_payload(p: &Payload) -> (r: Result<LabelArtist, Error>) {
        if !is_readable(p) {
            return Err(Error::PayloadDecodeError);
        }
        let id = need(p.whole_at("id")?, Field::Id, Entity::LabelArtist)?;
        let name = need(p.text_at("name")?, Field::Name, Entity::LabelArtist)?;
        Ok(LabelArtist { id, name })
    }
}

/// An artist or a label as its page describes it.
#[derive(Debug, Clone, PartialEq, Eq)]
pub struct Artist {
    pub id: u64,
    pub name: String,
    pub bio: String,
    /// The releases in the order of the page.
    pub discography: Vec<ArtistDiscographyEntry>,
    /// The links in the order of the page.
    pub sites: Vec<ArtistSite>,
    /// The artists of a label, in the order of the page; none for the page
    /// of an artist.
    pub artists: Vec<LabelArtist>,
    pub image: Image,
}

/// The model of an [`Artist`].
pub struct ArtistView {
    pub id: u64,
    pub name: Seq<char>,
    pub bio: Seq<char>,
    pub discography: Seq<ArtistDiscographyEntryView>,
    pub sites: Seq<ArtistSiteView>,
    pub artists: Seq<LabelArtistView>,
    pub image: Image,
}

impl View for Artist {
    type V = ArtistView;

    open spec fn view(&self) -> ArtistView {
        ArtistView {
            id: self.id,
            name: self.name@,
            bio: self.bio@,
            discography: models(self.discography@),
            sites: models(self.sites@),
            artists: models(self.artists@),
            image: self.image,
        }
    }
}

impl ArtistView {
    /// The address that carries the artist's identifier.
    pub open spec fn canonical_address(self) -> Seq<char> {
        home_address(decimal(self.id as nat))
    }
}

impl Artist {
    /// The address that carries the artist's identifier.
    pub fn canonical_url(&self) -> (r: String)
        ensures
            r@ == self@.canonical_address(),
    {
        artist_url(self.id)
    }
}

impl FromPayload for Artist {
    /// The artist that the record `t` describes. `id` and `name` are its
    /// identity; `bio` is empty and the three lists have no items where
    /// they are not given. The fields are read in the order `id`, `name`,
    /// `bio`, `discography`, `sites`, `artists`, the picture, and the first
    /// that cannot be read decides the error.
    open spec fn described(t: Tree) -> Result<ArtistView, Error> {
        let id = needed(t.at("id"@).whole(), Field::Id, Entity::Artist);
        let name = needed(t.at("name"@).text(), Field::Name, Entity::Artist);
        let bio = or_default(t.at("bio"@).text(), Seq::empty());
        let discography = read_list(t.at("discography"@), reader::<ArtistDiscographyEntry>());
        let sites = read_list(t.at("sites"@), reader::<ArtistSite>());
        let artists = read_list(t.at("artists"@), reader::<LabelArtist>());
        let image = Image::of(t);
        if !readable(t) {
            Err(Error::PayloadDecodeError)
        } else if id is Err {
            Err(id->Err_0)
        } else if name is Err {
            Err(name->Err_0)
        } else if bio is Err {
            Err(bio->Err_0)
        } else if discography is Err {
            Err(discography->Err_0)
        } else if sites is Err {
            Err(sites->Err_0)
        } else if artists is Err {
            Err(artists->Err_0)
        } else if image is Err {
            Err(image->Err_0)
        } else {
            Ok(
                ArtistView {
                    id: id->Ok_0,
                    name: name->Ok_0,
                    bio: bio->Ok_0,
                    discography: discography->Ok_0,
                    sites: sites->Ok_0,
                    artists: artists->Ok_0,
                    image: image->Ok_0,
                },
            )
        }
    }

    fn from_payload(p: &Payload) -> (r: Result<Artist, Error>) {
        if !is_readable(p) {
            return Err(Error::PayloadDecodeError);
        }
        let id = need(p.whole_at("id")?, Field::Id, Entity::Artist)?;
        let name = need(p.text_at("name")?, Field::Name, Entity::Artist)?;
        let bio = null_as_default(p.text_at("bio")?, String::new());
        let discography: Vec<ArtistDiscographyEntry> = read_list_at(p, "discography")?;
        let sites: Vec<ArtistSite> = read_list_at(p, "sites")?;
        let artists: Vec<LabelArtist> = read_list_at(p, "artists")?;
        let image = Image::from_record(p)?;
        Ok(Artist { id, name, bio, discography, sites, artists, image })
    }
}

/// No entity of an artist's page is read without its identity: a record
/// that lacks `id` gives `MissingField` for `id`, and one that has `id`
/// but lacks `name` or `title` gives `MissingField` for that.
pub proof fn artist_entities_need_identity(t: Tree)
    requires
        readable(t),
    ensures
        t.at("id"@) == Tree::Null ==> {
            &&& Artist::described(t) == Err::<ArtistView, Error>(
                Error::MissingField { field: Field::Id, entity: Entity::Artist },
            )
            &&& ArtistDiscographyEntry::described(t) == Err::<ArtistDiscographyEntryView, Error>(
                Error::MissingField { field: Field::Id, entity: Entity::DiscographyEntry },
            )
            &&& LabelArtist::described(t) == Err::<LabelArtistView, Error>(
                Error::MissingField { field: Field::Id, entity: Entity::LabelArtist },
            )
        },
        t.at("id"@).whole() is Ok && t.at("id"@) != Tree::Null && t.at("name"@) == Tree::Null ==> {
            &&& Artist::described(t) == Err::<ArtistView, Error>(
                Error::MissingField { field: Field::Name, entity: Entity::Artist },
            )
            &&& LabelArtist::described(t) == Err::<LabelArtistView, Error>(
                Error::MissingField { field: Field::Name, entity: Entity::LabelArtist },
            )
        },
        t.at("id"@).whole() is Ok && t.at("id"@) != Tree::Null && t.at("title"@) == Tree::Null
            ==> ArtistDiscographyEntry::described(t) == Err::<ArtistDiscographyEntryView, Error>(
            Error::MissingField { field: Field::Title, entity: Entity::DiscographyEntry },
        ),
{
}

} // verus!
