//! Pictures. Payloads have carried a picture's identifier under four
//! field names; a picture keeps all four and resolves them in a fixed order.

use vstd::prelude::*;
use vstd::string::*;
use crate::error::Error;
use crate::number::{padded, push_padded};
use crate::tree::{Payload, Tree};

verus! {

/// The first of four identifiers that is present, in the order given.
pub open spec fn first_present(
    a: Option<u64>,
    b: Option<u64>,
    c: Option<u64>,
    d: Option<u64>,
) -> Option<u64> {
    if a is Some {
        a
    } else if b is Some {
        b
    } else if c is Some {
        c
    } else {
        d
    }
}

/// The address of the picture `id`; `extra` stands between the directory
/// and the identifier, which is written with at least ten digits.
pub open spec fn picture_url(extra: Seq<char>, id: u64) -> Seq<char> {
    "https://f4.bcbits.com/img/"@ + extra + padded(id as nat, 10) + "_0.jpg"@
}

/// Writes the address `picture_url(extra, id)`.
fn write_picture_url(extra: &str, id: u64) -> (r: String)
    ensures
        r@ == picture_url(extra@, id),
{
    let mut r = String::from_str("https://f4.bcbits.com/img/");
    r.append(extra);
    push_padded(&mut r, id, 10);
    r.append("_0.jpg");
    r
}

/// The four fields under which payloads have carried a picture's
/// identifier, read from one record.
pub open spec fn aliases_of(t: Tree) -> Result<
    (Option<u64>, Option<u64>, Option<u64>, Option<u64>),
    Error,
> {
    let image_id = t.at("image_id"@).whole();
    let img_id = t.at("img_id"@).whole();
    let art_id = t.at("art_id"@).whole();
    let bio_image_id = t.at("bio_image_id"@).whole();
    if image_id is Err {
        Err(image_id->Err_0)
    } else if img_id is Err {
        Err(img_id->Err_0)
    } else if art_id is Err {
        Err(art_id->Err_0)
    } else if bio_image_id is Err {
        Err(bio_image_id->Err_0)
    } else {
        Ok((image_id->Ok_0, img_id->Ok_0, art_id->Ok_0, bio_image_id->Ok_0))
    }
}

/// Reads the four alias fields of `record`.
fn read_aliases(record: &Payload) -> (r: Result<
    (Option<u64>, Option<u64>, Option<u64>, Option<u64>),
    Error,
>)
    ensures
        r == aliases_of(record@),
{
    let image_id = record.whole_at("image_id")?;
    let img_id = record.whole_at("img_id")?;
    let art_id = record.whole_at("art_id")?;
    let bio_image_id = record.whole_at("bio_image_id")?;
    Ok((image_id, img_id, art_id, bio_image_id))
}

/// The picture of an artist, a fan or a label: the identifier as each of
/// the four alias fields gave it.
#[derive(Debug, Clone, Copy, PartialEq, Eq, Structural)]
pub struct Image {
    pub image_id: Option<u64>,
    pub img_id: Option<u64>,
    pub art_id: Option<u64>,
    pub bio_image_id: Option<u64>,
}

/// The cover of an album or a track: the identifier as each of the four
/// alias fields gave it.
#[derive(Debug, Clone, Copy, PartialEq, Eq, Structural)]
pub struct AlbumImage {
    pub image_id: Option<u64>,
    pub img_id: Option<u64>,
    pub art_id: Option<u64>,
    pub bio_image_id: Option<u64>,
}

impl Image {
    /// The picture's one identifier: of `image_id`, `img_id`, `art_id` and
    /// `bio_image_id` the first that is present.
    pub open spec fn resolved(self) -> Option<u64> {
        first_present(self.image_id, self.img_id, self.art_id, self.bio_image_id)
    }

    /// The picture that the alias fields of the record `t` describe.
    pub open spec fn of(t: Tree) -> Result<Image, Error> {
        match aliases_of(t) {
            Ok((image_id, img_id, art_id, bio_image_id)) => Ok(
                Image { image_id, img_id, art_id, bio_image_id },
            ),
            Err(e) => Err(e),
        }
    }

    /// Reads the picture that `record` describes.
    pub fn from_record(record: &Payload) -> (r: Result<Image, Error>)
        ensures
            r == Image::of(record@),
    {
        let (image_id, img_id, art_id, bio_image_id) = read_aliases(record)?;
        Ok(Image { image_id, img_id, art_id, bio_image_id })
    }

    /// The picture's identifier, if any alias gave one.
    pub fn get_image_id(&self) -> (r: Option<u64>)
        ensures
            r == self.resolved(),
    {
        if self.image_id.is_some() {
            self.image_id
        } else if self.img_id.is_some() {
            self.img_id
        } else if self.art_id.is_some() {
            self.art_id
        } else {
            self.bio_image_id
        }
    }

    /// The picture's address; `None` exactly when no alias gave an
    /// identifier.
    pub fn get_url(&self) -> (r: Option<String>)
        ensures
            match r {
                Some(url) => self.resolved() is Some && url@ == picture_url(
                    ""@,
                    self.resolved()->Some_0,
                ),
                None => self.resolved() is None,
            },
    {
        match self.get_image_id() {
            Some(id) => Some(write_picture_url("", id)),
            None => None,
        }
    }
}

impl AlbumImage {
    /// The cover's one identifier: of `image_id`, `img_id`, `art_id` and
    /// `bio_image_id` the first that is present.
    pub open spec fn resolved(self) -> Option<u64> {
        first_present(self.image_id, self.img_id, self.art_id, self.bio_image_id)
    }

    /// The cover that the alias fields of the record `t` describe.
    pub open spec fn of(t: Tree) -> Result<AlbumImage, Error> {
        match aliases_of(t) {
            Ok((image_id, img_id, art_id, bio_image_id)) => Ok(
                AlbumImage { image_id, img_id, art_id, bio_image_id },
            ),
            Err(e) => Err(e),
        }
    }

    /// Reads the cover that `record` describes.
    pub fn from_record(record: &Payload) -> (r: Result<AlbumImage, Error>)
        ensures
            r == AlbumImage::of(record@),
    {
        let (image_id, img_id, art_id, bio_image_id) = read_aliases(record)?;
        Ok(AlbumImage { image_id, img_id, art_id, bio_image_id })
    }

    /// The cover's identifier, if any alias gave one.
    pub fn get_image_id(&self) -> (r: Option<u64>)
        ensures
            r == self.resolved(),
    {
        if self.image_id.is_some() {
            self.image_id
        } else if self.img_id.is_some() {
            self.img_id
        } else if self.art_id.is_some() {
            self.art_id
        } else {
            self.bio_image_id
        }
    }

    /// The cover's address; `None` exactly when no alias gave an
    /// identifier.
    pub fn get_url(&self) -> (r: Option<String>)
        ensures
            match r {
                Some(url) => self.resolved() is Some && url@ == picture_url(
                    "a"@,
                    self.resolved()->Some_0,
                ),
                None => self.resolved() is None,
            },
    {
        match self.get_image_id() {
            Some(id) => Some(write_picture_url("a", id)),
            None => None,
        }
    }
}

} // verus!
