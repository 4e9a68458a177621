//! Albums and what belongs to them: the band, the tracks, the tags and the
//! purchase options, each with the rule by which it is read from a
//! payload.

use vstd::prelude::*;
use crate::date::Date;
use crate::error::{Entity, Error, Field};
use crate::image::AlbumImage;
use crate::mapping::{
    is_readable, modeled, modeled_list, models, need, null_as_default, optional, read_at,
    read_list, read_list_at, readable, reader, FromPayload,
};
use crate::number::decimal;
use crate::tree::{list_view, list_view_index, needed, or_default, Payload, Tree};
use crate::url::{album_address, album_url, track_address, track_url};

verus! {

/// Whether an album is a release of several tracks or stands for one
/// track's own page.
#[derive(Debug, Clone, Copy, PartialEq, Eq, Structural)]
pub enum AlbumType {
    Album,
    Track,
}

/// The artist as an album names it.
#[derive(Debug, Clone, PartialEq, Eq)]
pub struct AlbumBand {
    pub id: u64,
    pub name: String,
}

/// The model of an [`AlbumBand`].
pub struct AlbumBandView {
    pub id: u64,
    pub name: Seq<char>,
}

impl View for AlbumBand {
    type V = AlbumBandView;

    open spec fn view(&self) -> AlbumBandView {
        AlbumBandView { id: self.id, name: self.name@ }
    }
}

impl FromPayload for AlbumBand {
    /// The band that the record `t` describes: `id` and `name` are its
    /// identity.
    open spec fn described(t: Tree) -> Result<AlbumBandView, Error> {
        let id = needed(t.at("id"@).whole(), Field::Id, Entity::Band);
        let name = needed(t.at("name"@).text(), Field::Name, Entity::Band);
        if !readable(t) {
            Err(Error::PayloadDecodeError)
        } else if id is Err {
            Err(id->Err_0)
        } else if name is Err {
            Err(name->Err_0)
        } else {
            Ok(AlbumBandView { id: id->Ok_0, name: name->Ok_0 })
        }
    }

    fn from_payload(p: &Payload) -> (r: Result<AlbumBand, Error>) {
        if !is_readable(p) {
            return Err(Error::PayloadDecodeError);
        }
        let id = need(p.whole_at("id")?, Field::Id, Entity::Band)?;
        let name = need(p.text_at("name")?, Field::Name, Entity::Band)?;
        Ok(AlbumBand { id, name })
    }
}

/// One track of an album.
#[derive(Debug, Clone, PartialEq, Eq)]
pub struct AlbumTrack {
    pub id: u64,
    pub title: String,
    /// The track's place among the tracks of the album as the page lists
    /// them, counted from one.
    pub track_num: u64,
    /// The playing time in whole seconds.
    pub duration: u64,
    /// The track's own price in hundredths of the currency unit, where it
    /// has one.
    pub price: Option<u64>,
}

/// The model of an [`AlbumTrack`].
pub struct AlbumTrackView {
    pub id: u64,
    pub title: Seq<char>,
    pub track_num: u64,
    pub duration: u64,
    pub price: Option<u64>,
}

impl View for AlbumTrack {
    type V = AlbumTrackView;

    open spec fn view(&self) -> AlbumTrackView {
        AlbumTrackView {
            id: self.id,
            title: self.title@,
            track_num: self.track_num,
            duration: self.duration,
            price: self.price,
        }
    }
}

impl AlbumTrackView {
    /// The track that the record `t` describes, as the track number
    /// `track_num` of its album: `id` and `title` are its identity,
    /// `duration` is zero where it is not given, and `price` is optional.
    pub open spec fn of(t: Tree, track_num: u64) -> Result<AlbumTrackView, Error> {
        let id = needed(t.at("id"@).whole(), Field::Id, Entity::Track);
        let title = needed(t.at("title"@).text(), Field::Title, Entity::Track);
        let duration = or_default(t.at("duration"@).units(), 0u64);
        let price = t.at("price"@).hundredths();
        if !readable(t) {
            Err(Error::PayloadDecodeError)
        } else if id is Err {
            Err(id->Err_0)
        } else if title is Err {
            Err(title->Err_0)
        } else if duration is Err {
            Err(duration->Err_0)
        } else if price is Err {
            Err(price->Err_0)
        } else {
            Ok(
                AlbumTrackView {
                    id: id->Ok_0,
                    title: title->Ok_0,
                    track_num,
                    duration: duration->Ok_0,
                    price: price->Ok_0,
                },
            )
        }
    }

    /// The tracks that the records `items` describe, in their order and
    /// numbered by their place, from one; the first record that describes
    /// no track decides the error. A record whose place 64 bits cannot
    /// count describes no track.
    pub open spec fn numbered(items: Seq<Tree>) -> Result<Seq<AlbumTrackView>, Error>
        decreases items.len(),
    {
        if items.len() == 0 {
            Ok(Seq::empty())
        } else {
            match AlbumTrackView::numbered(items.drop_last()) {
                Err(e) => Err(e),
                Ok(done) => if items.len() > u64::MAX {
                    Err(Error::PayloadDecodeError)
                } else {
                    match AlbumTrackView::of(items.last(), items.len() as u64) {
                        Err(e) => Err(e),
                        Ok(track) => Ok(done.push(track)),
                    }
                },
            }
        }
    }

    /// Tracks that are read from a list are as many as its records, and
    /// each has its place in the list as its number, counted from one.
    pub proof fn numbered_counts_from_one(items: Seq<Tree>)
        requires
            AlbumTrackView::numbered(items) is Ok,
        ensures
            AlbumTrackView::numbered(items)->Ok_0.len() == items.len(),
            forall|i: int|
                0 <= i < items.len() ==> (#[trigger] AlbumTrackView::numbered(
                    items,
                )->Ok_0[i]).track_num == i + 1,
        decreases items.len(),
    {
        if items.len() > 0 {
            AlbumTrackView::numbered_counts_from_one(items.drop_last());
        }
    }

    /// An error among the first `k` records is the error of the whole.
    pub proof fn numbered_fails_early(items: Seq<Tree>, k: int)
        requires
            0 <= k <= items.len(),
            AlbumTrackView::numbered(items.take(k)) is Err,
        ensures
            AlbumTrackView::numbered(items) == AlbumTrackView::numbered(items.take(k)),
        decreases items.len(),
    {
        if k == items.len() {
            assert(items.take(k) == items);
        } else {
            assert(items.drop_last().take(k) == items.take(k));
            AlbumTrackView::numbered_fails_early(items.drop_last(), k);
        }
    }
}

impl AlbumTrack {
    /// Reads a track from its record, as the track number `track_num` of
    /// its album.
    pub fn from_payload(p: &Payload, track_num: u64) -> (r: Result<AlbumTrack, Error>)
        ensures
            modeled(r) == AlbumTrackView::of(p@, track_num),
    {
        if !is_readable(p) {
            return Err(Error::PayloadDecodeError);
        }
        let id = need(p.whole_at("id")?, Field::Id, Entity::Track)?;
        let title = need(p.text_at("title")?, Field::Title, Entity::Track)?;
        let duration = null_as_default(p.units_at("duration")?, 0);
        let price = p.hundredths_at("price")?;
        Ok(AlbumTrack { id, title, track_num, duration, price })
    }

    /// Reads the tracks of a list, in order, and numbers them by their
    /// place.
    pub fn all_from(items: &Vec<Payload>) -> (r: Result<Vec<AlbumTrack>, Error>)
        ensures
            modeled_list(r) == AlbumTrackView::numbered(list_view(items@)),
    {
        let ghost trees = list_view(items@);
        proof {
            list_view_index(items@);
        }
        let mut out: Vec<AlbumTrack> = Vec::new();
        let mut i: usize = 0;
        assert(models(out@) == Seq::<AlbumTrackView>::empty());
        while i < items.len()
            invariant
                i <= items.len(),
                trees == list_view(items@),
                trees.len() == items.len(),
                forall|j: int| 0 <= j < items.len() ==> (#[trigger] trees[j]) == items[j]@,
                AlbumTrackView::numbered(trees.take(i as int)) == Ok::<Seq<AlbumTrackView>, Error>(
                    models(out@),
                ),
            decreases items.len() - i,
        {
            assert(trees.take(i + 1).drop_last() == trees.take(i as int));
            let ghost before = models(out@);
            match AlbumTrack::from_payload(&items[i], (i + 1) as u64) {
                Ok(track) => {
                    out.push(track);
                    assert(models(out@) == before.push(track@));
                },
                Err(e) => {
                    proof {
                        AlbumTrackView::numbered_fails_early(trees, i + 1);
                    }
                    return Err(e);
                },
            }
            i += 1;
        }
        assert(trees.take(i as int) == trees);
        Ok(out)
    }
}

/// The place that a location tag names.
#[derive(Debug, Clone, PartialEq, Eq)]
pub struct AlbumTagGeoname {
    pub id: u64,
    pub name: String,
    pub fullname: String,
}

/// The model of an [`AlbumTagGeoname`].
pub struct AlbumTagGeonameView {
    pub id: u64,
    pub name: Seq<char>,
    pub fullname: Seq<char>,
}

impl View for AlbumTagGeoname {
    type V = AlbumTagGeonameView;

    open spec fn view(&self) -> AlbumTagGeonameView {
        AlbumTagGeonameView { id: self.id, name: self.name@, fullname: self.fullname@ }
    }
}

impl FromPayload for AlbumTagGeoname {
    /// The place that the record `t` describes: `id` and `name` are its
    /// identity, and `fullname` is empty where it is not given.
    open spec fn described(t: Tree) -> Result<AlbumTagGeonameView, Error> {
        let id = needed(t.at("id"@).whole(), Field::Id, Entity::Geoname);
        let name = needed(t.at("name"@).text(), Field::Name, Entity::Geoname);
        let fullname = or_default(t.at("fullname"@).text(), Seq::empty());
        if !readable(t) {
            Err(Error::PayloadDecodeError)
        } else if id is Err {
            Err(id->Err_0)
        } else if name is Err {
            Err(name->Err_0)
        } else if fullname is Err {
            Err(fullname->Err_0)
        } else {
            Ok(AlbumTagGeonameView { id: id->Ok_0, name: name->Ok_0, fullname: fullname->Ok_0 })
        }
    }

    fn from_payload(p: &Payload) -> (r: Result<AlbumTagGeoname, Error>) {
        if !is_readable(p) {
            return Err(Error::PayloadDecodeError);
        }
        let id = need(p.whole_at("id")?, Field::Id, Entity::Geoname)?;
        let name = need(p.text_at("name")?, Field::Name, Entity::Geoname)?;
        let fullname = null_as_default(p.text_at("fullname")?, String::new());
        Ok(AlbumTagGeoname { id, name, fullname })
    }
}

/// A tag of an album. A tag that the payload marks as a location carries
/// the place it names.
#[derive(Debug, Clone, PartialEq, Eq)]
pub struct AlbumTag {
    pub name: String,
    pub geoname: Option<AlbumTagGeoname>,
}

/// The model of an [`AlbumTag`].
pub struct AlbumTagView {
    pub name: Seq<char>,
    pub geoname: Option<AlbumTagGeonameView>,
}

impl View for AlbumTag {
    type V = AlbumTagView;

    open spec fn view(&self) -> AlbumTagView {
        AlbumTagView { name: self.name@, geoname: optional(self.geoname) }
    }
}

/// The place of a tag: the place that `geoname` describes where `isloc`
/// marks the tag as a location and a place is given, and none otherwise.
pub open spec fn place_of(isloc: bool, geoname: Tree) -> Result<
    Option<AlbumTagGeonameView>,
    Error,
> {
    if isloc && geoname != Tree::Null {
        match AlbumTagGeoname::described(geoname) {
            Ok(g) => Ok(Some(g)),
            Err(e) => Err(e),
        }
    } else {
        Ok(None)
    }
}

impl FromPayload for AlbumTag {
    /// The tag that the record `t` describes: `name` is its identity,
    /// `isloc` marks a location and is false where it is not given, and
    /// `geoname` is read for a location only.
    open spec fn described(t: Tree) -> Result<AlbumTagView, Error> {
        let name = needed(t.at("name"@).text(), Field::Name, Entity::Tag);
        let isloc = or_default(t.at("isloc"@).flag(), false);
        if !readable(t) {
            Err(Error::PayloadDecodeError)
        } else if name is Err {
            Err(name->Err_0)
        } else if isloc is Err {
            Err(isloc->Err_0)
        } else {
            match place_of(isloc->Ok_0, t.at("geoname"@)) {
                Err(e) => Err(e),
                Ok(geoname) => Ok(AlbumTagView { name: name->Ok_0, geoname }),
            }
        }
    }

    fn from_payload(p: &Payload) -> (r: Result<AlbumTag, Error>) {
        if !is_readable(p) {
            return Err(Error::PayloadDecodeError);
        }
        let name = need(p.text_at("name")?, Field::Name, Entity::Tag)?;
        let isloc = null_as_default(p.flag_at("isloc")?, false);
        let geoname = match p.get("geoname") {
            Some(g) => {
                if isloc {
                    Some(AlbumTagGeoname::from_payload(g)?)
                } else {
                    None
                }
            },
            None => None,
        };
        Ok(AlbumTag { name, geoname })
    }
}

/// `s` without its repetitions: of equal values the first stays.
pub open spec fn distinct<T>(s: Seq<T>) -> Seq<T>
    decreases s.len(),
{
    if s.len() == 0 {
        Seq::empty()
    } else {
        let before = distinct(s.drop_last());
        if before.contains(s.last()) {
            before
        } else {
            before.push(s.last())
        }
    }
}

/// `distinct` holds no value twice, and holds exactly the values of what
/// it was made from.
pub proof fn distinct_is_a_set<T>(s: Seq<T>)
    ensures
        distinct(s).no_duplicates(),
        forall|x: T| distinct(s).contains(x) <==> s.contains(x),
    decreases s.len(),
{
    if s.len() > 0 {
        let before = distinct(s.drop_last());
        distinct_is_a_set(s.drop_last());
        assert forall|x: T| distinct(s).contains(x) <==> s.contains(x) by {
            if s.contains(x) {
                let i = choose|i: int| 0 <= i < s.len() && s[i] == x;
                if i < s.len() - 1 {
                    assert(s.drop_last()[i] == x);
                    assert(s.drop_last().contains(x));
                    let j = choose|j: int| 0 <= j < before.len() && before[j] == x;
                    assert(distinct(s)[j] == x);
                } else if !before.contains(s.last()) {
                    assert(distinct(s)[before.len() as int] == x);
                }
            }
            if distinct(s).contains(x) {
                let j = choose|j: int| 0 <= j < distinct(s).len() && distinct(s)[j] == x;
                if j < before.len() {
                    assert(s.drop_last().contains(x));
                }
            }
        }
    }
}

/// The tags that the list `t` describes, each once: of equal tags the
/// first stays.
pub open spec fn tags_of(t: Tree) -> Result<Seq<AlbumTagView>, Error> {
    match read_list(t, reader::<AlbumTag>()) {
        Err(e) => Err(e),
        Ok(tags) => Ok(distinct(tags)),
    }
}

/// Whether two tags are equal.
fn same_tag(a: &AlbumTag, b: &AlbumTag) -> (r: bool)
    ensures
        r == (a@ == b@),
{
    if a.name != b.name {
        return false;
    }
    match (&a.geoname, &b.geoname) {
        (None, None) => true,
        (Some(x), Some(y)) => x.id == y.id && x.name == y.name && x.fullname == y.fullname,
        _ => false,
    }
}

/// Whether `tag` is among `tags`.
fn has_tag(tags: &Vec<AlbumTag>, tag: &AlbumTag) -> (r: bool)
    ensures
        r == models(tags@).contains(tag@),
{
    let mut i: usize = 0;
    while i < tags.len()
        invariant
            i <= tags.len(),
            forall|j: int| 0 <= j < i ==> models(tags@)[j] != tag@,
        decreases tags.len() - i,
    {
        if same_tag(&tags[i], tag) {
            assert(models(tags@)[i as int] == tag@);
            return true;
        }
        i += 1;
    }
    false
}

/// Keeps the first of equal tags.
fn distinct_tags(all: Vec<AlbumTag>) -> (r: Vec<AlbumTag>)
    ensures
        models(r@) == distinct(models(all@)),
{
    let mut out: Vec<AlbumTag> = Vec::new();
    for tag in it: all
        invariant
            it.seq() == all@,
            models(out@) == distinct(models(all@).take(it.index())),
    {
        let ghost i = it.index();
        assert(models(all@).take(i + 1).drop_last() =~= models(all@).take(i));
        if !has_tag(&out, &tag) {
            out.push(tag);
        }
    }
    assert(models(all@).take(all@.len() as int) =~= models(all@));
    out
}

/// Reads the tags under `tags` of `record`.
fn read_tags(record: &Payload) -> (r: Result<Vec<AlbumTag>, Error>)
    ensures
        modeled_list(r) == tags_of(record@.at("tags"@)),
{
    let all: Vec<AlbumTag> = read_list_at(record, "tags")?;
    Ok(distinct_tags(all))
}

/// How an album is sold.
#[derive(Debug, Clone, PartialEq, Eq)]
pub struct PurchaseOptions {
    /// The price in hundredths of the currency unit.
    pub price: u64,
    pub currency: String,
    /// Whether the buyer names the price.
    pub is_set_price: bool,
    /// Whether the album can be bought.
    pub is_purchasable: bool,
}

/// The model of [`PurchaseOptions`].
pub struct PurchaseOptionsView {
    pub price: u64,
    pub currency: Seq<char>,
    pub is_set_price: bool,
    pub is_purchasable: bool,
}

impl View for PurchaseOptions {
    type V = PurchaseOptionsView;

    open spec fn view(&self) -> PurchaseOptionsView {
        PurchaseOptionsView {
            price: self.price,
            currency: self.currency@,
            is_set_price: self.is_set_price,
            is_purchasable: self.is_purchasable,
        }
    }
}

impl FromPayload for PurchaseOptions {
    /// The purchase options that the record `t` describes. None of its
    /// fields is part of an identity: `price` is zero, `currency` empty and
    /// both flags false where they are not given.
    open spec fn described(t: Tree) -> Result<PurchaseOptionsView, Error> {
        let price = or_default(t.at("price"@).hundredths(), 0u64);
        let currency = or_default(t.at("currency"@).text(), Seq::empty());
        let is_set_price = or_default(t.at("is_set_price"@).flag(), false);
        let is_purchasable = or_default(t.at("is_purchasable"@).flag(), false);
        if !readable(t) {
            Err(Error::PayloadDecodeError)
        } else if price is Err {
            Err(price->Err_0)
        } else if currency is Err {
            Err(currency->Err_0)
        } else if is_set_price is Err {
            Err(is_set_price->Err_0)
        } else if is_purchasable is Err {
            Err(is_purchasable->Err_0)
        } else {
            Ok(
                PurchaseOptionsView {
                    price: price->Ok_0,
                    currency: currency->Ok_0,
                    is_set_price: is_set_price->Ok_0,
                    is_purchasable: is_purchasable->Ok_0,
                },
            )
        }
    }

    fn from_payload(p: &Payload) -> (r: Result<PurchaseOptions, Error>) {
        if !is_readable(p) {
            return Err(Error::PayloadDecodeError);
        }
        let price = null_as_default(p.hundredths_at("price")?, 0);
        let currency = null_as_default(p.text_at("currency")?, String::new());
        let is_set_price = null_as_default(p.flag_at("is_set_price")?, false);
        let is_purchasable = null_as_default(p.flag_at("is_purchasable")?, false);
        Ok(PurchaseOptions { price, currency, is_set_price, is_purchasable })
    }
}

/// The release date that the field `t` gives: none where the field is not
/// there, and `DateFormatError` where its text is no date in the site's
/// format.
pub open spec fn release_date_of(t: Tree) -> Result<Option<Date>, Error> {
    match t.text() {
        Err(e) => Err(e),
        Ok(None) => Ok(None),
        Ok(Some(s)) => match Date::of(s) {
            Some(d) => Ok(Some(d)),
            None => Err(Error::DateFormatError),
        },
    }
}

/// Reads the release date of `record`.
fn read_release_date(record: &Payload) -> (r: Result<Option<Date>, Error>)
    ensures
        r == release_date_of(record@.at("release_date"@)),
        r matches Ok(Some(d)) ==> d.valid(),
{
    match record.text_at("release_date")? {
        None => Ok(None),
        Some(s) => match Date::parse(s.as_str()) {
            Ok(d) => Ok(Some(d)),
            Err(e) => Err(e),
        },
    }
}

/// An album as its page describes it. The page of a single track is an
/// album of type `Track` that holds that one track.
#[derive(Debug, Clone, PartialEq, Eq)]
pub struct Album {
    pub id: u64,
    pub band: AlbumBand,
    pub title: String,
    pub album_type: AlbumType,
    pub release_date: Option<Date>,
    /// The tracks in the order of the page.
    pub tracks: Vec<AlbumTrack>,
    /// The tags in the order of the page, each once.
    pub tags: Vec<AlbumTag>,
    pub purchase_options: PurchaseOptions,
    pub image: AlbumImage,
}

/// The model of an [`Album`].
pub struct AlbumView {
    pub id: u64,
    pub band: AlbumBandView,
    pub title: Seq<char>,
    pub album_type: AlbumType,
    pub release_date: Option<Date>,
    pub tracks: Seq<AlbumTrackView>,
    pub tags: Seq<AlbumTagView>,
    pub purchase_options: PurchaseOptionsView,
    pub image: AlbumImage,
}

impl View for Album {
    type V = AlbumView;

    open spec fn view(&self) -> AlbumView {
        AlbumView {
            id: self.id,
            band: self.band@,
            title: self.title@,
            album_type: self.album_type,
            release_date: self.release_date,
            tracks: models(self.tracks@),
            tags: models(self.tags@),
            purchase_options: self.purchase_options@,
            image: self.image,
        }
    }
}

/// The one track of a track's own page: it has the page's identity, is
/// the first track, and has no price of its own.
pub open spec fn own_track(id: u64, title: Seq<char>, duration: u64) -> AlbumTrackView {
    AlbumTrackView { id, title, track_num: 1, duration, price: None }
}

/// The tracks of the page `t`: for an album the tracks it lists, for a
/// track's own page that one track, with the page's `duration`.
pub open spec fn tracks_of(t: Tree, album_type: AlbumType, id: u64, title: Seq<char>) -> Result<
    Seq<AlbumTrackView>,
    Error,
> {
    match album_type {
        AlbumType::Album => match t.at("tracks"@).items() {
            Err(e) => Err(e),
            Ok(items) => AlbumTrackView::numbered(items),
        },
        AlbumType::Track => match or_default(t.at("duration"@).units(), 0u64) {
            Err(e) => Err(e),
            Ok(duration) => Ok(seq![own_track(id, title, duration)]),
        },
    }
}

impl AlbumView {
    /// The address that carries the album's identifiers: that of an album
    /// or of a track, by its type, of the band and the album by their
    /// numbers.
    pub open spec fn canonical_address(self) -> Seq<char> {
        let band = decimal(self.band.id as nat);
        let item = decimal(self.id as nat);
        match self.album_type {
            AlbumType::Album => album_address(band, item),
            AlbumType::Track => track_address(band, item),
        }
    }

    /// What every album holds: the date is a day of the calendar; the
    /// tracks are numbered by their place, from one; no tag occurs twice;
    /// and an album of type `Track` has exactly one track, whose
    /// identifier is the album's own.
    pub open spec fn well_formed(self) -> bool {
        &&& self.release_date matches Some(d) ==> d.valid()
        &&& forall|i: int|
            0 <= i < self.tracks.len() ==> (#[trigger] self.tracks[i]).track_num == i + 1
        &&& self.tags.no_duplicates()
        &&& self.album_type == AlbumType::Track ==> self.tracks.len() == 1 && self.tracks[0].id
            == self.id
    }

    /// The album of type `album_type` that the record `t` describes. `id`
    /// and `title` are its identity and so are those of its band; every
    /// other field has a default. The fields are read in the order `id`,
    /// `title`, `band`, `release_date`, the tracks, `tags`, the purchase
    /// options, the cover, and the first that cannot be read decides the
    /// error.
    pub open spec fn of(t: Tree, album_type: AlbumType) -> Result<AlbumView, Error> {
        let id = needed(t.at("id"@).whole(), Field::Id, Entity::Album);
        let title = needed(t.at("title"@).text(), Field::Title, Entity::Album);
        let band = AlbumBand::described(t.at("band"@));
        let release_date = release_date_of(t.at("release_date"@));
        let tracks = tracks_of(t, album_type, id->Ok_0, title->Ok_0);
        let tags = tags_of(t.at("tags"@));
        let purchase_options = PurchaseOptions::described(t);
        let image = AlbumImage::of(t);
        if !readable(t) {
            Err(Error::PayloadDecodeError)
        } else if id is Err {
            Err(id->Err_0)
        } else if title is Err {
            Err(title->Err_0)
        } else if band is Err {
            Err(band->Err_0)
        } else if release_date is Err {
            Err(release_date->Err_0)
        } else if tracks is Err {
            Err(tracks->Err_0)
        } else if tags is Err {
            Err(tags->Err_0)
        } else if purchase_options is Err {
            Err(purchase_options->Err_0)
        } else if image is Err {
            Err(image->Err_0)
        } else {
            Ok(
                AlbumView {
                    id: id->Ok_0,
                    band: band->Ok_0,
                    title: title->Ok_0,
                    album_type,
                    release_date: release_date->Ok_0,
                    tracks: tracks->Ok_0,
                    tags: tags->Ok_0,
                    purchase_options: purchase_options->Ok_0,
                    image: image->Ok_0,
                },
            )
        }
    }
}

impl AlbumView {
    /// Every album that is read is well-formed.
    pub proof fn read_is_well_formed(t: Tree, album_type: AlbumType)
        requires
            AlbumView::of(t, album_type) is Ok,
        ensures
            AlbumView::of(t, album_type)->Ok_0.well_formed(),
    {
        let date = release_date_of(t.at("release_date"@));
        if date->Ok_0 is Some {
            Date::of_is_valid(t.at("release_date"@).text()->Ok_0->Some_0);
        }
        distinct_is_a_set(read_list(t.at("tags"@), reader::<AlbumTag>())->Ok_0);
        if album_type == AlbumType::Album {
            AlbumTrackView::numbered_counts_from_one(t.at("tracks"@).items()->Ok_0);
        }
    }
}

impl Album {
    /// The address that carries the album's identifiers.
    pub fn canonical_url(&self) -> (r: String)
        ensures
            r@ == self@.canonical_address(),
    {
        match self.album_type {
            AlbumType::Album => album_url(self.band.id, self.id),
            AlbumType::Track => track_url(self.band.id, self.id),
        }
    }

    /// Reads the album of type `album_type` from the record of its page.
    pub fn from_payload(p: &Payload, album_type: AlbumType) -> (r: Result<Album, Error>)
        ensures
            modeled(r) == AlbumView::of(p@, album_type),
            r matches Ok(album) ==> album@.well_formed(),
    {
        proof {
            if AlbumView::of(p@, album_type) is Ok {
                AlbumView::read_is_well_formed(p@, album_type);
            }
        }
        if !is_readable(p) {
            return Err(Error::PayloadDecodeError);
        }
        let id = need(p.whole_at("id")?, Field::Id, Entity::Album)?;
        let title = need(p.text_at("title")?, Field::Title, Entity::Album)?;
        let band: AlbumBand = read_at(p, "band")?;
        let release_date = read_release_date(p)?;
        let tracks: Vec<AlbumTrack> = match album_type {
            AlbumType::Album => match p.items_at("tracks")? {
                Some(items) => AlbumTrack::all_from(items)?,
                None => {
                    let none: Vec<AlbumTrack> = Vec::new();
                    assert(models(none@) == Seq::<AlbumTrackView>::empty());
                    none
                },
            },
            AlbumType::Track => {
                let duration = null_as_default(p.units_at("duration")?, 0);
                let only =
                    AlbumTrack { id, title: title.clone(), track_num: 1, duration, price: None };
                let mut tracks: Vec<AlbumTrack> = Vec::new();
                tracks.push(only);
                assert(models(tracks@) == seq![own_track(id, title@, duration)]);
                tracks
            },
        };
        let tags = read_tags(p)?;
        let purchase_options = PurchaseOptions::from_payload(p)?;
        let image = AlbumImage::from_record(p)?;
        Ok(
            Album {
                id,
                band,
                title,
                album_type,
                release_date,
                tracks,
                tags,
                purchase_options,
                image,
            },
        )
    }
}

/// No entity of an album is read without its identity: a record that
/// lacks `id` gives `MissingField` for `id`, and one that has `id` but
/// lacks `title` or `name` gives `MissingField` for that.
pub proof fn album_entities_need_identity(t: Tree, album_type: AlbumType, track_num: u64)
    requires
        readable(t),
    ensures
        t.at("id"@) == Tree::Null ==> {
            &&& AlbumView::of(t, album_type) == Err::<AlbumView, Error>(
                Error::MissingField { field: Field::Id, entity: Entity::Album },
            )
            &&& AlbumBand::described(t) == Err::<AlbumBandView, Error>(
                Error::MissingField { field: Field::Id, entity: Entity::Band },
            )
            &&& AlbumTrackView::of(t, track_num) == Err::<AlbumTrackView, Error>(
                Error::MissingField { field: Field::Id, entity: Entity::Track },
            )
            &&& AlbumTagGeoname::described(t) == Err::<AlbumTagGeonameView, Error>(
                Error::MissingField { field: Field::Id, entity: Entity::Geoname },
            )
        },
        t.at("id"@).whole() is Ok && t.at("id"@) != Tree::Null && t.at("title"@) == Tree::Null ==> {
            &&& AlbumView::of(t, album_type) == Err::<AlbumView, Error>(
                Error::MissingField { field: Field::Title, entity: Entity::Album },
            )
            &&& AlbumTrackView::of(t, track_num) == Err::<AlbumTrackView, Error>(
                Error::MissingField { field: Field::Title, entity: Entity::Track },
            )
        },
        t.at("id"@).whole() is Ok && t.at("id"@) != Tree::Null && t.at("name"@) == Tree::Null ==> {
            &&& AlbumBand::described(t) == Err::<AlbumBandView, Error>(
                Error::MissingField { field: Field::Name, entity: Entity::Band },
            )
            &&& AlbumTagGeoname::described(t) == Err::<AlbumTagGeonameView, Error>(
                Error::MissingField { field: Field::Name, entity: Entity::Geoname },
            )
        },
        t.at("name"@) == Tree::Null ==> AlbumTag::described(t) == Err::<AlbumTagView, Error>(
            Error::MissingField { field: Field::Name, entity: Entity::Tag },
        ),
        AlbumView::of(t, album_type) is Ok ==> t.at("band"@).at("id"@) != Tree::Null && t.at(
            "band"@,
        ).at("name"@) != Tree::Null,
{
}

} // verus!
