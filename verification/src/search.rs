//! The results of a search: four kinds of entry in one list, told apart by
//! the field in which an entry names its kind.

use vstd::prelude::*;
use crate::error::{Entity, Error, Field};
use crate::image::{AlbumImage, Image};
use crate::mapping::{is_readable, models, need, null_as_default, readable, FromPayload};
use crate::text::same_text;
use crate::tree::{list_view, list_view_index, needed, or_default, Payload, Tree};

verus! {

/// An artist or a label among the results of a search.
#[derive(Debug, Clone, PartialEq, Eq)]
pub struct SearchResultItemArtist {
    pub id: u64,
    pub name: String,
    pub url: String,
    pub image: Image,
}

/// The model of a [`SearchResultItemArtist`].
pub struct SearchResultItemArtistView {
    pub id: u64,
    pub name: Seq<char>,
    pub url: Seq<char>,
    pub image: Image,
}

impl View for SearchResultItemArtist {
    type V = SearchResultItemArtistView;

    open spec fn view(&self) -> SearchResultItemArtistView {
        SearchResultItemArtistView {
            id: self.id,
            name: self.name@,
            url: self.url@,
            image: self.image,
        }
    }
}

impl FromPayload for SearchResultItemArtist {
    /// The artist that the entry `t` describes: `id` and `name` are its
    /// identity, and `url` is empty where it is not given.
    open spec fn described(t: Tree) -> Result<SearchResultItemArtistView, Error> {
        let id = needed(t.at("id"@).whole(), Field::Id, Entity::SearchResult);
        let name = needed(t.at("name"@).text(), Field::Name, Entity::SearchResult);
        let url = or_default(t.at("url"@).text(), Seq::empty());
        let image = Image::of(t);
        if !readable(t) {
            Err(Error::PayloadDecodeError)
        } else if id is Err {
            Err(id->Err_0)
        } else if name is Err {
            Err(name->Err_0)
        } else if url is Err {
            Err(url->Err_0)
        } else if image is Err {
            Err(image->Err_0)
        } else {
            Ok(
                SearchResultItemArtistView {
                    id: id->Ok_0,
                    name: name->Ok_0,
                    url: url->Ok_0,
                    image: image->Ok_0,
                },
            )
        }
    }

    fn from_payload(p: &Payload) -> (r: Result<SearchResultItemArtist, Error>) {
        if !is_readable(p) {
            return Err(Error::PayloadDecodeError);
        }
        let id = need(p.whole_at("id")?, Field::Id, Entity::SearchResult)?;
        let name = need(p.text_at("name")?, Field::Name, Entity::SearchResult)?;
        let url = null_as_default(p.text_at("url")?, String::new());
        let image = Image::from_record(p)?;
        Ok(SearchResultItemArtist { id, name, url, image })
    }
}

/// An album among the results of a search.
#[derive(Debug, Clone, PartialEq, Eq)]
pub struct SearchResultItemAlbum {
    pub id: u64,
    pub name: String,
    /// The artist that the album belongs to, where the entry says so.
    pub band_id: Option<u64>,
    pub band_name: String,
    pub url: String,
    pub image: AlbumImage,
}

/// The model of a [`SearchResultItemAlbum`].
pub struct SearchResultItemAlbumView {
    pub id: u64,
    pub name: Seq<char>,
    pub band_id: Option<u64>,
    pub band_name: Seq<char>,
    pub url: Seq<char>,
    pub image: AlbumImage,
}

impl View for SearchResultItemAlbum {
    type V = SearchResultItemAlbumView;

    open spec fn view(&self) -> SearchResultItemAlbumView {
        SearchResultItemAlbumView {
            id: self.id,
            name: self.name@,
            band_id: self.band_id,
            band_name: self.band_name@,
            url: self.url@,
            image: self.image,
        }
    }
}

impl FromPayload for SearchResultItemAlbum {
    /// The album that the entry `t` describes: `id` and `name` are its
    /// identity, `band_id` is optional, and `band_name` and `url` are
    /// empty where they are not given.
    open spec fn described(t: Tree) -> Result<SearchResultItemAlbumView, Error> {
        let id = needed(t.at("id"@).whole(), Field::Id, Entity::SearchResult);
        let name = needed(t.at("name"@).text(), Field::Name, Entity::SearchResult);
        let band_id = t.at("band_id"@).whole();
        let band_name = or_default(t.at("band_name"@).text(), Seq::empty());
        let url = or_default(t.at("url"@).text(), Seq::empty());
        let image = AlbumImage::of(t);
        if !readable(t) {
            Err(Error::PayloadDecodeError)
        } else if id is Err {
            Err(id->Err_0)
        } else if name is Err {
            Err(name->Err_0)
        } else if band_id is Err {
            Err(band_id->Err_0)
        } else if band_name is Err {
            Err(band_name->Err_0)
        } else if url is Err {
            Err(url->Err_0)
        } else if image is Err {
            Err(image->Err_0)
        } else {
            Ok(
                SearchResultItemAlbumView {
                    id: id->Ok_0,
                    name: name->Ok_0,
                    band_id: band_id->Ok_0,
                    band_name: band_name->Ok_0,
                    url: url->Ok_0,
                    image: image->Ok_0,
                },
            )
        }
    }

    fn from_payload(p: &Payload) -> (r: Result<SearchResultItemAlbum, Error>) {
        if !is_readable(p) {
            return Err(Error::PayloadDecodeError);
        }
        let id = need(p.whole_at("id")?, Field::Id, Entity::SearchResult)?;
        let name = need(p.text_at("name")?, Field::Name, Entity::SearchResult)?;
        let band_id = p.whole_at("band_id")?;
        let band_name = null_as_default(p.text_at("band_name")?, String::new());
        let url = null_as_default(p.text_at("url")?, String::new());
        let image = AlbumImage::from_record(p)?;
        Ok(SearchResultItemAlbum { id, name, band_id, band_name, url, image })
    }
}

/// A track among the results of a search.
#[derive(Debug, Clone, PartialEq, Eq)]
pub struct SearchResultItemTrack {
    pub id: u64,
    pub name: String,
    /// The artist that the track belongs to, where the entry says so.
    pub band_id: Option<u64>,
    pub band_name: String,
    pub url: String,
    pub image: AlbumImage,
}

/// The model of a [`SearchResultItemTrack`].
pub struct SearchResultItemTrackView {
    pub id: u64,
    pub name: Seq<char>,
    pub band_id: Option<u64>,
    pub band_name: Seq<char>,
    pub url: Seq<char>,
    pub image: AlbumImage,
}

impl View for SearchResultItemTrack {
    type V = SearchResultItemTrackView;

    open spec fn view(&self) -> SearchResultItemTrackView {
        SearchResultItemTrackView {
            id: self.id,
            name: self.name@,
            band_id: self.band_id,
            band_name: self.band_name@,
            url: self.url@,
            image: self.image,
        }
    }
}

impl FromPayload for SearchResultItemTrack {
    /// The track that the entry `t` describes: `id` and `name` are its
    /// identity, `band_id` is optional, and `band_name` and `url` are
    /// empty where they are not given.
    open spec fn described(t: Tree) -> Result<SearchResultItemTrackView, Error> {
        let id = needed(t.at("id"@).whole(), Field::Id, Entity::SearchResult);
        let name = needed(t.at("name"@).text(), Field::Name, Entity::SearchResult);
        let band_id = t.at("band_id"@).whole();
        let band_name = or_default(t.at("band_name"@).text(), Seq::empty());
        let url = or_default(t.at("url"@).text(), Seq::empty());
        let image = AlbumImage::of(t);
        if !readable(t) {
            Err(Error::PayloadDecodeError)
        } else if id is Err {
            Err(id->Err_0)
        } else if name is Err {
            Err(name->Err_0)
        } else if band_id is Err {
            Err(band_id->Err_0)
        } else if band_name is Err {
            Err(band_name->Err_0)
        } else if url is Err {
            Err(url->Err_0)
        } else if image is Err {
            Err(image->Err_0)
        } else {
            Ok(
                SearchResultItemTrackView {
                    id: id->Ok_0,
                    name: name->Ok_0,
                    band_id: band_id->Ok_0,
                    band_name: band_name->Ok_0,
                    url: url->Ok_0,
                    image: image->Ok_0,
                },
            )
        }
    }

    fn from_payload(p: &Payload) -> (r: Result<SearchResultItemTrack, Error>) {
        if !is_readable(p) {
            return Err(Error::PayloadDecodeError);
        }
        let id = need(p.whole_at("id")?, Field::Id, Entity::SearchResult)?;
        let name = need(p.text_at("name")?, Field::Name, Entity::SearchResult)?;
        let band_id = p.whole_at("band_id")?;
        let band_name = null_as_default(p.text_at("band_name")?, String::new());
        let url = null_as_default(p.text_at("url")?, String::new());
        let image = AlbumImage::from_record(p)?;
        Ok(SearchResultItemTrack { id, name, band_id, band_name, url, image })
    }
}

/// A fan among the results of a search.
#[derive(Debug, Clone, PartialEq, Eq)]
pub struct SearchResultItemFan {
    pub id: u64,
    pub name: String,
    pub url: String,
    pub image: Image,
}

/// The model of a [`SearchResultItemFan`].
pub struct SearchResultItemFanView {
    pub id: u64,
    pub name: Seq<char>,
    pub url: Seq<char>,
    pub image: Image,
}

impl View for SearchResultItemFan {
    type V = SearchResultItemFanView;

    open spec fn view(&self) -> SearchResultItemFanView {
        SearchResultItemFanView { id: self.id, name: self.name@, url: self.url@, image: self.image }
    }
}

impl FromPayload for SearchResultItemFan {
    /// The fan that the entry `t` describes: `id` and `name` are its
    /// identity, and `url` is empty where it is not given.
    open spec fn described(t: Tree) -> Result<SearchResultItemFanView, Error> {
        let id = needed(t.at("id"@).whole(), Field::Id, Entity::SearchResult);
        let name = needed(t.at("name"@).text(), Field::Name, Entity::SearchResult);
        let url = or_default(t.at("url"@).text(), Seq::empty());
        let image = Image::of(t);
        if !readable(t) {
            Err(Error::PayloadDecodeError)
        } else if id is Err {
            Err(id->Err_0)
        } else if name is Err {
            Err(name->Err_0)
        } else if url is Err {
            Err(url->Err_0)
        } else if image is Err {
            Err(image->Err_0)
        } else {
            Ok(
                SearchResultItemFanView {
                    id: id->Ok_0,
                    name: name->Ok_0,
                    url: url->Ok_0,
                    image: image->Ok_0,
                },
            )
        }
    }

    fn from_payload(p: &Payload) -> (r: Result<SearchResultItemFan, Error>) {
        if !is_readable(p) {
            return Err(Error::PayloadDecodeError);
        }
        let id = need(p.whole_at("id")?, Field::Id, Entity::SearchResult)?;
        let name = need(p.text_at("name")?, Field::Name, Entity::SearchResult)?;
        let url = null_as_default(p.text_at("url")?, String::new());
        let image = Image::from_record(p)?;
        Ok(SearchResultItemFan { id, name, url, image })
    }
}

/// One result of a search.
#[derive(Debug, Clone, PartialEq, Eq)]
pub enum SearchResultItem {
    Artist(SearchResultItemArtist),
    Album(SearchResultItemAlbum),
    Track(SearchResultItemTrack),
    Fan(SearchResultItemFan),
}

/// The model of a [`SearchResultItem`].
pub enum SearchResultItemView {
    Artist(SearchResultItemArtistView),
    Album(SearchResultItemAlbumView),
    Track(SearchResultItemTrackView),
    Fan(SearchResultItemFanView),
}

impl View for SearchResultItem {
    type V = SearchResultItemView;

    open spec fn view(&self) -> SearchResultItemView {
        match self {
            SearchResultItem::Artist(x) => SearchResultItemView::Artist(x@),
            SearchResultItem::Album(x) => SearchResultItemView::Album(x@),
            SearchResultItem::Track(x) => SearchResultItemView::Track(x@),
            SearchResultItem::Fan(x) => SearchResultItemView::Fan(x@),
        }
    }
}

/// The four kinds of result.
#[derive(Debug, Clone, Copy, PartialEq, Eq, Structural)]
pub enum ItemKind {
    Artist,
    Album,
    Track,
    Fan,
}

/// The kind that the entry `t` says it is of, in its field `type`: `b` for
/// an artist, `a` for an album, `t` for a track, `f` for a fan. An entry
/// that says anything else, or nothing, is of no kind.
pub open spec fn kind_of(t: Tree) -> Option<ItemKind> {
    match t.at("type"@) {
        Tree::Text(k) => if k == "b"@ {
            Some(ItemKind::Artist)
        } else if k == "a"@ {
            Some(ItemKind::Album)
        } else if k == "t"@ {
            Some(ItemKind::Track)
        } else if k == "f"@ {
            Some(ItemKind::Fan)
        } else {
            None
        },
        _ => None,
    }
}

/// Reads the kind of an entry.
pub fn read_kind(p: &Payload) -> (r: Option<ItemKind>)
    ensures
        r == kind_of(p@),
{
    match p.get("type") {
        Some(Payload::Text(k)) => {
            if same_text(k.as_str(), "b") {
                Some(ItemKind::Artist)
            } else if same_text(k.as_str(), "a") {
                Some(ItemKind::Album)
            } else if same_text(k.as_str(), "t") {
                Some(ItemKind::Track)
            } else if same_text(k.as_str(), "f") {
                Some(ItemKind::Fan)
            } else {
                None
            }
        },
        _ => None,
    }
}

impl SearchResultItemView {
    /// The result that the entry `t` describes, as the variant of its
    /// kind; `None` for an entry of no kind, which a search passes over.
    pub open spec fn of(t: Tree) -> Result<Option<SearchResultItemView>, Error> {
        match kind_of(t) {
            None => Ok(None),
            Some(ItemKind::Artist) => match SearchResultItemArtist::described(t) {
                Ok(x) => Ok(Some(SearchResultItemView::Artist(x))),
                Err(e) => Err(e),
            },
            Some(ItemKind::Album) => match SearchResultItemAlbum::described(t) {
                Ok(x) => Ok(Some(SearchResultItemView::Album(x))),
                Err(e) => Err(e),
            },
            Some(ItemKind::Track) => match SearchResultItemTrack::described(t) {
                Ok(x) => Ok(Some(SearchResultItemView::Track(x))),
                Err(e) => Err(e),
            },
            Some(ItemKind::Fan) => match SearchResultItemFan::described(t) {
                Ok(x) => Ok(Some(SearchResultItemView::Fan(x))),
                Err(e) => Err(e),
            },
        }
    }

    /// The results that the entries describe, in their order, the entries
    /// of no kind left out; the first entry of a kind that cannot be read
    /// fails the whole.
    pub open spec fn all_of(entries: Seq<Tree>) -> Result<Seq<SearchResultItemView>, Error>
        decreases entries.len(),
    {
        if entries.len() == 0 {
            Ok(Seq::empty())
        } else {
            match SearchResultItemView::all_of(entries.drop_last()) {
                Err(e) => Err(e),
                Ok(done) => match SearchResultItemView::of(entries.last()) {
                    Err(e) => Err(e),
                    Ok(None) => Ok(done),
                    Ok(Some(x)) => Ok(done.push(x)),
                },
            }
        }
    }

    /// The results of the response `t`: those that the entries of its list
    /// `results` describe. A response without that list has no results.
    pub open spec fn of_response(t: Tree) -> Result<Seq<SearchResultItemView>, Error> {
        if !readable(t) {
            Err(Error::PayloadDecodeError)
        } else {
            match t.at("results"@).items() {
                Err(e) => Err(e),
                Ok(entries) => SearchResultItemView::all_of(entries),
            }
        }
    }
}

impl SearchResultItemView {
    /// The kind of this result.
    pub open spec fn kind(self) -> ItemKind {
        match self {
            SearchResultItemView::Artist(_) => ItemKind::Artist,
            SearchResultItemView::Album(_) => ItemKind::Album,
            SearchResultItemView::Track(_) => ItemKind::Track,
            SearchResultItemView::Fan(_) => ItemKind::Fan,
        }
    }
}

/// A result is of the kind that its entry names, and an entry gives no
/// result exactly when it names no kind or cannot be read.
pub proof fn result_has_the_kind_of_its_entry(t: Tree)
    ensures
        SearchResultItemView::of(t) matches Ok(Some(x)) ==> kind_of(t) == Some(x.kind()),
        SearchResultItemView::of(t) == Ok::<Option<SearchResultItemView>, Error>(None) <==> kind_of(
            t,
        ) is None,
{
}

/// A search gives no more results than the response has entries.
pub proof fn results_are_no_more_than_entries(entries: Seq<Tree>)
    requires
        SearchResultItemView::all_of(entries) is Ok,
    ensures
        SearchResultItemView::all_of(entries)->Ok_0.len() <= entries.len(),
    decreases entries.len(),
{
    if entries.len() > 0 {
        results_are_no_more_than_entries(entries.drop_last());
    }
}

/// An error among the first `k` entries is the error of the whole.
pub proof fn all_of_fails_early(entries: Seq<Tree>, k: int)
    requires
        0 <= k <= entries.len(),
        SearchResultItemView::all_of(entries.take(k)) is Err,
    ensures
        SearchResultItemView::all_of(entries) == SearchResultItemView::all_of(entries.take(k)),
    decreases entries.len(),
{
    if k == entries.len() {
        assert(entries.take(k) == entries);
    } else {
        assert(entries.drop_last().take(k) == entries.take(k));
        all_of_fails_early(entries.drop_last(), k);
    }
}

/// The model of a list of results that was read.
pub open spec fn modeled_results(r: Result<Vec<SearchResultItem>, Error>) -> Result<
    Seq<SearchResultItemView>,
    Error,
> {
    match r {
        Ok(items) => Ok(models(items@)),
        Err(e) => Err(e),
    }
}

impl SearchResultItem {
    /// Reads one entry: its result, or `None` for an entry of no kind.
    pub fn from_payload(p: &Payload) -> (r: Result<Option<SearchResultItem>, Error>)
        ensures
            (match r {
                Ok(Some(x)) => Ok(Some(x@)),
                Ok(None) => Ok(None),
                Err(e) => Err(e),
            }) == SearchResultItemView::of(p@),
    {
        match read_kind(p) {
            None => Ok(None),
            Some(ItemKind::Artist) => Ok(
                Some(SearchResultItem::Artist(SearchResultItemArtist::from_payload(p)?)),
            ),
            Some(ItemKind::Album) => Ok(
                Some(SearchResultItem::Album(SearchResultItemAlbum::from_payload(p)?)),
            ),
            Some(ItemKind::Track) => Ok(
                Some(SearchResultItem::Track(SearchResultItemTrack::from_payload(p)?)),
            ),
            Some(ItemKind::Fan) => Ok(
                Some(SearchResultItem::Fan(SearchResultItemFan::from_payload(p)?)),
            ),
        }
    }

    /// Reads the entries of a list.
    pub fn all_from(entries: &Vec<Payload>) -> (r: Result<Vec<SearchResultItem>, Error>)
        ensures
            modeled_results(r) == SearchResultItemView::all_of(list_view(entries@)),
    {
        let ghost trees = list_view(entries@);
        proof {
            list_view_index(entries@);
        }
        let mut out: Vec<SearchResultItem> = Vec::new();
        let mut i: usize = 0;
        assert(models(out@) == Seq::<SearchResultItemView>::empty());
        while i < entries.len()
            invariant
                i <= entries.len(),
                trees == list_view(entries@),
                trees.len() == entries.len(),
                forall|j: int| 0 <= j < entries.len() ==> (#[trigger] trees[j]) == entries[j]@,
                SearchResultItemView::all_of(trees.take(i as int)) == Ok::<
                    Seq<SearchResultItemView>,
                    Error,
                >(models(out@)),
            decreases entries.len() - i,
        {
            assert(trees.take(i + 1).drop_last() == trees.take(i as int));
            let ghost before = models(out@);
            match SearchResultItem::from_payload(&entries[i]) {
                Ok(Some(item)) => {
                    out.push(item);
                    assert(models(out@) == before.push(item@));
                },
                Ok(None) => {},
                Err(e) => {
                    proof {
                        all_of_fails_early(trees, i + 1);
                    }
                    return Err(e);
                },
            }
            i += 1;
        }
        assert(trees.take(i as int) == trees);
        Ok(out)
    }

    /// Reads the results of a decoded response.
    pub fn from_response(p: &Payload) -> (r: Result<Vec<SearchResultItem>, Error>)
        ensures
            modeled_results(r) == SearchResultItemView::of_response(p@),
    {
        if !is_readable(p) {
            return Err(Error::PayloadDecodeError);
        }
        match p.items_at("results")? {
            Some(entries) => SearchResultItem::all_from(entries),
            None => {
                let out: Vec<SearchResultItem> = Vec::new();
                assert(models(out@) == Seq::<SearchResultItemView>::empty());
                Ok(out)
            },
        }
    }
}

/// No result is read without its identity: an entry of one of the four
/// kinds that lacks `id` gives `MissingField` for `id`, and one that has
/// `id` but lacks `name` gives `MissingField` for `name`.
pub proof fn results_need_identity(t: Tree)
    requires
        readable(t),
        kind_of(t) is Some,
    ensures
        t.at("id"@) == Tree::Null ==> SearchResultItemView::of(t) == Err::<
            Option<SearchResultItemView>,
            Error,
        >(Error::MissingField { field: Field::Id, entity: Entity::SearchResult }),
        t.at("id"@).whole() is Ok && t.at("id"@) != Tree::Null && t.at("name"@) == Tree::Null
            ==> SearchResultItemView::of(t) == Err::<Option<SearchResultItemView>, Error>(
            Error::MissingField { field: Field::Name, entity: Entity::SearchResult },
        ),
{
}

/// The results of two runs of entries, one after the other: those of the
/// first run, then those of the second; an error in the first run comes
/// before one in the second.
pub proof fn all_of_two_runs(a: Seq<Tree>, b: Seq<Tree>)
    ensures
        SearchResultItemView::all_of(a + b) == (match SearchResultItemView::all_of(a) {
            Err(e) => Err(e),
            Ok(x) => match SearchResultItemView::all_of(b) {
                Err(e) => Err(e),
                Ok(y) => Ok(x + y),
            },
        }),
    decreases b.len(),
{
    if b.len() > 0 {
        all_of_two_runs(a, b.drop_last());
        assert((a + b).drop_last() =~= a + b.drop_last());
    }
}

/// An entry of no kind changes nothing, wherever it stands among the
/// entries: the search gives what it gives without that entry.
pub proof fn entry_of_no_kind_is_passed_over(before: Seq<Tree>, entry: Tree, after: Seq<Tree>)
    requires
        kind_of(entry) is None,
    ensures
        SearchResultItemView::all_of(before + seq![entry] + after) == SearchResultItemView::all_of(
            before + after,
        ),
{
    let one = seq![entry];
    assert(SearchResultItemView::all_of(one.drop_last()) == Ok::<Seq<SearchResultItemView>, Error>(
        Seq::empty(),
    ));
    all_of_two_runs(before, one);
    all_of_two_runs(before + one, after);
    all_of_two_runs(before, after);
}

} // verus!
