//! Page addresses: taking an address apart, writing the canonical address
//! of a page, and the address of a search.

use vstd::prelude::*;
use vstd::string::*;
use vstd::utf8::encode_utf8;
use crate::error::Error;
use crate::mapping::optional;
use crate::number::{decimal, decimal_reads_back, digit_char, digit_to_char, push_decimal};
use crate::text::{chars_of, find_char, first_index, string_of, word_at};

verus! {

/// The three kinds of page that the library resolves.
#[derive(Debug, Clone, Copy, PartialEq, Eq, Structural)]
pub enum PageKind {
    /// The home page of an artist or a label.
    Artist,
    Album,
    Track,
}

/// A page address taken apart: whose page it is, of what kind, and for an
/// album or a track the fragment of the path that names it.
#[derive(Debug, Clone, PartialEq, Eq)]
pub struct BandcampUrl {
    pub subdomain: String,
    pub kind: PageKind,
    pub item: Option<String>,
}

/// The model of a [`BandcampUrl`].
pub struct BandcampUrlView {
    pub subdomain: Seq<char>,
    pub kind: PageKind,
    pub item: Option<Seq<char>>,
}

impl View for BandcampUrl {
    type V = BandcampUrlView;

    open spec fn view(&self) -> BandcampUrlView {
        BandcampUrlView { subdomain: self.subdomain@, kind: self.kind, item: optional(self.item) }
    }
}

/// `https://`
pub open spec fn secure_scheme() -> Seq<char> {
    seq!['h', 't', 't', 'p', 's', ':', '/', '/']
}

/// `http://`
pub open spec fn plain_scheme() -> Seq<char> {
    seq!['h', 't', 't', 'p', ':', '/', '/']
}

/// `.bandcamp.com`
pub open spec fn domain() -> Seq<char> {
    seq!['.', 'b', 'a', 'n', 'd', 'c', 'a', 'm', 'p', '.', 'c', 'o', 'm']
}

/// `/album/`
pub open spec fn album_dir() -> Seq<char> {
    seq!['/', 'a', 'l', 'b', 'u', 'm', '/']
}

/// `/track/`
pub open spec fn track_dir() -> Seq<char> {
    seq!['/', 't', 'r', 'a', 'c', 'k', '/']
}

/// Whether `c` may stand in a name of an address: a small letter, a digit
/// or a hyphen.
pub open spec fn is_name_char(c: char) -> bool {
    ('a' <= c && c <= 'z') || ('0' <= c && c <= '9') || c == '-'
}

/// Whether `s` is a name of an address: one character or more, each a
/// small letter, a digit or a hyphen.
pub open spec fn is_name(s: Seq<char>) -> bool {
    s.len() > 0 && forall|i: int| 0 <= i < s.len() ==> is_name_char(#[trigger] s[i])
}

/// What stands behind the scheme of an address, if it has one of the two
/// schemes.
pub open spec fn after_scheme(s: Seq<char>) -> Option<Seq<char>> {
    if secure_scheme().is_prefix_of(s) {
        Some(s.skip(8))
    } else if plain_scheme().is_prefix_of(s) {
        Some(s.skip(7))
    } else {
        None
    }
}

/// The kind of page that a path names, with the name of the album or the
/// track: nothing or `/` is the home page, `/album/` and a name an album,
/// `/track/` and a name a track. No other path names a page.
pub open spec fn path_of(p: Seq<char>) -> Option<(PageKind, Option<Seq<char>>)> {
    if p.len() == 0 || p == seq!['/'] {
        Some((PageKind::Artist, None))
    } else if album_dir().is_prefix_of(p) && is_name(p.skip(7)) {
        Some((PageKind::Album, Some(p.skip(7))))
    } else if track_dir().is_prefix_of(p) && is_name(p.skip(7)) {
        Some((PageKind::Track, Some(p.skip(7))))
    } else {
        None
    }
}

impl BandcampUrlView {
    /// What holds of every address that was taken apart: the owner's name
    /// is a name, the home page has no item, and an album or a track has
    /// one, which is a name.
    pub open spec fn well_formed(self) -> bool {
        &&& is_name(self.subdomain)
        &&& match self.kind {
            PageKind::Artist => self.item is None,
            _ => self.item is Some && is_name(self.item->Some_0),
        }
    }

    /// The address of this page in its one canonical form: with the secure
    /// scheme, and for a home page with the path `/`. An album or a track
    /// without a name is written as the home page.
    pub open spec fn address(self) -> Seq<char> {
        match (self.kind, self.item) {
            (PageKind::Album, Some(item)) => album_address(self.subdomain, item),
            (PageKind::Track, Some(item)) => track_address(self.subdomain, item),
            _ => home_address(self.subdomain),
        }
    }

    /// The page that the address `s` names: a scheme, a name, the site's
    /// domain, and a path that names a page. `None` for every other text.
    pub open spec fn of(s: Seq<char>) -> Option<BandcampUrlView> {
        match after_scheme(s) {
            None => None,
            Some(rest) => {
                let dot = first_index(rest, '.');
                let subdomain = rest.take(dot);
                let tail = rest.skip(dot);
                if is_name(subdomain) && domain().is_prefix_of(tail) {
                    match path_of(tail.skip(13)) {
                        Some((kind, item)) => Some(BandcampUrlView { subdomain, kind, item }),
                        None => None,
                    }
                } else {
                    None
                }
            },
        }
    }
}

/// Whether `v[from..to]` is a name.
fn name_in(v: &Vec<char>, from: usize, to: usize) -> (r: bool)
    requires
        from <= to <= v.len(),
    ensures
        r == is_name(v@.subrange(from as int, to as int)),
{
    let ghost part = v@.subrange(from as int, to as int);
    if from == to {
        return false;
    }
    let mut i: usize = from;
    while i < to
        invariant
            from <= i <= to <= v.len(),
            part == v@.subrange(from as int, to as int),
            forall|j: int| 0 <= j < i - from ==> is_name_char(#[trigger] part[j]),
        decreases to - i,
    {
        let c = v[i];
        if !(('a' <= c && c <= 'z') || ('0' <= c && c <= '9') || c == '-') {
            assert(!is_name_char(part[i - from]));
            return false;
        }
        i += 1;
    }
    true
}

/// Reads the path `v[from..]`.
fn read_path(v: &Vec<char>, from: usize) -> (r: Option<(PageKind, Option<String>)>)
    requires
        from <= v.len(),
    ensures
        match r {
            Some((kind, item)) => path_of(v@.skip(from as int)) == Some((kind, optional(item))),
            None => path_of(v@.skip(from as int)) is None,
        },
{
    let n = v.len();
    let ghost p = v@.skip(from as int);
    assert(p == v@.subrange(from as int, n as int));
    if from == n {
        return Some((PageKind::Artist, None));
    }
    if n - from == 1 && v[from] == '/' {
        assert(p =~= seq!['/']);
        return Some((PageKind::Artist, None));
    }
    assert(p != seq!['/']) by {
        if p == seq!['/'] {
            assert(p[0] == '/');
        }
    }
    let album = vec!['/', 'a', 'l', 'b', 'u', 'm', '/'];
    let track = vec!['/', 't', 'r', 'a', 'c', 'k', '/'];
    if word_at(v, from, n, &album) {
        assert(p.skip(7) == v@.subrange(from + 7, n as int));
        if name_in(v, from + 7, n) {
            return Some((PageKind::Album, Some(string_of(v, from + 7, n))));
        }
    }
    if word_at(v, from, n, &track) {
        assert(p.skip(7) == v@.subrange(from + 7, n as int));
        if name_in(v, from + 7, n) {
            return Some((PageKind::Track, Some(string_of(v, from + 7, n))));
        }
    }
    None
}

impl BandcampUrl {
    /// Takes a page address apart. It fails with `InvalidUrl` exactly when
    /// the text names no page.
    pub fn parse(url: &str) -> (r: Result<BandcampUrl, Error>)
        ensures
            match r {
                Ok(u) => BandcampUrlView::of(url@) == Some(u@) && u@.well_formed(),
                Err(e) => e == Error::InvalidUrl && BandcampUrlView::of(url@) is None,
            },
    {
        let v = chars_of(url);
        let n = v.len();
        let secure = vec!['h', 't', 't', 'p', 's', ':', '/', '/'];
        let plain = vec!['h', 't', 't', 'p', ':', '/', '/'];
        let start: usize = if word_at(&v, 0, n, &secure) {
            8
        } else if word_at(&v, 0, n, &plain) {
            7
        } else {
            return Err(Error::InvalidUrl);
        };
        let ghost rest = v@.skip(start as int);
        let dot = find_char(&v, start, n, '.');
        assert(rest.take(dot as int) == v@.subrange(start as int, start + dot));
        if !name_in(&v, start, start + dot) {
            return Err(Error::InvalidUrl);
        }
        let site = vec!['.', 'b', 'a', 'n', 'd', 'c', 'a', 'm', 'p', '.', 'c', 'o', 'm'];
        if !word_at(&v, start + dot, n, &site) {
            return Err(Error::InvalidUrl);
        }
        assert(rest.skip(dot as int).skip(13) == v@.skip(start + dot + 13));
        match read_path(&v, start + dot + 13) {
            Some((kind, item)) => Ok(
                BandcampUrl { subdomain: string_of(&v, start, start + dot), kind, item },
            ),
            None => Err(Error::InvalidUrl),
        }
    }
}

/// The address of the home page of `owner`.
pub open spec fn home_address(owner: Seq<char>) -> Seq<char> {
    secure_scheme() + owner + domain() + seq!['/']
}

/// The address of the album `item` of `owner`.
pub open spec fn album_address(owner: Seq<char>, item: Seq<char>) -> Seq<char> {
    secure_scheme() + owner + domain() + album_dir() + item
}

/// The address of the track `item` of `owner`.
pub open spec fn track_address(owner: Seq<char>, item: Seq<char>) -> Seq<char> {
    secure_scheme() + owner + domain() + track_dir() + item
}

/// A number written in base ten is a name.
pub proof fn decimal_is_name(n: nat)
    ensures
        is_name(decimal(n)),
{
    decimal_reads_back(n);
}

/// A text that is put in front of another is its prefix, and what stands
/// behind it is the other.
proof fn joined_parts(a: Seq<char>, b: Seq<char>)
    ensures
        a.is_prefix_of(a + b),
        (a + b).take(a.len() as int) == a,
        (a + b).skip(a.len() as int) == b,
{
}

/// Joining three texts gives the same, whichever two are joined first.
proof fn joined_in_any_order(a: Seq<char>, b: Seq<char>, c: Seq<char>)
    ensures
        (a + b) + c == a + (b + c),
{
}

/// What stands behind the scheme and the owner's name in one of the three
/// addresses: the name ends at the first point.
proof fn owner_is_read(owner: Seq<char>, path: Seq<char>)
    requires
        is_name(owner),
    ensures
        BandcampUrlView::of(secure_scheme() + owner + domain() + path) == (match path_of(path) {
            Some((kind, item)) => Some(BandcampUrlView { subdomain: owner, kind, item }),
            None => None,
        }),
{
    let tail = domain() + path;
    let rest = owner + tail;
    joined_in_any_order(secure_scheme() + owner, domain(), path);
    joined_in_any_order(secure_scheme(), owner, tail);
    joined_parts(secure_scheme(), rest);
    joined_parts(domain(), path);
    crate::text::first_index_unique(rest, '.', owner.len() as int);
    joined_parts(owner, tail);
}

/// The address of a home page names that page.
pub proof fn home_address_is_read(owner: Seq<char>)
    requires
        is_name(owner),
    ensures
        BandcampUrlView::of(home_address(owner)) == Some(
            BandcampUrlView { subdomain: owner, kind: PageKind::Artist, item: None },
        ),
{
    owner_is_read(owner, seq!['/']);
}

/// A path made of a directory and a name is not the path of a home page.
proof fn item_path_is_no_home_path(dir: Seq<char>, item: Seq<char>)
    requires
        dir.len() == 7,
        item.len() > 0,
    ensures
        (dir + item).len() != 0,
        dir + item != seq!['/'],
{
    assert((dir + item).len() >= 8);
}

/// The address of an album names that album.
pub proof fn album_address_is_read(owner: Seq<char>, item: Seq<char>)
    requires
        is_name(owner),
        is_name(item),
    ensures
        BandcampUrlView::of(album_address(owner, item)) == Some(
            BandcampUrlView { subdomain: owner, kind: PageKind::Album, item: Some(item) },
        ),
{
    let path = album_dir() + item;
    owner_is_read(owner, path);
    joined_in_any_order(secure_scheme() + owner + domain(), album_dir(), item);
    joined_parts(album_dir(), item);
    item_path_is_no_home_path(album_dir(), item);
}

/// The address of a track names that track.
pub proof fn track_address_is_read(owner: Seq<char>, item: Seq<char>)
    requires
        is_name(owner),
        is_name(item),
    ensures
        BandcampUrlView::of(track_address(owner, item)) == Some(
            BandcampUrlView { subdomain: owner, kind: PageKind::Track, item: Some(item) },
        ),
{
    let path = track_dir() + item;
    owner_is_read(owner, path);
    joined_in_any_order(secure_scheme() + owner + domain(), track_dir(), item);
    joined_parts(track_dir(), item);
    item_path_is_no_home_path(track_dir(), item);
}

/// Every address that is taken apart is well-formed.
pub proof fn read_address_is_well_formed(s: Seq<char>)
    requires
        BandcampUrlView::of(s) is Some,
    ensures
        BandcampUrlView::of(s)->Some_0.well_formed(),
{
}

/// Writing an address in its canonical form and taking it apart again
/// gives the same page.
pub proof fn canonical_address_is_read(u: BandcampUrlView)
    requires
        u.well_formed(),
    ensures
        BandcampUrlView::of(u.address()) == Some(u),
{
    match u.kind {
        PageKind::Artist => home_address_is_read(u.subdomain),
        PageKind::Album => album_address_is_read(u.subdomain, u.item->Some_0),
        PageKind::Track => track_address_is_read(u.subdomain, u.item->Some_0),
    }
}

impl BandcampUrl {
    /// Writes the address in its canonical form.
    pub fn address(&self) -> (r: String)
        ensures
            r@ == self@.address(),
    {
        let mut r = String::from_str("https://");
        r.append(self.subdomain.as_str());
        proof {
            reveal_strlit("https://");
            reveal_strlit(".bandcamp.com/");
            reveal_strlit(".bandcamp.com/album/");
            reveal_strlit(".bandcamp.com/track/");
        }
        match (self.kind, &self.item) {
            (PageKind::Album, Some(item)) => {
                r.append(".bandcamp.com/album/");
                r.append(item.as_str());
            },
            (PageKind::Track, Some(item)) => {
                r.append(".bandcamp.com/track/");
                r.append(item.as_str());
            },
            _ => {
                r.append(".bandcamp.com/");
            },
        }
        r
    }
}

/// The address at which the page of the artist `artist_id` is asked for.
pub fn artist_url(artist_id: u64) -> (r: String)
    ensures
        r@ == home_address(decimal(artist_id as nat)),
{
    let mut r = String::from_str("https://");
    push_decimal(&mut r, artist_id);
    r.append(".bandcamp.com/");
    proof {
        reveal_strlit("https://");
        reveal_strlit(".bandcamp.com/");
    }
    r
}

/// The address at which the page of the album `album_id` of the artist
/// `artist_id` is asked for.
pub fn album_url(artist_id: u64, album_id: u64) -> (r: String)
    ensures
        r@ == album_address(decimal(artist_id as nat), decimal(album_id as nat)),
{
    let mut r = String::from_str("https://");
    push_decimal(&mut r, artist_id);
    r.append(".bandcamp.com/album/");
    push_decimal(&mut r, album_id);
    proof {
        reveal_strlit("https://");
        reveal_strlit(".bandcamp.com/album/");
    }
    r
}

/// The address at which the page of the track `track_id` of the artist
/// `artist_id` is asked for.
pub fn track_url(artist_id: u64, track_id: u64) -> (r: String)
    ensures
        r@ == track_address(decimal(artist_id as nat), decimal(track_id as nat)),
{
    let mut r = String::from_str("https://");
    push_decimal(&mut r, artist_id);
    r.append(".bandcamp.com/track/");
    push_decimal(&mut r, track_id);
    proof {
        reveal_strlit("https://");
        reveal_strlit(".bandcamp.com/track/");
    }
    r
}

/// The text of an address that may not be there.
pub open spec fn address_of(url: Option<&str>) -> Option<Seq<char>> {
    match url {
        Some(u) => Some(u@),
        None => None,
    }
}

/// The kind of the page that was fetched. An address other than that of a
/// home page says what it asks for. The address of a home page may lead on
/// to an album or a track: there the address that the fetch ended at
/// decides, where there is one and it names a page.
pub open spec fn resolved_kind(
    requested: BandcampUrlView,
    effective: Option<Seq<char>>,
) -> PageKind {
    if requested.kind != PageKind::Artist {
        requested.kind
    } else {
        match effective {
            None => PageKind::Artist,
            Some(e) => match BandcampUrlView::of(e) {
                Some(u) => u.kind,
                None => PageKind::Artist,
            },
        }
    }
}

/// Decides the kind of the page that was fetched for `requested`, where
/// the fetch ended at `effective_url`.
pub fn resolve_kind(requested: &BandcampUrl, effective_url: Option<&str>) -> (kind: PageKind)
    ensures
        kind == resolved_kind(requested@, address_of(effective_url)),
{
    match requested.kind {
        PageKind::Artist => match effective_url {
            None => PageKind::Artist,
            Some(e) => match BandcampUrl::parse(e) {
                Ok(u) => u.kind,
                Err(_) => PageKind::Artist,
            },
        },
        kind => kind,
    }
}

/// Whether the byte `b` stands for itself in a query: a letter, a digit,
/// a hyphen, an underscore, a point or a tilde.
pub open spec fn is_unreserved(b: u8) -> bool {
    (65 <= b && b <= 90) || (97 <= b && b <= 122) || (48 <= b && b <= 57) || b == 45 || b == 95
        || b == 46 || b == 126
}

/// The character that writes a number below sixteen in base sixteen, with
/// capital letters.
pub open spec fn hex_char(n: nat) -> char {
    if n < 10 {
        digit_char(n)
    } else if n == 10 {
        'A'
    } else if n == 11 {
        'B'
    } else if n == 12 {
        'C'
    } else if n == 13 {
        'D'
    } else if n == 14 {
        'E'
    } else {
        'F'
    }
}

/// How one byte is written in a query: as itself where it is unreserved,
/// else as a percent sign and its two digits in base sixteen.
pub open spec fn escaped_byte(b: u8) -> Seq<char> {
    if is_unreserved(b) {
        seq![b as char]
    } else {
        seq!['%', hex_char((b / 16) as nat), hex_char((b % 16) as nat)]
    }
}

/// How a run of bytes is written in a query.
pub open spec fn percent_encoded(bytes: Seq<u8>) -> Seq<char>
    decreases bytes.len(),
{
    if bytes.len() == 0 {
        Seq::empty()
    } else {
        percent_encoded(bytes.drop_last()) + escaped_byte(bytes.last())
    }
}

/// Whether `c` may stand in an encoded query: a character that stands for
/// itself, a percent sign, or a digit in base sixteen.
pub open spec fn is_query_char(c: char) -> bool {
    ('A' <= c && c <= 'Z') || ('a' <= c && c <= 'z') || ('0' <= c && c <= '9') || c == '-' || c
        == '_' || c == '.' || c == '~' || c == '%'
}

/// An encoded query holds nothing but characters that stand for
/// themselves and percent escapes: no space, no ampersand, no equals sign
/// and nothing beyond ASCII.
pub proof fn percent_encoded_is_plain(bytes: Seq<u8>)
    ensures
        forall|i: int|
            0 <= i < percent_encoded(bytes).len() ==> is_query_char(
                #[trigger] percent_encoded(bytes)[i],
            ),
    decreases bytes.len(),
{
    if bytes.len() > 0 {
        percent_encoded_is_plain(bytes.drop_last());
        assert(percent_encoded(bytes) == percent_encoded(bytes.drop_last()) + escaped_byte(
            bytes.last(),
        ));
    }
}

/// The address at which a search for `query` is asked for: the query is
/// written as the bytes of its UTF-8 form, percent-encoded.
pub open spec fn search_address(query: Seq<char>) -> Seq<char> {
    "https://bandcamp.com/api/fuzzysearch/1/app_autocomplete?q="@ + percent_encoded(
        encode_utf8(query),
    ) + "&param_with_locations=true"@
}

/// The character that writes `n` in base sixteen.
fn hex_to_char(n: u8) -> (c: char)
    requires
        n < 16,
    ensures
        c == hex_char(n as nat),
{
    if n < 10 {
        digit_to_char(n)
    } else if n == 10 {
        'A'
    } else if n == 11 {
        'B'
    } else if n == 12 {
        'C'
    } else if n == 13 {
        'D'
    } else if n == 14 {
        'E'
    } else {
        'F'
    }
}

/// The address at which a search for `query` is asked for.
pub fn search_url(query: &str) -> (r: String)
    ensures
        r@ == search_address(query@),
{
    let mut r = String::from_str("https://bandcamp.com/api/fuzzysearch/1/app_autocomplete?q=");
    let ghost head = r@;
    let bytes = query.as_bytes();
    let mut i: usize = 0;
    while i < bytes.len()
        invariant
            i <= bytes.len(),
            r@ == head + percent_encoded(bytes@.take(i as int)),
        decreases bytes.len() - i,
    {
        let b = bytes[i];
        assert(bytes@.take(i + 1).drop_last() == bytes@.take(i as int));
        if (65 <= b && b <= 90) || (97 <= b && b <= 122) || (48 <= b && b <= 57) || b == 45 || b
            == 95 || b == 46 || b == 126 {
            r.push(b as char);
        } else {
            r.push('%');
            r.push(hex_to_char(b / 16));
            r.push(hex_to_char(b % 16));
        }
        i += 1;
    }
    assert(bytes@.take(i as int) == bytes@);
    r.append("&param_with_locations=true");
    r
}

} // verus!
