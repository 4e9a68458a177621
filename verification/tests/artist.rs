use bandcamp::json::parse;
use bandcamp::mapping::FromPayload;
use bandcamp::{
    artist_from_page, AlbumImage, Artist, ArtistDiscographyEntry, ArtistDiscographyEntryType,
    ArtistSite, Entity, Error, Field, Image, LabelArtist,
};

fn artist_page_of(json: &str) -> String {
    let escaped = json.replace('&', "&amp;").replace('"', "&quot;");
    format!("<html><div id=\"pagedata\" data-blob=\"{}\"></div></html>", escaped)
}

fn no_picture() -> Image {
    Image { image_id: None, img_id: None, art_id: None, bio_image_id: None }
}

fn cover_from_art(id: u64) -> AlbumImage {
    AlbumImage { image_id: None, img_id: None, art_id: Some(id), bio_image_id: None }
}

#[test]
fn artist_is_read_from_the_page() {
    let json = r#"{
        "id": 123, "name": "Some Artist", "bio": "Plays & sings.", "bio_image_id": 31,
        "discography": [
            {"id": 9, "item_type": "track", "title": "Late Single", "art_id": 2},
            {"id": 8, "item_type": "album", "title": "First Album", "art_id": 1},
            {"id": 7, "title": "Untyped"}
        ],
        "sites": [
            {"title": "Home", "url": "https://example.org"},
            {"title": "Home", "url": "https://example.org"},
            {}
        ],
        "artists": [{"id": 5, "name": "Signed One"}]
    }"#;
    let want = Artist {
        id: 123,
        name: "Some Artist".to_string(),
        bio: "Plays & sings.".to_string(),
        discography: vec![
            ArtistDiscographyEntry {
                item_type: ArtistDiscographyEntryType::Track,
                id: 9,
                title: "Late Single".to_string(),
                image: cover_from_art(2),
            },
            ArtistDiscographyEntry {
                item_type: ArtistDiscographyEntryType::Album,
                id: 8,
                title: "First Album".to_string(),
                image: cover_from_art(1),
            },
            ArtistDiscographyEntry {
                item_type: ArtistDiscographyEntryType::Album,
                id: 7,
                title: "Untyped".to_string(),
                image: AlbumImage { image_id: None, img_id: None, art_id: None, bio_image_id: None },
            },
        ],
        sites: vec![
            ArtistSite { title: "Home".to_string(), url: "https://example.org".to_string() },
            ArtistSite { title: "Home".to_string(), url: "https://example.org".to_string() },
            ArtistSite { title: String::new(), url: String::new() },
        ],
        artists: vec![LabelArtist { id: 5, name: "Signed One".to_string() }],
        image: Image { image_id: None, img_id: None, art_id: None, bio_image_id: Some(31) },
    };
    let got = artist_from_page(&artist_page_of(json)).unwrap();
    assert_eq!(got, want);
    assert_eq!(got.image.get_url(), Some("https://f4.bcbits.com/img/0000000031_0.jpg".to_string()));
}

#[test]
fn artist_with_identity_alone_takes_every_default() {
    let want = Artist {
        id: 1,
        name: "n".to_string(),
        bio: String::new(),
        discography: vec![],
        sites: vec![],
        artists: vec![],
        image: no_picture(),
    };
    assert_eq!(artist_from_page(&artist_page_of(r#"{"id": 1, "name": "n"}"#)), Ok(want.clone()));
    let json = r#"{"id": 1, "name": "n", "bio": null, "discography": null, "sites": null,
        "artists": null, "image_id": null}"#;
    assert_eq!(artist_from_page(&artist_page_of(json)), Ok(want));
}

#[test]
fn artist_without_identity_is_a_missing_field() {
    let missing = |field, entity| Err(Error::MissingField { field, entity });
    assert_eq!(
        artist_from_page(&artist_page_of(r#"{"name": "n"}"#)),
        missing(Field::Id, Entity::Artist)
    );
    assert_eq!(
        artist_from_page(&artist_page_of(r#"{"id": 1}"#)),
        missing(Field::Name, Entity::Artist)
    );
    assert_eq!(
        artist_from_page(&artist_page_of(r#"{"id": 1, "name": null}"#)),
        missing(Field::Name, Entity::Artist)
    );
}

#[test]
fn entries_of_an_artist_need_their_identity() {
    let missing = |field, entity| Err(Error::MissingField { field, entity });
    let json = r#"{"id": 1, "name": "n", "discography": [{"title": "t"}]}"#;
    assert_eq!(
        artist_from_page(&artist_page_of(json)),
        missing(Field::Id, Entity::DiscographyEntry)
    );
    let json = r#"{"id": 1, "name": "n", "discography": [{"id": 4}]}"#;
    assert_eq!(
        artist_from_page(&artist_page_of(json)),
        missing(Field::Title, Entity::DiscographyEntry)
    );
    let json = r#"{"id": 1, "name": "n", "artists": [{"name": "x"}]}"#;
    assert_eq!(artist_from_page(&artist_page_of(json)), missing(Field::Id, Entity::LabelArtist));
    let json = r#"{"id": 1, "name": "n", "artists": [{"id": 3}]}"#;
    assert_eq!(artist_from_page(&artist_page_of(json)), missing(Field::Name, Entity::LabelArtist));
}

#[test]
fn entry_of_an_unknown_type_is_a_decode_error() {
    let record = parse(r#"{"id": 1, "title": "t", "item_type": "merch"}"#).unwrap();
    assert_eq!(ArtistDiscographyEntry::from_payload(&record), Err(Error::PayloadDecodeError));
    let record = parse(r#"{"id": 1, "title": "t", "item_type": 3}"#).unwrap();
    assert_eq!(ArtistDiscographyEntry::from_payload(&record), Err(Error::PayloadDecodeError));
}

#[test]
fn artist_fields_of_the_wrong_type_are_decode_errors() {
    let bad = [
        r#"7"#,
        r#"{"id": 1, "name": "n", "bio": 5}"#,
        r#"{"id": 1, "name": "n", "discography": {}}"#,
        r#"{"id": 1, "name": "n", "sites": [3]}"#,
        r#"{"id": 1, "name": "n", "sites": [{"url": 3}]}"#,
        r#"{"id": 1, "name": "n", "artists": "x"}"#,
        r#"{"id": 1, "name": "n", "image_id": true}"#,
    ];
    for json in bad {
        assert_eq!(artist_from_page(&artist_page_of(json)), Err(Error::PayloadDecodeError), "{}", json);
    }
}
