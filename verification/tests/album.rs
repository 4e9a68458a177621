use bandcamp::json::parse;
use bandcamp::mapping::FromPayload;
use bandcamp::{
    album_from_page, track_from_page, Album, AlbumBand, AlbumImage, AlbumTag, AlbumTagGeoname,
    AlbumTrack, AlbumType, Date, Entity, Error, Field, PurchaseOptions,
};

fn album_page_of(json: &str) -> String {
    let escaped = json
        .replace('&', "&amp;")
        .replace('"', "&quot;")
        .replace('<', "&lt;")
        .replace('>', "&gt;")
        .replace('\'', "&#39;");
    format!("<html><body><div id=\"pagedata\" data-blob=\"{}\"></div></body></html>", escaped)
}

fn no_cover() -> AlbumImage {
    AlbumImage { image_id: None, img_id: None, art_id: None, bio_image_id: None }
}

fn no_purchase_options() -> PurchaseOptions {
    PurchaseOptions { price: 0, currency: String::new(), is_set_price: false, is_purchasable: false }
}

const FULL_ALBUM: &str = r#"{
    "id": 456,
    "title": "Rock & Roll <Live>",
    "band": {"id": 123, "name": "The Band's Name"},
    "release_date": "07 Mar 2019 00:00:00 GMT",
    "art_id": 9,
    "price": 7.5,
    "currency": "EUR",
    "is_set_price": true,
    "is_purchasable": true,
    "tracks": [
        {"id": 1, "title": "Intro", "track_num": 1, "duration": 61.9},
        {"id": 2, "title": "Outro", "track_num": 2, "duration": 240, "price": 1}
    ],
    "tags": [
        {"name": "rock"},
        {"name": "Berlin", "isloc": true,
         "geoname": {"id": 2950159, "name": "Berlin", "fullname": "Berlin, Germany"}},
        {"name": "Paris", "isloc": false,
         "geoname": {"id": 2988507, "name": "Paris", "fullname": "Paris, France"}},
        {"name": "nowhere", "isloc": true}
    ]
}"#;

#[test]
fn album_is_read_from_its_page() {
    let album = album_from_page(&album_page_of(FULL_ALBUM)).unwrap();
    let want = Album {
        id: 456,
        band: AlbumBand { id: 123, name: "The Band's Name".to_string() },
        title: "Rock & Roll <Live>".to_string(),
        album_type: AlbumType::Album,
        release_date: Some(Date { year: 2019, month: 3, day: 7 }),
        tracks: vec![
            AlbumTrack {
                id: 1,
                title: "Intro".to_string(),
                track_num: 1,
                duration: 61,
                price: None,
            },
            AlbumTrack {
                id: 2,
                title: "Outro".to_string(),
                track_num: 2,
                duration: 240,
                price: Some(100),
            },
        ],
        tags: vec![
            AlbumTag { name: "rock".to_string(), geoname: None },
            AlbumTag {
                name: "Berlin".to_string(),
                geoname: Some(AlbumTagGeoname {
                    id: 2950159,
                    name: "Berlin".to_string(),
                    fullname: "Berlin, Germany".to_string(),
                }),
            },
            AlbumTag { name: "Paris".to_string(), geoname: None },
            AlbumTag { name: "nowhere".to_string(), geoname: None },
        ],
        purchase_options: PurchaseOptions {
            price: 750,
            currency: "EUR".to_string(),
            is_set_price: true,
            is_purchasable: true,
        },
        image: AlbumImage { image_id: None, img_id: None, art_id: Some(9), bio_image_id: None },
    };
    assert_eq!(album, want);
    assert_eq!(album.image.get_url(), Some("https://f4.bcbits.com/img/a0000000009_0.jpg".to_string()));
}

#[test]
fn album_has_the_identifiers_of_its_page() {
    for (artist_id, album_id) in [(1u64, 2u64), (123, 456), (0, u64::MAX), (u64::MAX, 0)] {
        let json = format!(
            "{{\"id\": {}, \"title\": \"t\", \"band\": {{\"id\": {}, \"name\": \"n\"}}}}",
            album_id, artist_id
        );
        let album = album_from_page(&album_page_of(&json)).unwrap();
        assert_eq!(album.id, album_id);
        assert_eq!(album.band.id, artist_id);
        assert_eq!(album.album_type, AlbumType::Album);
    }
}

#[test]
fn fields_that_are_absent_or_null_take_their_defaults() {
    let json = r#"{"id": 1, "title": "t", "band": {"id": 2, "name": "n"},
        "release_date": null, "tracks": null, "tags": null, "price": null,
        "currency": null, "is_set_price": null, "art_id": null}"#;
    let want = Album {
        id: 1,
        band: AlbumBand { id: 2, name: "n".to_string() },
        title: "t".to_string(),
        album_type: AlbumType::Album,
        release_date: None,
        tracks: vec![],
        tags: vec![],
        purchase_options: no_purchase_options(),
        image: no_cover(),
    };
    assert_eq!(album_from_page(&album_page_of(json)), Ok(want.clone()));
    let json = r#"{"id": 1, "title": "t", "band": {"id": 2, "name": "n"}}"#;
    assert_eq!(album_from_page(&album_page_of(json)), Ok(want));
}

#[test]
fn track_defaults_are_zero_and_no_price() {
    let record = parse(r#"{"id": 5, "title": "x"}"#).unwrap();
    assert_eq!(
        AlbumTrack::from_payload(&record, 3),
        Ok(AlbumTrack { id: 5, title: "x".to_string(), track_num: 3, duration: 0, price: None })
    );
}

#[test]
fn tracks_are_numbered_by_their_place() {
    let json = r#"{"id": 1, "title": "t", "band": {"id": 2, "name": "n"},
        "tracks": [
            {"id": 30, "title": "c", "track_num": 7},
            {"id": 10, "title": "a"},
            {"id": 20, "title": "b", "track_num": 1}
        ]}"#;
    let album = album_from_page(&album_page_of(json)).unwrap();
    let numbers: Vec<(u64, u64)> = album.tracks.iter().map(|t| (t.id, t.track_num)).collect();
    assert_eq!(numbers, vec![(30, 1), (10, 2), (20, 3)]);
    let list = parse(r#"[{"id": 1, "title": "a"}, {"id": 2, "title": "b"}]"#).unwrap();
    if let bandcamp::tree::Payload::List(items) = list {
        let tracks = AlbumTrack::all_from(&items).unwrap();
        assert_eq!(tracks.len(), 2);
        assert_eq!(tracks[0].track_num, 1);
        assert_eq!(tracks[1].track_num, 2);
    } else {
        panic!("a list was decoded");
    }
}

#[test]
fn equal_tags_are_kept_once() {
    let json = r#"{"id": 1, "title": "t", "band": {"id": 2, "name": "n"},
        "tags": [
            {"name": "rock"},
            {"name": "Berlin", "isloc": true, "geoname": {"id": 1, "name": "Berlin"}},
            {"name": "rock"},
            {"name": "Berlin"},
            {"name": "pop"},
            {"name": "Berlin", "isloc": true, "geoname": {"id": 1, "name": "Berlin"}},
            {"name": "rock", "isloc": false}
        ]}"#;
    let album = album_from_page(&album_page_of(json)).unwrap();
    let berlin = AlbumTagGeoname { id: 1, name: "Berlin".to_string(), fullname: String::new() };
    assert_eq!(
        album.tags,
        vec![
            AlbumTag { name: "rock".to_string(), geoname: None },
            AlbumTag { name: "Berlin".to_string(), geoname: Some(berlin) },
            AlbumTag { name: "Berlin".to_string(), geoname: None },
            AlbumTag { name: "pop".to_string(), geoname: None },
        ]
    );
}

#[test]
fn track_page_is_an_album_of_one_track() {
    let json = r#"{"id": 77, "title": "Single", "band": {"id": 123, "name": "n"},
        "duration": 185.3, "art_id": 4,
        "tracks": [{"id": 1, "title": "ignored"}, {"id": 2, "title": "ignored too"}]}"#;
    let album = track_from_page(&album_page_of(json)).unwrap();
    assert_eq!(album.album_type, AlbumType::Track);
    assert_eq!(album.id, 77);
    assert_eq!(album.band.id, 123);
    assert_eq!(
        album.tracks,
        vec![AlbumTrack {
            id: 77,
            title: "Single".to_string(),
            track_num: 1,
            duration: 185,
            price: None
        }]
    );
}

#[test]
fn track_page_without_duration_has_a_track_of_no_length() {
    let json = r#"{"id": 77, "title": "Single", "band": {"id": 123, "name": "n"}}"#;
    let album = track_from_page(&album_page_of(json)).unwrap();
    assert_eq!(album.tracks.len(), 1);
    assert_eq!(album.tracks[0].id, 77);
    assert_eq!(album.tracks[0].duration, 0);
}

#[test]
fn album_without_identity_is_a_missing_field() {
    let missing = |field, entity| Err(Error::MissingField { field, entity });
    let json = r#"{"title": "t", "band": {"id": 2, "name": "n"}}"#;
    assert_eq!(album_from_page(&album_page_of(json)), missing(Field::Id, Entity::Album));
    assert_eq!(track_from_page(&album_page_of(json)), missing(Field::Id, Entity::Album));
    let json = r#"{"id": null, "title": "t", "band": {"id": 2, "name": "n"}}"#;
    assert_eq!(album_from_page(&album_page_of(json)), missing(Field::Id, Entity::Album));
    let json = r#"{"id": 1, "band": {"id": 2, "name": "n"}}"#;
    assert_eq!(album_from_page(&album_page_of(json)), missing(Field::Title, Entity::Album));
    assert_eq!(album_from_page(&album_page_of("{}")), missing(Field::Id, Entity::Album));
    assert_eq!(album_from_page(&album_page_of("null")), missing(Field::Id, Entity::Album));
}

#[test]
fn band_without_identity_is_a_missing_field() {
    let missing = |field, entity| Err(Error::MissingField { field, entity });
    let json = r#"{"id": 1, "title": "t"}"#;
    assert_eq!(album_from_page(&album_page_of(json)), missing(Field::Id, Entity::Band));
    let json = r#"{"id": 1, "title": "t", "band": {"name": "n"}}"#;
    assert_eq!(album_from_page(&album_page_of(json)), missing(Field::Id, Entity::Band));
    let json = r#"{"id": 1, "title": "t", "band": {"id": 2}}"#;
    assert_eq!(album_from_page(&album_page_of(json)), missing(Field::Name, Entity::Band));
}

#[test]
fn track_without_identity_is_a_missing_field() {
    let missing = |field, entity| Err(Error::MissingField { field, entity });
    let json = r#"{"id": 1, "title": "t", "band": {"id": 2, "name": "n"},
        "tracks": [{"id": 1, "title": "ok"}, {"title": "no id"}]}"#;
    assert_eq!(album_from_page(&album_page_of(json)), missing(Field::Id, Entity::Track));
    let json = r#"{"id": 1, "title": "t", "band": {"id": 2, "name": "n"},
        "tracks": [{"id": 1}]}"#;
    assert_eq!(album_from_page(&album_page_of(json)), missing(Field::Title, Entity::Track));
    let json = r#"{"id": 1, "title": "t", "band": {"id": 2, "name": "n"},
        "tracks": [null]}"#;
    assert_eq!(album_from_page(&album_page_of(json)), missing(Field::Id, Entity::Track));
}

#[test]
fn tag_and_geoname_without_identity_are_missing_fields() {
    let missing = |field, entity| Err(Error::MissingField { field, entity });
    let json = r#"{"id": 1, "title": "t", "band": {"id": 2, "name": "n"},
        "tags": [{"isloc": false}]}"#;
    assert_eq!(album_from_page(&album_page_of(json)), missing(Field::Name, Entity::Tag));
    let json = r#"{"id": 1, "title": "t", "band": {"id": 2, "name": "n"},
        "tags": [{"name": "x", "isloc": true, "geoname": {"name": "X"}}]}"#;
    assert_eq!(album_from_page(&album_page_of(json)), missing(Field::Id, Entity::Geoname));
    let json = r#"{"id": 1, "title": "t", "band": {"id": 2, "name": "n"},
        "tags": [{"name": "x", "isloc": true, "geoname": {"id": 3}}]}"#;
    assert_eq!(album_from_page(&album_page_of(json)), missing(Field::Name, Entity::Geoname));
}

#[test]
fn geoname_of_a_tag_that_is_no_location_is_not_read() {
    let record = parse(r#"{"name": "x", "geoname": {"bad": true}}"#).unwrap();
    assert_eq!(
        AlbumTag::from_payload(&record),
        Ok(AlbumTag { name: "x".to_string(), geoname: None })
    );
    let record = parse(r#"{"name": "x", "isloc": true, "geoname": {"id": 1, "name": "X"}}"#).unwrap();
    assert_eq!(
        AlbumTag::from_payload(&record),
        Ok(AlbumTag {
            name: "x".to_string(),
            geoname: Some(AlbumTagGeoname {
                id: 1,
                name: "X".to_string(),
                fullname: String::new()
            })
        })
    );
}

#[test]
fn date_in_another_format_is_a_date_error() {
    let json = r#"{"id": 1, "title": "t", "band": {"id": 2, "name": "n"},
        "release_date": "2019-03-07"}"#;
    assert_eq!(album_from_page(&album_page_of(json)), Err(Error::DateFormatError));
    let json = r#"{"id": 1, "title": "t", "band": {"id": 2, "name": "n"},
        "release_date": "30 Feb 2019 00:00:00 GMT"}"#;
    assert_eq!(album_from_page(&album_page_of(json)), Err(Error::DateFormatError));
}

#[test]
fn field_of_the_wrong_type_is_a_decode_error() {
    let bad = [
        r#"[1, 2]"#,
        r#""text""#,
        r#"{"id": "1", "title": "t", "band": {"id": 2, "name": "n"}}"#,
        r#"{"id": 1.5, "title": "t", "band": {"id": 2, "name": "n"}}"#,
        r#"{"id": -1, "title": "t", "band": {"id": 2, "name": "n"}}"#,
        r#"{"id": 1, "title": 5, "band": {"id": 2, "name": "n"}}"#,
        r#"{"id": 1, "title": "t", "band": 7}"#,
        r#"{"id": 1, "title": "t", "band": {"id": 2, "name": "n"}, "release_date": 1551916800}"#,
        r#"{"id": 1, "title": "t", "band": {"id": 2, "name": "n"}, "tracks": {}}"#,
        r#"{"id": 1, "title": "t", "band": {"id": 2, "name": "n"}, "tracks": [5]}"#,
        r#"{"id": 1, "title": "t", "band": {"id": 2, "name": "n"}, "tags": "rock"}"#,
        r#"{"id": 1, "title": "t", "band": {"id": 2, "name": "n"}, "price": "7"}"#,
        r#"{"id": 1, "title": "t", "band": {"id": 2, "name": "n"}, "price": -7}"#,
        r#"{"id": 1, "title": "t", "band": {"id": 2, "name": "n"}, "currency": 1}"#,
        r#"{"id": 1, "title": "t", "band": {"id": 2, "name": "n"}, "is_set_price": 1}"#,
        r#"{"id": 1, "title": "t", "band": {"id": 2, "name": "n"}, "art_id": "x"}"#,
    ];
    for json in bad {
        assert_eq!(album_from_page(&album_page_of(json)), Err(Error::PayloadDecodeError), "{}", json);
    }
}

#[test]
fn first_field_that_fails_decides_the_error() {
    let json = r#"{"title": 5, "band": 7, "release_date": "x"}"#;
    assert_eq!(
        album_from_page(&album_page_of(json)),
        Err(Error::MissingField { field: Field::Id, entity: Entity::Album })
    );
    let json = r#"{"id": 1, "title": "t", "band": {"id": 2, "name": "n"},
        "release_date": "x", "tracks": [{}]}"#;
    assert_eq!(album_from_page(&album_page_of(json)), Err(Error::DateFormatError));
    let json = r#"{"id": 1, "title": "t", "band": {"id": 2, "name": "n"},
        "tracks": [{}], "tags": [{}]}"#;
    assert_eq!(
        album_from_page(&album_page_of(json)),
        Err(Error::MissingField { field: Field::Id, entity: Entity::Track })
    );
}

#[test]
fn purchase_options_are_read_with_their_defaults() {
    let record = parse(r#"{"price": 12.99, "is_purchasable": true}"#).unwrap();
    assert_eq!(
        PurchaseOptions::from_payload(&record),
        Ok(PurchaseOptions {
            price: 1299,
            currency: String::new(),
            is_set_price: false,
            is_purchasable: true
        })
    );
    let record = parse("{}").unwrap();
    assert_eq!(PurchaseOptions::from_payload(&record), Ok(no_purchase_options()));
}
