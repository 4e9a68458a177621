use bandcamp::json::parse;
use bandcamp::search::{read_kind, ItemKind};
use bandcamp::{
    search_from_response, AlbumImage, Entity, Error, Field, Image, SearchResultItem,
    SearchResultItemAlbum, SearchResultItemArtist, SearchResultItemFan, SearchResultItemTrack,
};

const MIXED: &str = r#"{"results": [
    {"type": "b", "id": 1, "name": "Artist", "url": "https://artist.bandcamp.com", "img_id": 11},
    {"type": "x", "id": 99, "name": "Unknown"},
    {"type": "a", "id": 2, "name": "Album", "band_id": 1, "band_name": "Artist",
     "url": "https://artist.bandcamp.com/album/album", "art_id": 22},
    {"type": "t", "id": 3, "name": "Track", "band_id": 1, "band_name": "Artist",
     "url": "https://artist.bandcamp.com/track/track", "art_id": 33},
    {"type": "f", "id": 4, "name": "Fan", "url": "https://bandcamp.com/fan", "img_id": 44}
]}"#;

fn mixed_results() -> Vec<SearchResultItem> {
    vec![
        SearchResultItem::Artist(SearchResultItemArtist {
            id: 1,
            name: "Artist".to_string(),
            url: "https://artist.bandcamp.com".to_string(),
            image: Image { image_id: None, img_id: Some(11), art_id: None, bio_image_id: None },
        }),
        SearchResultItem::Album(SearchResultItemAlbum {
            id: 2,
            name: "Album".to_string(),
            band_id: Some(1),
            band_name: "Artist".to_string(),
            url: "https://artist.bandcamp.com/album/album".to_string(),
            image: AlbumImage { image_id: None, img_id: None, art_id: Some(22), bio_image_id: None },
        }),
        SearchResultItem::Track(SearchResultItemTrack {
            id: 3,
            name: "Track".to_string(),
            band_id: Some(1),
            band_name: "Artist".to_string(),
            url: "https://artist.bandcamp.com/track/track".to_string(),
            image: AlbumImage { image_id: None, img_id: None, art_id: Some(33), bio_image_id: None },
        }),
        SearchResultItem::Fan(SearchResultItemFan {
            id: 4,
            name: "Fan".to_string(),
            url: "https://bandcamp.com/fan".to_string(),
            image: Image { image_id: None, img_id: Some(44), art_id: None, bio_image_id: None },
        }),
    ]
}

#[test]
fn search_gives_one_item_of_each_kind_and_skips_the_unknown() {
    let results = search_from_response(MIXED).unwrap();
    assert_eq!(results.len(), 4);
    assert!(matches!(results[0], SearchResultItem::Artist(_)));
    assert!(matches!(results[1], SearchResultItem::Album(_)));
    assert!(matches!(results[2], SearchResultItem::Track(_)));
    assert!(matches!(results[3], SearchResultItem::Fan(_)));
    assert_eq!(results, mixed_results());
}

#[test]
fn entries_of_no_kind_are_passed_over_wherever_they_stand() {
    let body = r#"{"results": [
        {"id": 1, "name": "no type"},
        {"type": "b", "id": 1, "name": "A"},
        {"type": null, "id": 1, "name": "null type"},
        {"type": 7},
        "text",
        null,
        {"type": "B", "id": 1, "name": "capital"},
        {"type": "f", "id": 2, "name": "F"},
        {"type": "album"}
    ]}"#;
    let results = search_from_response(body).unwrap();
    let names: Vec<String> = results
        .iter()
        .map(|r| match r {
            SearchResultItem::Artist(x) => x.name.clone(),
            SearchResultItem::Album(x) => x.name.clone(),
            SearchResultItem::Track(x) => x.name.clone(),
            SearchResultItem::Fan(x) => x.name.clone(),
        })
        .collect();
    assert_eq!(names, vec!["A".to_string(), "F".to_string()]);
}

#[test]
fn response_without_results_has_none() {
    assert_eq!(search_from_response("{}"), Ok(vec![]));
    assert_eq!(search_from_response(r#"{"results": null}"#), Ok(vec![]));
    assert_eq!(search_from_response(r#"{"results": []}"#), Ok(vec![]));
    assert_eq!(search_from_response("null"), Ok(vec![]));
}

#[test]
fn result_fields_take_their_defaults() {
    let body = r#"{"results": [{"type": "a", "id": 2, "name": "Album"}]}"#;
    assert_eq!(
        search_from_response(body),
        Ok(vec![SearchResultItem::Album(SearchResultItemAlbum {
            id: 2,
            name: "Album".to_string(),
            band_id: None,
            band_name: String::new(),
            url: String::new(),
            image: AlbumImage { image_id: None, img_id: None, art_id: None, bio_image_id: None },
        })])
    );
}

#[test]
fn result_without_identity_is_a_missing_field() {
    let missing = |field| Err(Error::MissingField { field, entity: Entity::SearchResult });
    for kind in ["b", "a", "t", "f"] {
        let body = format!("{{\"results\": [{{\"type\": \"{}\", \"name\": \"n\"}}]}}", kind);
        assert_eq!(search_from_response(&body), missing(Field::Id));
        let body = format!("{{\"results\": [{{\"type\": \"{}\", \"id\": 1}}]}}", kind);
        assert_eq!(search_from_response(&body), missing(Field::Name));
    }
}

#[test]
fn response_that_is_no_json_is_a_decode_error() {
    assert_eq!(search_from_response(""), Err(Error::PayloadDecodeError));
    assert_eq!(search_from_response("<html></html>"), Err(Error::PayloadDecodeError));
    assert_eq!(search_from_response("{\"results\": ["), Err(Error::PayloadDecodeError));
}

#[test]
fn response_of_the_wrong_shape_is_a_decode_error() {
    assert_eq!(search_from_response("[]"), Err(Error::PayloadDecodeError));
    assert_eq!(search_from_response(r#"{"results": {}}"#), Err(Error::PayloadDecodeError));
    assert_eq!(
        search_from_response(r#"{"results": [{"type": "b", "id": "1", "name": "n"}]}"#),
        Err(Error::PayloadDecodeError)
    );
}

#[test]
fn kind_is_read_from_the_type_field() {
    assert_eq!(read_kind(&parse(r#"{"type": "b"}"#).unwrap()), Some(ItemKind::Artist));
    assert_eq!(read_kind(&parse(r#"{"type": "a"}"#).unwrap()), Some(ItemKind::Album));
    assert_eq!(read_kind(&parse(r#"{"type": "t"}"#).unwrap()), Some(ItemKind::Track));
    assert_eq!(read_kind(&parse(r#"{"type": "f"}"#).unwrap()), Some(ItemKind::Fan));
    assert_eq!(read_kind(&parse(r#"{"type": "bb"}"#).unwrap()), None);
    assert_eq!(read_kind(&parse(r#"{"type": ""}"#).unwrap()), None);
    assert_eq!(read_kind(&parse(r#"{}"#).unwrap()), None);
}
