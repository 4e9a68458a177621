use bandcamp::json::parse;
use bandcamp::{AlbumImage, Error, Image};

fn image(a: Option<u64>, b: Option<u64>, c: Option<u64>, d: Option<u64>) -> Image {
    Image { image_id: a, img_id: b, art_id: c, bio_image_id: d }
}

fn cover(a: Option<u64>, b: Option<u64>, c: Option<u64>, d: Option<u64>) -> AlbumImage {
    AlbumImage { image_id: a, img_id: b, art_id: c, bio_image_id: d }
}

#[test]
fn second_alias_wins_when_first_is_absent() {
    let img = image(None, Some(7), Some(9), None);
    assert_eq!(img.get_image_id(), Some(7));
    let img = cover(None, Some(7), Some(9), None);
    assert_eq!(img.get_image_id(), Some(7));
}

#[test]
fn aliases_are_tried_in_their_order() {
    assert_eq!(image(Some(1), Some(2), Some(3), Some(4)).get_image_id(), Some(1));
    assert_eq!(image(None, Some(2), Some(3), Some(4)).get_image_id(), Some(2));
    assert_eq!(image(None, None, Some(3), Some(4)).get_image_id(), Some(3));
    assert_eq!(image(None, None, None, Some(4)).get_image_id(), Some(4));
    assert_eq!(cover(Some(1), Some(2), Some(3), Some(4)).get_image_id(), Some(1));
    assert_eq!(cover(None, None, None, Some(4)).get_image_id(), Some(4));
}

#[test]
fn no_alias_means_no_image_and_no_url() {
    let img = image(None, None, None, None);
    assert_eq!(img.get_image_id(), None);
    assert_eq!(img.get_url(), None);
    let img = cover(None, None, None, None);
    assert_eq!(img.get_image_id(), None);
    assert_eq!(img.get_url(), None);
}

#[test]
fn url_pads_the_identifier_to_ten_digits() {
    let img = image(None, Some(7), Some(9), None);
    assert_eq!(img.get_url(), Some("https://f4.bcbits.com/img/0000000007_0.jpg".to_string()));
    let img = image(Some(1234567890), None, None, None);
    assert_eq!(img.get_url(), Some("https://f4.bcbits.com/img/1234567890_0.jpg".to_string()));
    let img = image(Some(0), None, None, None);
    assert_eq!(img.get_url(), Some("https://f4.bcbits.com/img/0000000000_0.jpg".to_string()));
}

#[test]
fn url_keeps_identifiers_longer_than_ten_digits() {
    let img = image(Some(12345678901), None, None, None);
    assert_eq!(img.get_url(), Some("https://f4.bcbits.com/img/12345678901_0.jpg".to_string()));
    let img = image(Some(u64::MAX), None, None, None);
    assert_eq!(
        img.get_url(),
        Some("https://f4.bcbits.com/img/18446744073709551615_0.jpg".to_string())
    );
}

#[test]
fn album_cover_url_has_the_letter_a() {
    let img = cover(None, None, Some(42), None);
    assert_eq!(img.get_url(), Some("https://f4.bcbits.com/img/a0000000042_0.jpg".to_string()));
}

#[test]
fn image_is_read_from_the_alias_fields_of_a_record() {
    let record = parse("{\"img_id\": 7, \"art_id\": 9, \"other\": 1}").unwrap();
    let img = Image::from_record(&record).unwrap();
    assert_eq!(img, image(None, Some(7), Some(9), None));
    assert_eq!(img.get_image_id(), Some(7));
    let img = AlbumImage::from_record(&record).unwrap();
    assert_eq!(img, cover(None, Some(7), Some(9), None));
}

#[test]
fn null_alias_reads_as_absent() {
    let record = parse("{\"image_id\": null, \"bio_image_id\": 3}").unwrap();
    assert_eq!(Image::from_record(&record), Ok(image(None, None, None, Some(3))));
}

#[test]
fn alias_that_is_no_whole_number_is_a_decode_error() {
    let record = parse("{\"image_id\": \"7\"}").unwrap();
    assert_eq!(Image::from_record(&record), Err(Error::PayloadDecodeError));
    let record = parse("{\"art_id\": 7.5}").unwrap();
    assert_eq!(AlbumImage::from_record(&record), Err(Error::PayloadDecodeError));
    let record = parse("{\"art_id\": -7}").unwrap();
    assert_eq!(AlbumImage::from_record(&record), Err(Error::PayloadDecodeError));
}
