use bandcamp::date::{month_length, month_number};
use bandcamp::{Date, Error};

#[test]
fn date_is_read_in_the_site_format() {
    assert_eq!(
        Date::parse("01 Jan 2020 00:00:00 GMT"),
        Ok(Date { year: 2020, month: 1, day: 1 })
    );
    assert_eq!(
        Date::parse("31 Dec 1999 23:59:59 GMT"),
        Ok(Date { year: 1999, month: 12, day: 31 })
    );
    assert_eq!(
        Date::parse("15 Aug 0476 12:30:00 GMT"),
        Ok(Date { year: 476, month: 8, day: 15 })
    );
}

#[test]
fn every_month_has_its_abbreviation() {
    let names =
        ["Jan", "Feb", "Mar", "Apr", "May", "Jun", "Jul", "Aug", "Sep", "Oct", "Nov", "Dec"];
    for (i, name) in names.iter().enumerate() {
        let text = format!("10 {} 2021 08:00:00 GMT", name);
        assert_eq!(Date::parse(&text), Ok(Date { year: 2021, month: i as u8 + 1, day: 10 }));
        let c: Vec<char> = name.chars().collect();
        assert_eq!(month_number(c[0], c[1], c[2]), Some(i as u8 + 1));
    }
    assert_eq!(month_number('j', 'a', 'n'), None);
    assert_eq!(month_number('J', 'A', 'N'), None);
}

#[test]
fn leap_day_exists_in_leap_years_only() {
    assert_eq!(
        Date::parse("29 Feb 2020 00:00:00 GMT"),
        Ok(Date { year: 2020, month: 2, day: 29 })
    );
    assert_eq!(
        Date::parse("29 Feb 2000 00:00:00 GMT"),
        Ok(Date { year: 2000, month: 2, day: 29 })
    );
    assert_eq!(Date::parse("29 Feb 2021 00:00:00 GMT"), Err(Error::DateFormatError));
    assert_eq!(Date::parse("29 Feb 1900 00:00:00 GMT"), Err(Error::DateFormatError));
    assert_eq!(month_length(2020, 2), 29);
    assert_eq!(month_length(1900, 2), 28);
    assert_eq!(month_length(2021, 4), 30);
    assert_eq!(month_length(2021, 12), 31);
    assert_eq!(month_length(2021, 0), 0);
    assert_eq!(month_length(2021, 13), 0);
}

#[test]
fn days_that_the_calendar_lacks_are_rejected() {
    assert_eq!(Date::parse("00 Jan 2020 00:00:00 GMT"), Err(Error::DateFormatError));
    assert_eq!(Date::parse("32 Jan 2020 00:00:00 GMT"), Err(Error::DateFormatError));
    assert_eq!(Date::parse("31 Apr 2020 00:00:00 GMT"), Err(Error::DateFormatError));
    assert_eq!(Date::parse("30 Feb 2020 00:00:00 GMT"), Err(Error::DateFormatError));
}

#[test]
fn times_that_the_day_lacks_are_rejected() {
    assert_eq!(Date::parse("01 Jan 2020 24:00:00 GMT"), Err(Error::DateFormatError));
    assert_eq!(Date::parse("01 Jan 2020 00:60:00 GMT"), Err(Error::DateFormatError));
    assert_eq!(Date::parse("01 Jan 2020 00:00:60 GMT"), Err(Error::DateFormatError));
}

#[test]
fn other_layouts_are_rejected() {
    assert_eq!(Date::parse(""), Err(Error::DateFormatError));
    assert_eq!(Date::parse("2020-01-01"), Err(Error::DateFormatError));
    assert_eq!(Date::parse("1 Jan 2020 00:00:00 GMT"), Err(Error::DateFormatError));
    assert_eq!(Date::parse("01 Jan 2020 00:00:00 UTC"), Err(Error::DateFormatError));
    assert_eq!(Date::parse("01 Jan 2020 00:00:00 GMT "), Err(Error::DateFormatError));
    assert_eq!(Date::parse("01-Jan-2020 00:00:00 GMT"), Err(Error::DateFormatError));
    assert_eq!(Date::parse("01 Foo 2020 00:00:00 GMT"), Err(Error::DateFormatError));
    assert_eq!(Date::parse("0a Jan 2020 00:00:00 GMT"), Err(Error::DateFormatError));
    assert_eq!(Date::parse("01 Jan 20x0 00:00:00 GMT"), Err(Error::DateFormatError));
    assert_eq!(Date::parse("01 Jan 2020 00.00.00 GMT"), Err(Error::DateFormatError));
}
