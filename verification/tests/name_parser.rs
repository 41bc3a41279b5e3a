use libmm::media::{NameParser, ParsedName};

#[test]
pub fn it_parses_names() {
    let names = [
        "Movie.Name.1929.DVDRip.600MB.Some[Thing]",
        "Another Movie 5 (2015) Bluray 1080p.h264-Some[Thing]",
        "Awesome.Movie.720p",
    ];

    let expected = [
        ParsedName {
            title: "Movie Name".into(),
            year: Some(1929),
        },
        ParsedName {
            title: "Another Movie 5".into(),
            year: Some(2015),
        },
        ParsedName {
            title: "Awesome Movie".into(),
            year: None,
        },
    ];

    for (name, expected) in names.iter().zip(expected) {
        assert_eq!(NameParser::parse(name), expected);
    }
}

#[test]
fn plain_title_is_kept_whole() {
    let parsed = NameParser::parse("Some Quiet Film");
    assert_eq!(parsed.title, "Some Quiet Film");
    assert_eq!(parsed.year, None);
}

#[test]
fn empty_name_parses_to_nothing() {
    let parsed = NameParser::parse("");
    assert_eq!(parsed.title, "");
    assert_eq!(parsed.year, None);
}

#[test]
fn year_alone_leaves_empty_title() {
    let parsed = NameParser::parse("1984");
    assert_eq!(parsed.title, "");
    assert_eq!(parsed.year, Some(1984));
}

#[test]
fn small_numbers_are_not_years() {
    let parsed = NameParser::parse("Movie 1850");
    assert_eq!(parsed.title, "Movie 1850");
    assert_eq!(parsed.year, None);
}
