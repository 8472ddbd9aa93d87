use lessons::catalog::{Catalog, MightHaveAValue};
use lessons::media::{decimal_string, Media};

#[test]
fn description_of_every_variant() {
    let audio = Media::AudioBook { title: String::from("Who will cry when you will die?") };
    assert_eq!(audio.description(), "AudioBook: Who will cry when you will die?");

    let book = Media::Book {
        author: String::from("An author"),
        title: String::from("A book"),
    };
    assert_eq!(book.description(), "Book: A book - An author");

    let movie = Media::Movie {
        director: String::from("A director"),
        title: String::from("Interstellar"),
    };
    assert_eq!(movie.description(), "Movie: Interstellar - A director");

    let podcast = Media::Podcast(101, String::from("A Brief History of Nearly Everything"));
    assert_eq!(
        podcast.description(),
        "Podcast: (101.) A Brief History of Nearly Everything"
    );

    let placeholder = Media::Placeholder;
    assert_eq!(placeholder.description(), "Placeholder!");
}

#[test]
fn description_is_never_empty() {
    let records = vec![
        Media::AudioBook { title: String::new() },
        Media::Book { author: String::new(), title: String::new() },
        Media::Movie { director: String::new(), title: String::new() },
        Media::Podcast(0, String::new()),
        Media::Placeholder,
    ];
    for record in &records {
        assert!(!record.description().is_empty());
    }
}

#[test]
fn equal_records_have_equal_descriptions() {
    let first = Media::Podcast(7, String::from("Seven"));
    let second = Media::Podcast(7, String::from("Seven"));
    assert_eq!(first.description(), second.description());
}

#[test]
fn decimal_string_exact_values() {
    assert_eq!(decimal_string(0), "0");
    assert_eq!(decimal_string(7), "7");
    assert_eq!(decimal_string(10), "10");
    assert_eq!(decimal_string(101), "101");
    assert_eq!(decimal_string(4294967295), "4294967295");
}

#[test]
fn round_trip_every_variant() {
    let records = vec![
        Media::AudioBook { title: String::from("A title") },
        Media::Book {
            author: String::from("An author"),
            title: String::from("A book"),
        },
        Media::Movie {
            director: String::from("A director"),
            title: String::from("A movie"),
        },
        Media::Podcast(42, String::from("An episode")),
        Media::Placeholder,
    ];
    let mut expected: Vec<String> = Vec::new();
    let mut catalog = Catalog::new();
    for record in records {
        expected.push(record.description());
        catalog.add(record);
    }
    for (position, description) in expected.iter().enumerate() {
        match catalog.get_by_index(position) {
            MightHaveAValue::ThereIsAValue(record) => {
                assert_eq!(&record.description(), description);
            }
            MightHaveAValue::NoValueAvailable => panic!("record missing at {}", position),
        }
    }
}

#[test]
fn audio_item_then_absent() {
    let mut catalog = Catalog::new();
    catalog.add(Media::AudioBook { title: String::from("X") });
    match catalog.get_by_index(0) {
        MightHaveAValue::ThereIsAValue(record) => {
            assert_eq!(record.description(), "AudioBook: X");
        }
        MightHaveAValue::NoValueAvailable => panic!("record missing at 0"),
    }
    assert!(matches!(catalog.get_by_index(1), MightHaveAValue::NoValueAvailable));
}

#[test]
fn lookup_in_and_out_of_range() {
    let mut catalog = Catalog::new();
    assert!(matches!(catalog.get_by_index(0), MightHaveAValue::NoValueAvailable));
    assert!(catalog.get_by_index_new(0).is_none());
    catalog.add(Media::Placeholder);
    catalog.add(Media::Podcast(1, String::from("One")));
    assert!(matches!(catalog.get_by_index(1), MightHaveAValue::ThereIsAValue(_)));
    assert!(matches!(catalog.get_by_index(2), MightHaveAValue::NoValueAvailable));
    let second = catalog.get_by_index_new(1).expect("record missing at 1");
    assert_eq!(second.description(), "Podcast: (1.) One");
    assert!(catalog.get_by_index_new(9999).is_none());
}
