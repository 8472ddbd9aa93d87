//! Media records: a closed set of variants, each with a human-readable
//! description built from its fields.

use vstd::prelude::*;
use vstd::string::StringExecFns;

verus! {

/// One media record. Exactly one variant is active at a time and fields are
/// immutable once constructed.
#[derive(Debug)]
pub enum Media {
    AudioBook { title: String },
    Book { author: String, title: String },
    Movie { director: String, title: String },
    Podcast(u32, String),
    Placeholder,
}

/// The character for a single decimal digit.
pub open spec fn digit_char(d: nat) -> char {
    if d == 0 {
        '0'
    } else if d == 1 {
        '1'
    } else if d == 2 {
        '2'
    } else if d == 3 {
        '3'
    } else if d == 4 {
        '4'
    } else if d == 5 {
        '5'
    } else if d == 6 {
        '6'
    } else if d == 7 {
        '7'
    } else if d == 8 {
        '8'
    } else {
        '9'
    }
}

/// The decimal representation of `n`, most significant digit first,
/// with no leading zeros (a single `'0'` for zero).
pub open spec fn decimal_digits(n: nat) -> Seq<char>
    decreases n,
{
    if n < 10 {
        seq![digit_char(n)]
    } else {
        decimal_digits(n / 10).push(digit_char(n % 10))
    }
}

/// What `Media::description` returns for each variant.
pub open spec fn description_spec(media: Media) -> Seq<char> {
    match media {
        Media::AudioBook { title } => "AudioBook: "@ + title@,
        Media::Book { author, title } => "Book: "@ + title@ + " - "@ + author@,
        Media::Movie { director, title } => "Movie: "@ + title@ + " - "@ + director@,
        Media::Podcast(episode_number, episode_name) => "Podcast: ("@ + decimal_digits(
            episode_number as nat,
        ) + ".) "@ + episode_name@,
        Media::Placeholder => "Placeholder!"@,
    }
}

/// A one-character string slice for the decimal digit `d`.
fn digit_str(d: u32) -> (s: &'static str)
    requires
        d < 10,
    ensures
        s@ == seq![digit_char(d as nat)],
{
    let s: &'static str = match d {
        0 => "0",
        1 => "1",
        2 => "2",
        3 => "3",
        4 => "4",
        5 => "5",
        6 => "6",
        7 => "7",
        8 => "8",
        _ => "9",
    };
    proof {
        reveal_strlit("0");
        reveal_strlit("1");
        reveal_strlit("2");
        reveal_strlit("3");
        reveal_strlit("4");
        reveal_strlit("5");
        reveal_strlit("6");
        reveal_strlit("7");
        reveal_strlit("8");
        reveal_strlit("9");
        assert(s@ =~= seq![digit_char(d as nat)]);
    }
    s
}

/// The decimal representation of `n` as a string.
pub fn decimal_string(n: u32) -> (s: String)
    ensures
        s@ == decimal_digits(n as nat),
    decreases n,
{
    if n < 10 {
        digit_str(n).to_owned()
    } else {
        let mut s = decimal_string(n / 10);
        s.append(digit_str(n % 10));
        s
    }
}

impl Media {
    /// The fixed human-readable description of this record; total over the
    /// closed variant set, including the placeholder.
    pub fn description(&self) -> (text: String)
        ensures
            text@ == description_spec(*self),
    {
        match self {
            Media::AudioBook { title } => {
                let mut text = "AudioBook: ".to_owned();
                text.append(title.as_str());
                text
            },
            Media::Book { author, title } => {
                let mut text = "Book: ".to_owned();
                text.append(title.as_str());
                text.append(" - ");
                text.append(author.as_str());
                text
            },
            Media::Movie { director, title } => {
                let mut text = "Movie: ".to_owned();
                text.append(title.as_str());
                text.append(" - ");
                text.append(director.as_str());
                text
            },
            Media::Podcast(episode_number, episode_name) => {
                let mut text = "Podcast: (".to_owned();
                let number = decimal_string(*episode_number);
                text.append(number.as_str());
                text.append(".) ");
                text.append(episode_name.as_str());
                text
            },
            Media::Placeholder => "Placeholder!".to_owned(),
        }
    }
}

/// Every constructible variant, including the placeholder, yields a
/// non-empty description.
pub proof fn lemma_description_nonempty(media: Media)
    ensures
        description_spec(media).len() > 0,
{
    match media {
        Media::AudioBook { title } => {
            reveal_strlit("AudioBook: ");
        },
        Media::Book { author, title } => {
            reveal_strlit("Book: ");
        },
        Media::Movie { director, title } => {
            reveal_strlit("Movie: ");
        },
        Media::Podcast(episode_number, episode_name) => {
            reveal_strlit("Podcast: (");
        },
        Media::Placeholder => {
            reveal_strlit("Placeholder!");
        },
    }
}

/// Two records with identical variant and fields yield identical
/// descriptions: the description is a function of the record alone.
pub proof fn lemma_description_deterministic(first: Media, second: Media)
    requires
        first == second,
    ensures
        description_spec(first) == description_spec(second),
{
}

} // verus!
