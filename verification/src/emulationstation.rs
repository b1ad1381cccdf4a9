//! The description record of one game: one value per field, resolved from
//! the raw record, with a default wherever the raw record says nothing.

use std::fmt::Write;
use vstd::prelude::*;
use vstd::string::*;
use crate::jeuinfos::{unknown, JeuInfos};
use crate::text::{chars_of, join, opt_text, replace_all, replaced, same_text};

verus! {

/// A game's rating, as far as the record tells it. The fraction it stands
/// for is computed where floating point is at hand.
#[derive(Debug)]
pub enum Rating {
    /// No record of the game: the neutral rating, sixteen twentieths.
    Neutral,
    /// The record holds no note: zero.
    Unrated,
    /// The provider's note, a number out of twenty, as it wrote it. A note
    /// that is no number counts as zero.
    Note(String),
}

/// What a [`Rating`] holds.
pub enum RatingView {
    Neutral,
    Unrated,
    Note(Seq<char>),
}

impl View for Rating {
    type V = RatingView;

    open spec fn view(&self) -> RatingView {
        match self {
            Rating::Neutral => RatingView::Neutral,
            Rating::Unrated => RatingView::Unrated,
            Rating::Note(t) => RatingView::Note(t@),
        }
    }
}

/// The description record of one game.
#[derive(Debug)]
pub struct Game {
    pub path: String,
    pub name: String,
    pub desc: String,
    pub rating: Rating,
    pub releasedate: String,
    pub developer: String,
    pub publisher: String,
    pub genre: String,
    pub players: String,
    pub region: String,
    pub image: Option<String>,
    pub thumbnail: Option<String>,
    pub video: Option<String>,
    pub marquee: Option<String>,
    pub screenshot: Option<String>,
    pub wheel: Option<String>,
    pub manual: Option<String>,
}

/// What a [`Game`] holds.
pub struct GameView {
    pub path: Seq<char>,
    pub name: Seq<char>,
    pub desc: Seq<char>,
    pub rating: RatingView,
    pub releasedate: Seq<char>,
    pub developer: Seq<char>,
    pub publisher: Seq<char>,
    pub genre: Seq<char>,
    pub players: Seq<char>,
    pub region: Seq<char>,
    pub image: Option<Seq<char>>,
    pub thumbnail: Option<Seq<char>>,
    pub video: Option<Seq<char>>,
    pub marquee: Option<Seq<char>>,
    pub screenshot: Option<Seq<char>>,
    pub wheel: Option<Seq<char>>,
    pub manual: Option<Seq<char>>,
}

impl View for Game {
    type V = GameView;

    open spec fn view(&self) -> GameView {
        GameView {
            path: self.path@,
            name: self.name@,
            desc: self.desc@,
            rating: self.rating@,
            releasedate: self.releasedate@,
            developer: self.developer@,
            publisher: self.publisher@,
            genre: self.genre@,
            players: self.players@,
            region: self.region@,
            image: opt_text(self.image),
            thumbnail: opt_text(self.thumbnail),
            video: opt_text(self.video),
            marquee: opt_text(self.marquee),
            screenshot: opt_text(self.screenshot),
            wheel: opt_text(self.wheel),
            manual: opt_text(self.manual),
        }
    }
}

/// The pattern in which a completed date is read.
pub const DATE_READ: &'static str = "%Y-%m-%d %H:%M:%S %z";

/// The pattern of the compact, sortable timestamp.
pub const DATE_WRITTEN: &'static str = "%Y%m%dT%H%M%S";

/// The compact timestamp of the first second of 1970.
pub const EPOCH: &'static str = "19700101T000000";

/// The date with which the provider says that it knows none.
pub const NO_DATE: &'static str = "0000-00-00";

/// What completes a year to the first second of that year.
pub const YEAR_START: &'static str = "-01-01 00:00:00 +00:00";

/// What completes a day to its first second.
pub const DAY_START: &'static str = " 00:00:00 +00:00";

/// How the end of the root element's tags reads as the record is serialized.
pub const ROOT_WRITTEN: &'static str = "Game>";

/// How the end of the root element's tags reads in the description file.
pub const ROOT_WANTED: &'static str = "game>";

/// The description file for a serialized record: the same document, its
/// root element in small letters.
pub open spec fn document(serialized: Seq<char>) -> Seq<char> {
    replaced(serialized, ROOT_WRITTEN@, ROOT_WANTED@)
}

/// The description file for a serialized record.
pub fn description_document(serialized: &str) -> (r: String)
    ensures
        r@ == document(serialized@),
{
    replace_all(serialized, ROOT_WRITTEN, ROOT_WANTED)
}

/// The region and language priority of the description record.
pub open spec fn description_prefs() -> Seq<Seq<char>> {
    seq!["fr"@, "eu"@, "en"@, "us"@, "wor"@, "jp"@, "ss"@]
}

/// What chrono makes of `text`: read by `DateTime::parse_from_str` under
/// the pattern `read_as`, then written by `DateTime::format` under the
/// pattern `write_as`; `None` where the text does not read as a date and
/// time with an offset, or the second pattern cannot be written.
pub uninterp spec fn reformatted(text: Seq<char>, read_as: Seq<char>, write_as: Seq<char>) -> Option<
    Seq<char>,
>;

/// Reads `text` with chrono's `DateTime::parse_from_str` under `read_as`
/// and writes the date and time it found, in the offset it found, with
/// `DateTime::format` under `write_as`. The result is named [`reformatted`]:
/// it depends on the three texts alone.
#[verifier::external_body]
fn reformat(text: &str, read_as: &str, write_as: &str) -> (r: Option<String>)
    ensures
        opt_text(r) == reformatted(text@, read_as@, write_as@),
{
    let read = chrono::DateTime::parse_from_str(text, read_as).ok()?;
    let mut out = String::new();
    write!(out, "{}", read.format(write_as)).ok()?;
    Some(out)
}

/// The date and time, in full, that a date of the provider stands for: the
/// first second of the year for four characters, the first second of the
/// day for ten characters other than [`NO_DATE`], and none for anything
/// else.
pub open spec fn completed(date: Seq<char>) -> Option<Seq<char>> {
    if date.len() == 4 {
        Some(date + YEAR_START@)
    } else if date.len() == 10 && date != NO_DATE@ {
        Some(date + DAY_START@)
    } else {
        None
    }
}

/// The timestamp for what the reader made of a date: its result, or
/// [`EPOCH`] where it made nothing of it.
pub open spec fn stamped(read: Option<Seq<char>>) -> Seq<char> {
    match read {
        Some(t) => t,
        None => EPOCH@,
    }
}

/// The compact timestamp of a date of the provider: the completed date as
/// chrono reads and writes it, and [`EPOCH`] for a date that stands for
/// none or that chrono does not read.
pub open spec fn timestamp_of(date: Seq<char>) -> Seq<char> {
    match completed(date) {
        Some(full) => stamped(reformatted(full, DATE_READ@, DATE_WRITTEN@)),
        None => EPOCH@,
    }
}

/// Completes a date of the provider to a date and time, where it stands
/// for one.
pub fn complete_date(date: &str) -> (r: Option<String>)
    ensures
        opt_text(r) == completed(date@),
{
    let n: usize = chars_of(date).len();
    if n == 4 {
        Some(join(date, YEAR_START))
    } else if n == 10 && !same_text(date, NO_DATE) {
        Some(join(date, DAY_START))
    } else {
        None
    }
}

/// The timestamp for what the reader made of a date.
pub fn stamp(read: Option<String>) -> (r: String)
    ensures
        r@ == stamped(opt_text(read)),
{
    match read {
        Some(t) => t,
        None => EPOCH.to_string(),
    }
}

/// The compact timestamp of a date of the provider. It never fails: what
/// cannot be read becomes [`EPOCH`].
pub fn release_timestamp(date: &str) -> (r: String)
    ensures
        r@ == timestamp_of(date@),
{
    match complete_date(date) {
        Some(full) => stamp(reformat(full.as_str(), DATE_READ, DATE_WRITTEN)),
        None => EPOCH.to_string(),
    }
}

/// The description record [`Game::french`] resolves.
pub open spec fn described(jeu: Option<JeuInfos>, path: Seq<char>) -> GameView {
    let prefs = description_prefs();
    GameView {
        path: "./"@ + path,
        name: match jeu {
            Some(x) => x.name_for(prefs),
            None => unknown(),
        },
        desc: match jeu {
            Some(x) => x.desc_for(prefs),
            None => unknown(),
        },
        rating: match jeu {
            Some(x) => match x.note {
                Some(y) => RatingView::Note(y.text@),
                None => RatingView::Unrated,
            },
            None => RatingView::Neutral,
        },
        releasedate: match jeu {
            Some(x) => timestamp_of(x.date_for(prefs)),
            None => EPOCH@,
        },
        developer: match jeu {
            Some(x) => match x.developpeur {
                Some(y) => y.text@,
                None => unknown(),
            },
            None => unknown(),
        },
        publisher: match jeu {
            Some(x) => match x.editeur {
                Some(y) => y.text@,
                None => unknown(),
            },
            None => unknown(),
        },
        genre: match jeu {
            Some(x) => x.genre_for(prefs),
            None => unknown(),
        },
        players: match jeu {
            Some(x) => match x.joueurs {
                Some(y) => y.text@,
                None => unknown(),
            },
            None => unknown(),
        },
        region: match jeu {
            Some(x) => match x.rom {
                Some(y) => match y.romregions {
                    Some(z) => z@,
                    None => Seq::<char>::empty(),
                },
                None => Seq::<char>::empty(),
            },
            None => Seq::<char>::empty(),
        },
        image: None,
        thumbnail: None,
        video: None,
        marquee: None,
        screenshot: None,
        wheel: None,
        manual: None,
    }
}

/// The region and language priority of the description record.
pub fn description_pref_list() -> (r: Vec<&'static str>)
    ensures
        crate::text::strs(r@) == description_prefs(),
{
    let r = vec!["fr", "eu", "en", "us", "wor", "jp", "ss"];
    assert(crate::text::strs(r@) =~= description_prefs());
    r
}

impl Game {
    /// Resolves the description record of a game from its raw record, by
    /// the priority [`description_prefs`], for the file `path`. Every field
    /// gets a value: a game without a record is described by the defaults,
    /// and no media is referred to yet.
    pub fn french(jeu: &Option<JeuInfos>, path: &String) -> (r: Game)
        ensures
            r@ == described(*jeu, path@),
    {
        let v = description_pref_list();
        match jeu {
            Some(x) => {
                let date = x.find_date(&v);
                Game {
                    path: join("./", path.as_str()),
                    name: x.find_name(&v),
                    desc: x.find_desc(&v),
                    rating: match &x.note {
                        Some(y) => Rating::Note(y.text.clone()),
                        None => Rating::Unrated,
                    },
                    releasedate: release_timestamp(date.as_str()),
                    developer: match &x.developpeur {
                        Some(y) => y.text.clone(),
                        None => "Unknown".to_string(),
                    },
                    publisher: match &x.editeur {
                        Some(y) => y.text.clone(),
                        None => "Unknown".to_string(),
                    },
                    genre: x.find_genre(&v),
                    players: match &x.joueurs {
                        Some(y) => y.text.clone(),
                        None => "Unknown".to_string(),
                    },
                    region: match &x.rom {
                        Some(y) => match &y.romregions {
                            Some(z) => z.clone(),
                            None => String::new(),
                        },
                        None => String::new(),
                    },
                    image: None,
                    thumbnail: None,
                    video: None,
                    marquee: None,
                    screenshot: None,
                    wheel: None,
                    manual: None,
                }
            },
            None => Game {
                path: join("./", path.as_str()),
                name: "Unknown".to_string(),
                desc: "Unknown".to_string(),
                rating: Rating::Neutral,
                releasedate: EPOCH.to_string(),
                developer: "Unknown".to_string(),
                publisher: "Unknown".to_string(),
                genre: "Unknown".to_string(),
                players: "Unknown".to_string(),
                region: String::new(),
                image: None,
                thumbnail: None,
                video: None,
                marquee: None,
                screenshot: None,
                wheel: None,
                manual: None,
            },
        }
    }
}

} // verus!
