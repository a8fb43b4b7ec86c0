//! What the player has set and achieved: the difficulty, the options, and the
//! best time on each preset.

use vstd::prelude::*;
use vstd::string::StringExecFns;
use crate::difficulty::Difficulty;
use crate::lang::{asks_for_chinese, language_of};

verus! {

/// A best time: the seconds it took and the day it was made, as year-month-day.
#[derive(Debug, Clone)]
pub struct Record {
    pub secs: u64,
    pub date: String,
}

/// What is kept of the player between sessions.
pub struct Config {
    /// The difficulty in use.
    pub difficulty: Difficulty,
    /// The best time on each preset, where there is one.
    pub best_beginner: Option<Record>,
    pub best_intermediate: Option<Record>,
    pub best_expert: Option<Record>,
    /// The measures of the custom board.
    pub custom_w: usize,
    pub custom_h: usize,
    pub custom_n: usize,
    /// Whether a mark cycles through a question mark as well.
    pub use_question_marks: bool,
    /// Whether the cursor's cell is pointed out.
    pub show_indicator: bool,
    /// Whether the board is drawn with ASCII characters only.
    pub ascii_icons: bool,
    /// The language of the interface: `en` or `zh`.
    pub language: String,
}

/// A best time as a value: its seconds and the characters of its date.
pub type Best = Option<(u64, Seq<char>)>;

/// The value of a best time that may not be there.
pub open spec fn best_of(record: Option<Record>) -> Best {
    match record {
        Some(r) => Some((r.secs, r.date@)),
        None => None,
    }
}

/// The best time after a game of `secs` seconds that ended on `date`: the new one
/// where there was none or it is strictly faster, else the old one.
pub open spec fn improved(best: Best, secs: u64, date: Seq<char>) -> Best {
    match best {
        Some(old) => if secs < old.0 {
            Some((secs, date))
        } else {
            best
        },
        None => Some((secs, date)),
    }
}

/// A configuration as a value.
pub struct ConfigView {
    pub difficulty: Difficulty,
    pub best_beginner: Best,
    pub best_intermediate: Best,
    pub best_expert: Best,
    pub custom_w: usize,
    pub custom_h: usize,
    pub custom_n: usize,
    pub use_question_marks: bool,
    pub show_indicator: bool,
    pub ascii_icons: bool,
    pub language: Seq<char>,
}

impl ConfigView {
    /// The best time kept for a difficulty: none for a custom board.
    pub open spec fn best(self, d: Difficulty) -> Best {
        match d {
            Difficulty::Beginner => self.best_beginner,
            Difficulty::Intermediate => self.best_intermediate,
            Difficulty::Expert => self.best_expert,
            Difficulty::Custom(_, _, _) => None,
        }
    }

    /// The seconds of the best time kept for a difficulty.
    pub open spec fn best_secs(self, d: Difficulty) -> Option<u64> {
        match self.best(d) {
            Some(best) => Some(best.0),
            None => None,
        }
    }

    /// Whether a game of `secs` seconds on `d` is a new best time: on a preset, with
    /// no time kept yet or a strictly slower one.
    pub open spec fn beats(self, d: Difficulty, secs: u64) -> bool {
        d.is_preset() && match self.best_secs(d) {
            Some(old) => secs < old,
            None => true,
        }
    }

    /// The configuration after a game of `secs` seconds on `d` that ended on `date`:
    /// the best time of a preset is improved, a custom board keeps no time.
    pub open spec fn record(self, d: Difficulty, secs: u64, date: Seq<char>) -> ConfigView {
        match d {
            Difficulty::Beginner => ConfigView {
                best_beginner: improved(self.best_beginner, secs, date),
                ..self
            },
            Difficulty::Intermediate => ConfigView {
                best_intermediate: improved(self.best_intermediate, secs, date),
                ..self
            },
            Difficulty::Expert => ConfigView {
                best_expert: improved(self.best_expert, secs, date),
                ..self
            },
            Difficulty::Custom(_, _, _) => self,
        }
    }
}

/// The configuration of a first run with the interface in the language that
/// `locale` asks for: beginner, no best time, a custom board of 36 by 20 with 150
/// mines, and every option off.
pub open spec fn initial_config(locale: Seq<char>) -> ConfigView {
    ConfigView {
        difficulty: Difficulty::Beginner,
        best_beginner: None,
        best_intermediate: None,
        best_expert: None,
        custom_w: 36,
        custom_h: 20,
        custom_n: 150,
        use_question_marks: false,
        show_indicator: false,
        ascii_icons: false,
        language: language_of(locale),
    }
}

impl View for Config {
    type V = ConfigView;

    open spec fn view(&self) -> ConfigView {
        ConfigView {
            difficulty: self.difficulty,
            best_beginner: best_of(self.best_beginner),
            best_intermediate: best_of(self.best_intermediate),
            best_expert: best_of(self.best_expert),
            custom_w: self.custom_w,
            custom_h: self.custom_h,
            custom_n: self.custom_n,
            use_question_marks: self.use_question_marks,
            show_indicator: self.show_indicator,
            ascii_icons: self.ascii_icons,
            language: self.language@,
        }
    }
}

/// Asks `sys_locale::get_locale` for the locale that the system prefers. Trusted
/// as far as it goes: the answer depends on the machine, so nothing is promised of it.
#[verifier::external_body]
fn system_locale() -> (locale: Option<String>) {
    sys_locale::get_locale()
}

/// Asks `chrono::Local::now` for the present moment and has it written as
/// year-month-day with `format("%Y-%m-%d")`. Trusted as far as it goes: the day
/// depends on the clock and the time zone, so nothing is promised of the string.
/// The call does not return where the clock of the system stands before 1970.
#[verifier::external_body]
fn today() -> (date: String) {
    chrono::Local::now().format("%Y-%m-%d").to_string()
}

/// The seconds of a best time.
fn secs_of(record: &Option<Record>) -> (secs: Option<u64>)
    ensures
        secs == match best_of(*record) {
            Some(best) => Some(best.0),
            None => None,
        },
{
    match record {
        Some(r) => Some(r.secs),
        None => None,
    }
}

/// The seconds and the date of a best time.
fn detail_of(record: &Option<Record>) -> (detail: Option<(u64, String)>)
    ensures
        match detail {
            Some(d) => best_of(*record) == Some((d.0, d.1@)),
            None => best_of(*record).is_none(),
        },
{
    match record {
        Some(r) => Some((r.secs, r.date.clone())),
        None => None,
    }
}

/// Puts a game of `secs` seconds that ended on `date` in the place of a best time
/// that it beats.
fn improve(record: &mut Option<Record>, secs: u64, date: String)
    ensures
        best_of(*final(record)) == improved(best_of(*old(record)), secs, date@),
{
    let better = match record {
        Some(r) => secs < r.secs,
        None => true,
    };
    if better {
        *record = Some(Record { secs, date });
    }
}

impl Config {
    /// The configuration of a first run, in the language that `locale` asks for.
    pub fn for_locale(locale: &str) -> (config: Config)
        ensures
            config@ == initial_config(locale@),
    {
        let language = if asks_for_chinese(locale) {
            String::from_str("zh")
        } else {
            String::from_str("en")
        };
        Config {
            difficulty: Difficulty::Beginner,
            best_beginner: None,
            best_intermediate: None,
            best_expert: None,
            custom_w: 36,
            custom_h: 20,
            custom_n: 150,
            use_question_marks: false,
            show_indicator: false,
            ascii_icons: false,
            language,
        }
    }

    /// The best time on a difficulty, in seconds: none for a custom board.
    pub fn get_record(&self, d: &Difficulty) -> (secs: Option<u64>)
        ensures
            secs == self@.best_secs(*d),
    {
        match d {
            Difficulty::Beginner => secs_of(&self.best_beginner),
            Difficulty::Intermediate => secs_of(&self.best_intermediate),
            Difficulty::Expert => secs_of(&self.best_expert),
            Difficulty::Custom(_, _, _) => None,
        }
    }

    /// The best time on a difficulty with the day it was made: none for a custom board.
    pub fn get_record_detail(&self, d: &Difficulty) -> (detail: Option<(u64, String)>)
        ensures
            match detail {
                Some(found) => self@.best(*d) == Some((found.0, found.1@)),
                None => self@.best(*d).is_none(),
            },
    {
        match d {
            Difficulty::Beginner => detail_of(&self.best_beginner),
            Difficulty::Intermediate => detail_of(&self.best_intermediate),
            Difficulty::Expert => detail_of(&self.best_expert),
            Difficulty::Custom(_, _, _) => None,
        }
    }

    /// Keeps a game of `secs` seconds on `d` that ended on `date` as the best time
    /// if it is strictly faster than the one kept, or if none is kept. Nothing is
    /// kept for a custom board.
    pub fn set_record_dated(&mut self, d: &Difficulty, secs: u64, date: String)
        ensures
            final(self)@ == old(self)@.record(*d, secs, date@),
    {
        match d {
            Difficulty::Beginner => improve(&mut self.best_beginner, secs, date),
            Difficulty::Intermediate => improve(&mut self.best_intermediate, secs, date),
            Difficulty::Expert => improve(&mut self.best_expert, secs, date),
            Difficulty::Custom(_, _, _) => {},
        }
    }

    /// Keeps a game of `secs` seconds on `d` as the best time, dated today, if it
    /// is strictly faster than the one kept, or if none is kept. Nothing is kept
    /// for a custom board.
    pub fn set_record(&mut self, d: &Difficulty, secs: u64)
        ensures
            exists|date: Seq<char>| final(self)@ == #[trigger] old(self)@.record(*d, secs, date),
    {
        let date = today();
        self.set_record_dated(d, secs, date);
    }
}

impl Default for Config {
    /// The configuration of a first run, in the language of the system: Chinese
    /// where the system's locale asks for it, else English.
    fn default() -> (config: Config)
        ensures
            exists|locale: Seq<char>| config@ == #[trigger] initial_config(locale),
    {
        match system_locale() {
            Some(locale) => Config::for_locale(locale.as_str()),
            None => Config::for_locale("en"),
        }
    }
}

/// After a game is kept, the best time on a preset is the faster of the old one and
/// the new one; a slower or equal game leaves the configuration as it was.
pub proof fn lemma_record_keeps_the_faster(c: ConfigView, d: Difficulty, secs: u64, date: Seq<char>)
    ensures
        d.is_preset() ==> c.record(d, secs, date).best_secs(d) == Some(
            match c.best_secs(d) {
                Some(old) => if secs < old {
                    secs
                } else {
                    old
                },
                None => secs,
            },
        ),
        !c.beats(d, secs) ==> c.record(d, secs, date) == c,
        !d.is_preset() ==> c.record(d, secs, date).best_secs(d).is_none(),
{
}

} // verus!
