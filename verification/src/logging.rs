//! The log settings: a level for everything, and levels for single targets.
//!
//! They are written as a list with commas: first the general level, then
//! pairs of a target and its level, as in `off,sanitarr=debug,reqwest=info`.

use std::str::FromStr;
use vstd::prelude::*;
use crate::text::{split, split_text};

verus! {

/// How much is logged, from nothing to everything.
#[derive(Clone, Copy, Debug, PartialEq, Eq, Structural)]
pub enum LevelFilter {
    Off,
    Error,
    Warn,
    Info,
    Debug,
    Trace,
}

/// An ASCII capital as its small letter; any other character as it is.
pub open spec fn ascii_lower(c: char) -> char {
    if 'A' <= c && c <= 'Z' {
        ((c as u32) + 32) as char
    } else {
        c
    }
}

/// Whether two strings are the same but for the case of their ASCII letters.
pub open spec fn same_ignoring_case(a: Seq<char>, b: Seq<char>) -> bool {
    &&& a.len() == b.len()
    &&& forall|i: int| 0 <= i < a.len() ==> ascii_lower(#[trigger] a[i]) == ascii_lower(b[i])
}

/// The level that a name stands for, whatever the case of its letters.
pub open spec fn level_named(name: Seq<char>) -> Option<LevelFilter> {
    if same_ignoring_case(name, "OFF"@) {
        Some(LevelFilter::Off)
    } else if same_ignoring_case(name, "ERROR"@) {
        Some(LevelFilter::Error)
    } else if same_ignoring_case(name, "WARN"@) {
        Some(LevelFilter::Warn)
    } else if same_ignoring_case(name, "INFO"@) {
        Some(LevelFilter::Info)
    } else if same_ignoring_case(name, "DEBUG"@) {
        Some(LevelFilter::Debug)
    } else if same_ignoring_case(name, "TRACE"@) {
        Some(LevelFilter::Trace)
    } else {
        None
    }
}

/// The level that a name stands for; the default where it stands for none.
pub open spec fn level_or_default(name: Seq<char>) -> LevelFilter {
    match level_named(name) {
        Some(level) => level,
        None => LevelFilter::Info,
    }
}

/// The targets with their levels among the parts after the first: a part
/// without `=` is passed over, and of a part with several only the first
/// two pieces count.
pub open spec fn target_levels(parts: Seq<Seq<char>>) -> Seq<(Seq<char>, LevelFilter)>
    decreases parts.len(),
{
    if parts.len() == 0 {
        Seq::empty()
    } else {
        let earlier = target_levels(parts.drop_last());
        let pieces = split_text(parts.last(), '=');
        if pieces.len() >= 2 {
            earlier.push((pieces[0], level_or_default(pieces[1])))
        } else {
            earlier
        }
    }
}

/// Whether `settings` is what a text reads as: the first part of the list
/// gives the general level, the parts after it the targets with their
/// levels.
pub open spec fn reads_as(text: Seq<char>, settings: LoggingSettings) -> bool {
    &&& settings.root_level == level_or_default(split_text(text, ',')[0])
    &&& settings.other_levels@.map_values(|pair: (String, LevelFilter)| (pair.0@, pair.1))
        == target_levels(split_text(text, ',').skip(1))
}

/// Calls `LevelFilter::from_str` of the `log` crate, which compares the
/// name with `OFF`, `ERROR`, `WARN`, `INFO`, `DEBUG` and `TRACE` without
/// regard to the case of ASCII letters and fails for any other name.
#[verifier::external_body]
fn parse_level(name: &str) -> (level: Option<LevelFilter>)
    ensures
        level == level_named(name@),
{
    match log::LevelFilter::from_str(name) {
        Ok(log::LevelFilter::Off) => Some(LevelFilter::Off),
        Ok(log::LevelFilter::Error) => Some(LevelFilter::Error),
        Ok(log::LevelFilter::Warn) => Some(LevelFilter::Warn),
        Ok(log::LevelFilter::Info) => Some(LevelFilter::Info),
        Ok(log::LevelFilter::Debug) => Some(LevelFilter::Debug),
        Ok(log::LevelFilter::Trace) => Some(LevelFilter::Trace),
        Err(_) => None,
    }
}

/// The level for everything, and the levels of the targets that have one
/// of their own.
#[derive(Debug, Clone, PartialEq, Eq)]
pub struct LoggingSettings {
    pub root_level: LevelFilter,
    pub other_levels: Vec<(String, LevelFilter)>,
}

impl Default for LoggingSettings {
    fn default() -> (settings: Self)
        ensures
            settings.root_level == LevelFilter::Info,
            settings.other_levels@.len() == 0,
    {
        LoggingSettings { root_level: LevelFilter::Info, other_levels: Vec::new() }
    }
}

impl LoggingSettings {
    /// The level that a name stands for; the default where it stands for
    /// none.
    pub fn level(name: &str) -> (level: LevelFilter)
        ensures
            level == level_or_default(name@),
    {
        match parse_level(name) {
            Some(level) => level,
            None => LevelFilter::Info,
        }
    }

    /// Reads the settings from their text. Every text is read: what cannot
    /// be understood as a level counts as the default level.
    pub fn parse(s: &str) -> (settings: LoggingSettings)
        ensures
            reads_as(s@, settings),
    {
        let parts: Vec<String> = split(s, ',');
        let ghost texts = parts@.map_values(|p: String| p@);
        assert(texts[0] == parts@[0]@);
        let root_level: LevelFilter = LoggingSettings::level(parts[0].as_str());
        let mut other_levels: Vec<(String, LevelFilter)> = Vec::new();
        let mut i: usize = 1;
        assert(texts.skip(1).take(0) =~= Seq::<Seq<char>>::empty());
        while i < parts.len()
            invariant
                1 <= i <= parts.len(),
                texts == parts@.map_values(|p: String| p@),
                other_levels@.map_values(|pair: (String, LevelFilter)| (pair.0@, pair.1))
                    == target_levels(texts.skip(1).take(i - 1)),
            decreases parts.len() - i,
        {
            let ghost before = other_levels@.map_values(
                |pair: (String, LevelFilter)| (pair.0@, pair.1),
            );
            assert(texts.skip(1).take(i as int).drop_last() =~= texts.skip(1).take(i - 1));
            assert(texts.skip(1).take(i as int).last() == parts@[i as int]@);
            let mut pieces: Vec<String> = split(parts[i].as_str(), '=');
            if pieces.len() >= 2 {
                let ghost views = pieces@.map_values(|p: String| p@);
                assert(views[1] == pieces@[1]@);
                assert(views[0] == pieces@[0]@);
                let level: LevelFilter = LoggingSettings::level(pieces[1].as_str());
                let target: String = pieces.swap_remove(0);
                other_levels.push((target, level));
                assert(other_levels@.map_values(|pair: (String, LevelFilter)| (pair.0@, pair.1))
                    =~= before.push((views[0], level)));
            }
            i += 1;
        }
        assert(texts.skip(1).take(i - 1) =~= texts.skip(1));
        LoggingSettings { root_level, other_levels }
    }
}

impl FromStr for LoggingSettings {
    type Err = std::convert::Infallible;

    /// Reads the settings from their text, and never fails.
    fn from_str(s: &str) -> (settings: Result<Self, Self::Err>)
        ensures
            settings matches Ok(read) && reads_as(s@, read),
    {
        Ok(LoggingSettings::parse(s))
    }
}

} // verus!
