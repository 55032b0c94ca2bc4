//! Episode-level cleanup: watched episodes are found again in the series
//! library by their season and episode ordinals, and their files are planned
//! for removal while the series and its other episodes stay.
//!
//! The tracker and the library do not share identifiers, so the pair of
//! ordinals is the only key. Specials (season 0) and absolutely numbered
//! catalogs may be numbered differently on the two sides; nothing here tries
//! to make up for that.

use vstd::prelude::*;
use vstd::string::StringExecFns;
use crate::cleaners::deletion::{begin, DeletionOrchestrator, Mutation};
use crate::config::SonarrConfig;
use crate::jellyfin::{catalog_ids, items_with_id, listed_ids, with_id, Catalog, Item};
use crate::retention::{deletes_immediately, is_eligible, retain_eligible};
use crate::time::{RetentionPeriod, Timestamp};
use crate::sonarr::{EpisodeInfo, SeriesInfo};
use crate::uniq::first_appearances;
use crate::tags::{carries_forbidden, forbidden_ids, forbidden_tags, has_forbidden_tags, Tag};
use crate::text::{decimal_two, render_two_digits};

verus! {

/// An episode file that is to be removed, with what the two calls need:
/// the episode id to stop tracking it, the file id to delete the file.
#[derive(Debug, PartialEq, Eq)]
pub struct EpisodeFileDeletion {
    pub series_title: String,
    pub season: u32,
    pub episode: u32,
    pub episode_id: u64,
    pub episode_file_id: u64,
}

impl Clone for EpisodeFileDeletion {
    fn clone(&self) -> (copy: Self)
        ensures
            copy == *self,
    {
        EpisodeFileDeletion {
            series_title: self.series_title.clone(),
            season: self.season,
            episode: self.episode,
            episode_id: self.episode_id,
            episode_file_id: self.episode_file_id,
        }
    }
}

/// The line that names an episode: the title, then `S` and `E` with the
/// ordinals in at least two digits.
pub open spec fn episode_label(title: Seq<char>, season: u32, episode: u32) -> Seq<char> {
    title + " S"@ + decimal_two(season as nat) + "E"@ + decimal_two(episode as nat)
}

impl EpisodeFileDeletion {
    /// The line that names the episode in a listing.
    pub fn label(&self) -> (line: String)
        ensures
            line@ == episode_label(self.series_title@, self.season, self.episode),
    {
        let mut line: String = self.series_title.clone();
        line.append(" S");
        let season: String = render_two_digits(self.season);
        line.append(season.as_str());
        line.append("E");
        let episode: String = render_two_digits(self.episode);
        line.append(episode.as_str());
        line
    }
}

/// What became of one watched episode when it was looked up in a series.
#[derive(Debug, PartialEq, Eq, Clone, Copy, Structural)]
pub enum EpisodeMatch {
    /// The library holds the episode and a file for it.
    Delete { season: u32, episode: u32, episode_id: u64, episode_file_id: u64 },
    /// The tracker gave no season ordinal.
    MissingSeason,
    /// The tracker gave no episode ordinal.
    MissingEpisode,
    /// The tracker gave neither ordinal.
    MissingBoth,
    /// The library has no episode with this pair of ordinals.
    NotFound { season: u32, episode: u32 },
    /// The library has the episode, but no file for it.
    NoFile { season: u32, episode: u32 },
}

/// Whether a library episode has this pair of ordinals.
pub open spec fn has_ordinals(entry: EpisodeInfo, season: u32, episode: u32) -> bool {
    entry.season_number == season && entry.episode_number == episode
}

/// The position of the first library episode at or after `from` with this
/// pair of ordinals.
pub open spec fn position_from(
    library: Seq<EpisodeInfo>,
    season: u32,
    episode: u32,
    from: int,
) -> Option<int>
    decreases library.len() - from,
{
    if from < 0 || from >= library.len() {
        None
    } else if has_ordinals(library[from], season, episode) {
        Some(from)
    } else {
        position_from(library, season, episode, from + 1)
    }
}

/// The position of the first library episode with this pair of ordinals.
pub open spec fn position(library: Seq<EpisodeInfo>, season: u32, episode: u32) -> Option<int> {
    position_from(library, season, episode, 0)
}

/// What a found library episode gives: a deletion where it has a file.
pub open spec fn found(entry: EpisodeInfo, season: u32, episode: u32) -> EpisodeMatch {
    match entry.episode_file_id {
        Some(file_id) => EpisodeMatch::Delete {
            season,
            episode,
            episode_id: entry.id,
            episode_file_id: file_id,
        },
        None => EpisodeMatch::NoFile { season, episode },
    }
}

/// What becomes of a watched episode with these ordinals in a series with
/// these episodes.
pub open spec fn match_ordinals(
    season: Option<u32>,
    episode: Option<u32>,
    library: Seq<EpisodeInfo>,
) -> EpisodeMatch {
    match (season, episode) {
        (Some(s), Some(e)) => match position(library, s, e) {
            Some(at) => found(library[at], s, e),
            None => EpisodeMatch::NotFound { season: s, episode: e },
        },
        (None, Some(_)) => EpisodeMatch::MissingSeason,
        (Some(_), None) => EpisodeMatch::MissingEpisode,
        (None, None) => EpisodeMatch::MissingBoth,
    }
}

/// What becomes of a watched episode in a series with these episodes.
pub open spec fn match_of(watched: Item, library: Seq<EpisodeInfo>) -> EpisodeMatch {
    match_ordinals(watched.parent_index_number, watched.index_number, library)
}

/// `position_from` finds the first episode with the pair at or after `from`,
/// and finds none only where there is none.
pub proof fn lemma_position_from(library: Seq<EpisodeInfo>, season: u32, episode: u32, from: int)
    requires
        0 <= from,
    ensures
        match position_from(library, season, episode, from) {
            Some(at) => {
                &&& from <= at < library.len()
                &&& has_ordinals(library[at], season, episode)
                &&& forall|j: int| from <= j < at ==> !has_ordinals(library[j], season, episode)
            },
            None => forall|j: int|
                from <= j < library.len() ==> !has_ordinals(library[j], season, episode),
        },
    decreases library.len() - from,
{
    if from < library.len() && !has_ordinals(library[from], season, episode) {
        lemma_position_from(library, season, episode, from + 1);
    }
}

/// Finds the first library episode with this pair of ordinals.
pub fn find_episode(library: &[EpisodeInfo], season: u32, episode: u32) -> (at: Option<usize>)
    ensures
        match at {
            Some(i) => i < library@.len() && position(library@, season, episode) == Some(i as int),
            None => position(library@, season, episode) is None,
        },
{
    let mut i: usize = 0;
    while i < library.len()
        invariant
            i <= library.len(),
            position(library@, season, episode) == position_from(library@, season, episode, i as int),
        decreases library.len() - i,
    {
        if library[i].season_number == season && library[i].episode_number == episode {
            return Some(i);
        }
        i += 1;
    }
    None
}

/// Looks a watched episode up in the episodes of a series.
///
/// Both ordinals must be there; where one is missing nothing is looked up.
/// The tracker's own id of the episode plays no part.
pub fn match_episode(watched: &Item, library: &[EpisodeInfo]) -> (outcome: EpisodeMatch)
    ensures
        outcome == match_of(*watched, library@),
{
    match (watched.season_number(), watched.episode_number()) {
        (Some(season), Some(episode)) => match find_episode(library, season, episode) {
            Some(at) => match library[at].episode_file_id {
                Some(file_id) => EpisodeMatch::Delete {
                    season,
                    episode,
                    episode_id: library[at].id,
                    episode_file_id: file_id,
                },
                None => EpisodeMatch::NoFile { season, episode },
            },
            None => EpisodeMatch::NotFound { season, episode },
        },
        (None, Some(_)) => EpisodeMatch::MissingSeason,
        (Some(_), None) => EpisodeMatch::MissingEpisode,
        (None, None) => EpisodeMatch::MissingBoth,
    }
}

/// The matches of the watched episodes of one series, in their order.
pub open spec fn matches_of(watched: Seq<Item>, library: Seq<EpisodeInfo>) -> Seq<EpisodeMatch> {
    watched.map_values(|w: Item| match_of(w, library))
}

/// The deletions among the matches, in their order, under the series title.
pub open spec fn deletions(title: String, outcomes: Seq<EpisodeMatch>) -> Seq<EpisodeFileDeletion>
    decreases outcomes.len(),
{
    if outcomes.len() == 0 {
        Seq::empty()
    } else {
        let earlier = deletions(title, outcomes.drop_last());
        match outcomes.last() {
            EpisodeMatch::Delete { season, episode, episode_id, episode_file_id } => earlier.push(
                EpisodeFileDeletion { series_title: title, season, episode, episode_id, episode_file_id },
            ),
            _ => earlier,
        }
    }
}

/// What looking the watched episodes of one series up has given: the outcome
/// for each episode, and the files to remove.
pub struct GroupMatches {
    pub outcomes: Vec<EpisodeMatch>,
    pub files: Vec<EpisodeFileDeletion>,
}

/// Looks the watched episodes of one series up in the library's episodes of
/// that series.
pub fn match_group(title: &String, watched: &[Item], library: &[EpisodeInfo]) -> (found: GroupMatches)
    ensures
        found.outcomes@ == matches_of(watched@, library@),
        found.files@ == deletions(*title, found.outcomes@),
{
    let mut outcomes: Vec<EpisodeMatch> = Vec::new();
    let mut files: Vec<EpisodeFileDeletion> = Vec::new();
    let mut i: usize = 0;
    while i < watched.len()
        invariant
            i <= watched.len(),
            outcomes@ == matches_of(watched@, library@).take(i as int),
            files@ == deletions(*title, outcomes@),
        decreases watched.len() - i,
    {
        let outcome: EpisodeMatch = match_episode(&watched[i], library);
        let ghost before = outcomes@;
        outcomes.push(outcome);
        assert(outcomes@.drop_last() =~= before);
        assert(outcomes@ =~= matches_of(watched@, library@).take(i + 1));
        match outcome {
            EpisodeMatch::Delete { season, episode, episode_id, episode_file_id } => {
                files.push(
                    EpisodeFileDeletion {
                        series_title: title.clone(),
                        season,
                        episode,
                        episode_id,
                        episode_file_id,
                    },
                );
            },
            _ => {},
        }
        i += 1;
    }
    assert(outcomes@ =~= matches_of(watched@, library@));
    GroupMatches { outcomes, files }
}

/// The watched episodes that belong to one series of the catalog.
#[derive(Debug, PartialEq, Eq)]
pub struct TvdbGroup {
    pub tvdb_id: String,
    pub episodes: Vec<Item>,
}

/// Whether `groups` sorts the watched episodes by series: one group for each
/// series identifier, in the order in which the identifiers first occur, each
/// with the episodes of that series in their order.
pub open spec fn is_grouping(groups: Seq<TvdbGroup>, watched: Seq<Item>) -> bool {
    let ids = first_appearances(listed_ids(watched, Catalog::Tvdb));
    &&& groups.len() == ids.len()
    &&& forall|g: int|
        0 <= g < groups.len() ==> {
            &&& (#[trigger] groups[g]).tvdb_id@ == ids[g]
            &&& groups[g].episodes@ == watched.filter(with_id(Catalog::Tvdb, ids[g]))
        }
}

/// Sorts the watched episodes by the series that they belong to, so that each
/// series is looked up once. An episode without a series identifier is in no
/// group.
pub fn group_by_tvdb(watched: &[Item]) -> (groups: Vec<TvdbGroup>)
    ensures
        is_grouping(groups@, watched@),
{
    let ids = catalog_ids(watched, Catalog::Tvdb);
    let listed: &[String] = ids.as_slice();
    let ghost order = first_appearances(listed_ids(watched@, Catalog::Tvdb));
    let mut groups: Vec<TvdbGroup> = Vec::new();
    let mut g: usize = 0;
    while g < listed.len()
        invariant
            g <= listed.len(),
            listed@.map_values(|s: String| s@) == order,
            order == first_appearances(listed_ids(watched@, Catalog::Tvdb)),
            groups@.len() == g,
            forall|k: int|
                0 <= k < g ==> {
                    &&& (#[trigger] groups@[k]).tvdb_id@ == order[k]
                    &&& groups@[k].episodes@ == watched@.filter(with_id(Catalog::Tvdb, order[k]))
                },
        decreases listed.len() - g,
    {
        assert(listed@.map_values(|s: String| s@)[g as int] == listed@[g as int]@);
        let episodes: Vec<Item> = items_with_id(watched, Catalog::Tvdb, &listed[g]);
        groups.push(TvdbGroup { tvdb_id: listed[g].clone(), episodes });
        g += 1;
    }
    groups
}

/// What the planner wants to be fetched next.
#[derive(Debug, PartialEq, Eq)]
pub enum Lookup {
    /// The tag listing of the series library.
    Tags,
    /// The library's series for a catalog identifier.
    Series { tvdb_id: String },
    /// All episodes of one series of the library.
    Episodes { series_id: u64 },
    /// Nothing more: the plan is complete.
    Finished,
}

/// What was fetched for a lookup.
#[derive(Debug, PartialEq, Eq)]
pub enum Answer {
    Tags(Vec<Tag>),
    Series(Vec<SeriesInfo>),
    Episodes(Vec<EpisodeInfo>),
}

/// The kind of answer that a planner waits for.
#[derive(Clone, Copy, Debug, PartialEq, Eq, Structural)]
pub enum Awaiting {
    Tags,
    Series,
    Episodes,
    Nothing,
}

/// Plans the removal of watched episodes. The planner asks for the tag
/// listing, then for each group of watched episodes for the series with the
/// group's identifier, and for each such series that no tag protects for its
/// episodes, in which it looks the group's episodes up. The caller fetches
/// what is asked for and hands the answer back; a fetch that fails ends the
/// planning.
#[derive(Debug)]
pub struct EpisodePlanner {
    pub tags_to_keep: Vec<String>,
    pub groups: Vec<TvdbGroup>,
    pub forbidden_tags: Vec<u64>,
    pub group: usize,
    pub series: Vec<SeriesInfo>,
    pub next_series: usize,
    pub awaiting: Awaiting,
    pub files: Vec<EpisodeFileDeletion>,
}

/// A planner's state in mathematical terms.
pub struct PlannerState {
    pub tags_to_keep: Seq<String>,
    pub groups: Seq<TvdbGroup>,
    pub forbidden_tags: Seq<u64>,
    pub group: int,
    pub series: Seq<SeriesInfo>,
    pub next_series: int,
    pub awaiting: Awaiting,
    pub files: Seq<EpisodeFileDeletion>,
}

impl View for EpisodePlanner {
    type V = PlannerState;

    open spec fn view(&self) -> PlannerState {
        PlannerState {
            tags_to_keep: self.tags_to_keep@,
            groups: self.groups@,
            forbidden_tags: self.forbidden_tags@,
            group: self.group as int,
            series: self.series@,
            next_series: self.next_series as int,
            awaiting: self.awaiting,
            files: self.files@,
        }
    }
}

/// What a planner hands back for an answer: the next lookup, and for an
/// answer with episodes what became of each watched episode of the group.
#[derive(Debug, PartialEq, Eq)]
pub struct PlanStep {
    pub lookup: Lookup,
    pub outcomes: Vec<EpisodeMatch>,
}

/// The position of the first series at or after `from` that carries no
/// forbidden tag; the number of series where there is none.
pub open spec fn next_unprotected(series: Seq<SeriesInfo>, forbidden: Seq<u64>, from: int) -> int
    decreases series.len() - from,
{
    if from < 0 || from >= series.len() {
        series.len() as int
    } else if !carries_forbidden(series[from].tags, forbidden) {
        from
    } else {
        next_unprotected(series, forbidden, from + 1)
    }
}

/// Turns to the group at `g`: asks for its series, or finishes where the
/// groups are used up.
pub open spec fn open_group(s: PlannerState, g: int) -> (PlannerState, Lookup) {
    if 0 <= g < s.groups.len() {
        (
            PlannerState {
                group: g,
                series: Seq::empty(),
                next_series: 0,
                awaiting: Awaiting::Series,
                ..s
            },
            Lookup::Series { tvdb_id: s.groups[g].tvdb_id },
        )
    } else {
        (
            PlannerState {
                group: s.groups.len() as int,
                series: Seq::empty(),
                next_series: 0,
                awaiting: Awaiting::Nothing,
                ..s
            },
            Lookup::Finished,
        )
    }
}

/// Turns to the first series of the group at or after `from` that no tag
/// protects and asks for its episodes; where none is left, turns to the next
/// group.
pub open spec fn advance(s: PlannerState, from: int) -> (PlannerState, Lookup) {
    let at = next_unprotected(s.series, s.forbidden_tags, from);
    if at < s.series.len() {
        (
            PlannerState { next_series: at, awaiting: Awaiting::Episodes, ..s },
            Lookup::Episodes { series_id: s.series[at].id },
        )
    } else if s.group < s.groups.len() {
        open_group(s, s.group + 1)
    } else {
        open_group(s, s.groups.len() as int)
    }
}

/// The lookup that a state waits for.
pub open spec fn pending(s: PlannerState) -> Lookup {
    match s.awaiting {
        Awaiting::Tags => Lookup::Tags,
        Awaiting::Series => if 0 <= s.group < s.groups.len() {
            Lookup::Series { tvdb_id: s.groups[s.group].tvdb_id }
        } else {
            Lookup::Finished
        },
        Awaiting::Episodes => if 0 <= s.next_series < s.series.len() {
            Lookup::Episodes { series_id: s.series[s.next_series].id }
        } else {
            Lookup::Finished
        },
        Awaiting::Nothing => Lookup::Finished,
    }
}

/// Whether a state waits for episodes of a series that it has, for a group
/// that it has.
pub open spec fn matching(s: PlannerState) -> bool {
    &&& s.awaiting == Awaiting::Episodes
    &&& 0 <= s.group < s.groups.len()
    &&& 0 <= s.next_series < s.series.len()
}

/// What became of the watched episodes of the current group, for an answer
/// with the episodes of the current series.
pub open spec fn step_outcomes(s: PlannerState, answer: Answer) -> Seq<EpisodeMatch> {
    match answer {
        Answer::Episodes(library) if matching(s) => matches_of(
            s.groups[s.group].episodes@,
            library@,
        ),
        _ => Seq::empty(),
    }
}

/// The state after an answer, and the next lookup. An answer of another kind
/// than the state waits for changes nothing, and the lookup is asked again.
pub open spec fn step(s: PlannerState, answer: Answer) -> (PlannerState, Lookup) {
    match (s.awaiting, answer) {
        (Awaiting::Tags, Answer::Tags(tags)) => open_group(
            PlannerState { forbidden_tags: forbidden_ids(tags@, s.tags_to_keep), ..s },
            0,
        ),
        (Awaiting::Series, Answer::Series(found)) => advance(PlannerState { series: found@, ..s }, 0),
        (Awaiting::Episodes, Answer::Episodes(library)) => if matching(s) {
            advance(
                PlannerState {
                    files: s.files + deletions(
                        s.series[s.next_series].title,
                        step_outcomes(s, answer),
                    ),
                    ..s
                },
                s.next_series + 1,
            )
        } else {
            (s, pending(s))
        },
        _ => (s, pending(s)),
    }
}

/// A series that carries a forbidden tag is passed over: the planner never
/// asks for the episodes of one.
pub proof fn lemma_protected_series_skipped(s: PlannerState, from: int)
    requires
        0 <= from,
    ensures
        advance(s, from).1 is Episodes ==> {
            let at = advance(s, from).0.next_series;
            &&& from <= at < s.series.len()
            &&& !carries_forbidden(s.series[at].tags, s.forbidden_tags)
            &&& advance(s, from).1 == Lookup::Episodes { series_id: s.series[at].id }
        },
    decreases s.series.len() - from,
{
    lemma_next_unprotected(s.series, s.forbidden_tags, from);
}

/// `next_unprotected` gives the first unprotected series at or after `from`.
pub proof fn lemma_next_unprotected(series: Seq<SeriesInfo>, forbidden: Seq<u64>, from: int)
    requires
        0 <= from,
    ensures
        from <= next_unprotected(series, forbidden, from) || next_unprotected(
            series,
            forbidden,
            from,
        ) == series.len(),
        next_unprotected(series, forbidden, from) <= series.len(),
        next_unprotected(series, forbidden, from) < series.len() ==> !carries_forbidden(
            series[next_unprotected(series, forbidden, from)].tags,
            forbidden,
        ),
        forall|j: int|
            from <= j < next_unprotected(series, forbidden, from) && j < series.len()
                ==> carries_forbidden(#[trigger] series[j].tags, forbidden),
    decreases series.len() - from,
{
    if from < series.len() && carries_forbidden(series[from].tags, forbidden) {
        lemma_next_unprotected(series, forbidden, from + 1);
    }
}

/// Whether a state that waits for episodes waits for those of a series that
/// carries no forbidden tag. A new planner is in such a state.
pub open spec fn guarded(s: PlannerState) -> bool {
    s.awaiting == Awaiting::Episodes ==> 0 <= s.next_series < s.series.len() && !carries_forbidden(
        s.series[s.next_series].tags,
        s.forbidden_tags,
    )
}

/// A forbidden tag protects the episodes of its series: whatever is
/// answered, the planner stays guarded, and it plans files only for a series
/// that carries no forbidden tag.
pub proof fn lemma_planner_guards(s: PlannerState, answer: Answer)
    requires
        guarded(s),
    ensures
        guarded(step(s, answer).0),
        step(s, answer).0.files != s.files ==> {
            &&& matching(s)
            &&& !carries_forbidden(s.series[s.next_series].tags, s.forbidden_tags)
            &&& step(s, answer).0.files == s.files + deletions(
                s.series[s.next_series].title,
                step_outcomes(s, answer),
            )
        },
{
    match (s.awaiting, answer) {
        (Awaiting::Tags, Answer::Tags(tags)) => {},
        (Awaiting::Series, Answer::Series(found)) => {
            lemma_next_unprotected(found@, s.forbidden_tags, 0);
        },
        (Awaiting::Episodes, Answer::Episodes(library)) => {
            if matching(s) {
                lemma_next_unprotected(s.series, s.forbidden_tags, s.next_series + 1);
            }
        },
        _ => {},
    }
}

/// An episode for which the tracker gave no season or no episode ordinal is
/// passed over whatever the library holds: nothing is looked up, and no file
/// is planned for it.
pub proof fn lemma_missing_ordinal_skips(watched: Item, library: Seq<EpisodeInfo>)
    requires
        watched.parent_index_number is None || watched.index_number is None,
    ensures
        match_of(watched, library) is MissingSeason || match_of(watched, library) is MissingEpisode
            || match_of(watched, library) is MissingBoth,
        !(match_of(watched, library) is Delete),
{
}

/// A file is planned only for a watched episode with both ordinals, for the
/// first library episode with the same pair, and only where that episode has
/// a file.
pub proof fn lemma_delete_needs_both(watched: Item, library: Seq<EpisodeInfo>)
    requires
        match_of(watched, library) is Delete,
    ensures
        watched.parent_index_number is Some,
        watched.index_number is Some,
        position(
            library,
            watched.parent_index_number.unwrap(),
            watched.index_number.unwrap(),
        ) matches Some(at) && {
            &&& 0 <= at < library.len()
            &&& library[at].season_number == watched.parent_index_number.unwrap()
            &&& library[at].episode_number == watched.index_number.unwrap()
            &&& library[at].episode_file_id == Some(match_of(watched, library)->episode_file_id)
            &&& library[at].id == match_of(watched, library)->episode_id
        },
{
    lemma_position_from(
        library,
        watched.parent_index_number.unwrap(),
        watched.index_number.unwrap(),
        0,
    );
}

impl EpisodePlanner {
    /// A planner for these watched episodes. It first asks for the tags.
    pub fn new(tags_to_keep: Vec<String>, watched: &[Item]) -> (start: (EpisodePlanner, Lookup))
        ensures
            start.0.tags_to_keep == tags_to_keep,
            is_grouping(start.0.groups@, watched@),
            start.0.forbidden_tags@ == Seq::<u64>::empty(),
            start.0.group == 0,
            start.0.series@ == Seq::<SeriesInfo>::empty(),
            start.0.next_series == 0,
            start.0.awaiting == Awaiting::Tags,
            start.0.files@ == Seq::<EpisodeFileDeletion>::empty(),
            start.1 == Lookup::Tags,
    {
        let planner = EpisodePlanner {
            tags_to_keep,
            groups: group_by_tvdb(watched),
            forbidden_tags: Vec::new(),
            group: 0,
            series: Vec::new(),
            next_series: 0,
            awaiting: Awaiting::Tags,
            files: Vec::new(),
        };
        (planner, Lookup::Tags)
    }

    fn open_group(&mut self, g: usize) -> (lookup: Lookup)
        ensures
            (final(self)@, lookup) == open_group(old(self)@, g as int),
    {
        self.series = Vec::new();
        self.next_series = 0;
        if g < self.groups.len() {
            self.group = g;
            self.awaiting = Awaiting::Series;
            Lookup::Series { tvdb_id: self.groups[g].tvdb_id.clone() }
        } else {
            self.group = self.groups.len();
            self.awaiting = Awaiting::Nothing;
            Lookup::Finished
        }
    }

    fn advance(&mut self, from: usize) -> (lookup: Lookup)
        ensures
            (final(self)@, lookup) == advance(old(self)@, from as int),
    {
        let mut at: usize = from;
        while at < self.series.len() && has_forbidden_tags(
            &self.series[at].tags,
            self.forbidden_tags.as_slice(),
        )
            invariant
                *self == *old(self),
                from <= at,
                next_unprotected(self.series@, self.forbidden_tags@, from as int)
                    == next_unprotected(self.series@, self.forbidden_tags@, at as int),
            decreases self.series.len() - at,
        {
            at += 1;
        }
        if at < self.series.len() {
            self.next_series = at;
            self.awaiting = Awaiting::Episodes;
            Lookup::Episodes { series_id: self.series[at].id }
        } else if self.group < self.groups.len() {
            let g: usize = self.group + 1;
            self.open_group(g)
        } else {
            let g: usize = self.groups.len();
            self.open_group(g)
        }
    }

    /// The lookup that the planner waits for.
    pub fn pending(&self) -> (lookup: Lookup)
        ensures
            lookup == pending(self@),
    {
        match self.awaiting {
            Awaiting::Tags => Lookup::Tags,
            Awaiting::Series => if self.group < self.groups.len() {
                Lookup::Series { tvdb_id: self.groups[self.group].tvdb_id.clone() }
            } else {
                Lookup::Finished
            },
            Awaiting::Episodes => if self.next_series < self.series.len() {
                Lookup::Episodes { series_id: self.series[self.next_series].id }
            } else {
                Lookup::Finished
            },
            Awaiting::Nothing => Lookup::Finished,
        }
    }

    /// Takes the answer to the lookup that was asked last, and says what to
    /// fetch next.
    pub fn answer(&mut self, answer: Answer) -> (next: PlanStep)
        ensures
            (final(self)@, next.lookup) == step(old(self)@, answer),
            next.outcomes@ == step_outcomes(old(self)@, answer),
    {
        match answer {
            Answer::Tags(tags) => match self.awaiting {
                Awaiting::Tags => {
                    self.forbidden_tags = forbidden_tags(&tags, &self.tags_to_keep);
                    let lookup: Lookup = self.open_group(0);
                    PlanStep { lookup, outcomes: Vec::new() }
                },
                _ => PlanStep { lookup: self.pending(), outcomes: Vec::new() },
            },
            Answer::Series(found) => match self.awaiting {
                Awaiting::Series => {
                    self.series = found;
                    let lookup: Lookup = self.advance(0);
                    PlanStep { lookup, outcomes: Vec::new() }
                },
                _ => PlanStep { lookup: self.pending(), outcomes: Vec::new() },
            },
            Answer::Episodes(library) => match self.awaiting {
                Awaiting::Episodes => {
                    if self.group < self.groups.len() && self.next_series < self.series.len() {
                        let found: GroupMatches = match_group(
                            &self.series[self.next_series].title,
                            self.groups[self.group].episodes.as_slice(),
                            library.as_slice(),
                        );
                        let GroupMatches { outcomes, files } = found;
                        let mut files = files;
                        self.files.append(&mut files);
                        let from: usize = self.next_series + 1;
                        let lookup: Lookup = self.advance(from);
                        PlanStep { lookup, outcomes }
                    } else {
                        PlanStep { lookup: self.pending(), outcomes: Vec::new() }
                    }
                },
                _ => PlanStep { lookup: self.pending(), outcomes: Vec::new() },
            },
        }
    }

    /// The files that the plan holds so far; all of them once the planner
    /// has finished.
    pub fn into_files(self) -> (files: Vec<EpisodeFileDeletion>)
        ensures
            files == self.files,
    {
        self.files
    }
}

/// The line of a listing for an episode: the label after a dash.
pub open spec fn listing_line(file: EpisodeFileDeletion) -> Seq<char> {
    "  - "@ + episode_label(file.series_title@, file.season, file.episode)
}

/// What a run over watched episodes does once the files are known.
#[derive(Debug)]
pub enum EpisodesRun {
    /// The tracker reported no watched episode; the run ends well.
    NothingWatched,
    /// No episode file is to be deleted; the run ends well.
    NothingToDelete,
    /// Delete: the orchestrator, and the first call to issue.
    Delete { orchestrator: DeletionOrchestrator, first: Mutation },
    /// Change nothing: the lines that list what would be deleted.
    List { lines: Vec<String> },
}

/// Decides for single episodes what to delete.
#[derive(Debug, PartialEq, Eq)]
pub struct EpisodesCleaner {
    pub tags_to_keep: Vec<String>,
    pub retention_period: Option<RetentionPeriod>,
}

impl EpisodesCleaner {
    pub fn new(sonarr_config: SonarrConfig) -> (cleaner: EpisodesCleaner)
        ensures
            cleaner.tags_to_keep == sonarr_config.tags_to_keep,
            cleaner.retention_period == sonarr_config.retention_period,
    {
        EpisodesCleaner {
            tags_to_keep: sonarr_config.tags_to_keep,
            retention_period: sonarr_config.retention_period,
        }
    }

    /// Whether the caller has to warn that episodes go at once.
    pub fn deletes_immediately(&self, episodes: &[Item]) -> (warn: bool)
        ensures
            warn == (self.retention_period is None && episodes@.len() > 0),
    {
        deletes_immediately(&self.retention_period, episodes)
    }

    /// The watched episodes that are past their retention at `now`.
    pub fn watched_episodes(&self, episodes: &[Item], now: &Timestamp) -> (kept: Vec<Item>)
        ensures
            kept@ == episodes@.filter(is_eligible(self.retention_period, *now)),
    {
        retain_eligible(episodes, &self.retention_period, now)
    }

    /// The ids of the tags that are configured to be kept.
    pub fn forbidden_tags(&self, tags: &Vec<Tag>) -> (ids: Vec<u64>)
        ensures
            ids@ == forbidden_ids(tags@, self.tags_to_keep@),
    {
        forbidden_tags(tags, &self.tags_to_keep)
    }

    /// Whether a series carries a forbidden tag, so that none of its
    /// episodes is touched.
    pub fn has_forbidden_tags(series: &SeriesInfo, forbidden_tags: &[u64]) -> (found: bool)
        ensures
            found == carries_forbidden(series.tags, forbidden_tags@),
    {
        has_forbidden_tags(&series.tags, forbidden_tags)
    }

    /// Starts the planning for these watched episodes.
    pub fn episode_files_for_deletion(&self, watched: &[Item]) -> (start: (EpisodePlanner, Lookup))
        ensures
            start.0.tags_to_keep@ =~= self.tags_to_keep@,
            is_grouping(start.0.groups@, watched@),
            start.0.forbidden_tags@ == Seq::<u64>::empty(),
            start.0.group == 0,
            start.0.series@ == Seq::<SeriesInfo>::empty(),
            start.0.next_series == 0,
            start.0.awaiting == Awaiting::Tags,
            start.0.files@ == Seq::<EpisodeFileDeletion>::empty(),
            start.1 == Lookup::Tags,
    {
        let mut names: Vec<String> = Vec::new();
        let mut i: usize = 0;
        while i < self.tags_to_keep.len()
            invariant
                i <= self.tags_to_keep.len(),
                names@ == self.tags_to_keep@.take(i as int),
            decreases self.tags_to_keep.len() - i,
        {
            names.push(self.tags_to_keep[i].clone());
            assert(names@ =~= self.tags_to_keep@.take(i + 1));
            i += 1;
        }
        assert(names@ =~= self.tags_to_keep@);
        EpisodePlanner::new(names, watched)
    }

    /// The lines that list the files, one for each, in their order.
    pub fn listing(files: &[EpisodeFileDeletion]) -> (lines: Vec<String>)
        ensures
            lines@.len() == files@.len(),
            forall|i: int| 0 <= i < lines@.len() ==> (#[trigger] lines@[i])@ == listing_line(files@[i]),
    {
        let mut lines: Vec<String> = Vec::new();
        let mut i: usize = 0;
        while i < files.len()
            invariant
                i <= files.len(),
                lines@.len() == i,
                forall|k: int| 0 <= k < i ==> (#[trigger] lines@[k])@ == listing_line(files@[k]),
            decreases files.len() - i,
        {
            let mut line: String = String::from_str("  - ");
            let label: String = files[i].label();
            line.append(label.as_str());
            lines.push(line);
            i += 1;
        }
        lines
    }

    /// What the run does: nothing where nothing was watched or no file was
    /// found; with the leave to delete it starts the calls; without it, it
    /// lists the files and changes nothing.
    pub fn cleanup(&self, watched: usize, files: Vec<EpisodeFileDeletion>, force_delete: bool) -> (run:
        EpisodesRun)
        ensures
            watched == 0 ==> run is NothingWatched,
            watched > 0 && files@.len() == 0 ==> run is NothingToDelete,
            watched > 0 && files@.len() > 0 && force_delete ==> (run matches EpisodesRun::Delete {
                orchestrator,
                first,
            } && (orchestrator@, Some(first)) == begin(files@, true)),
            watched > 0 && files@.len() > 0 && !force_delete ==> (run matches EpisodesRun::List {
                lines,
            } && lines@.len() == files@.len() && forall|i: int|
                0 <= i < lines@.len() ==> (#[trigger] lines@[i])@ == listing_line(files@[i])),
    {
        if watched == 0 {
            EpisodesRun::NothingWatched
        } else if files.len() == 0 {
            EpisodesRun::NothingToDelete
        } else if force_delete {
            let (orchestrator, call) = DeletionOrchestrator::start(files, true);
            match call {
                Some(first) => EpisodesRun::Delete { orchestrator, first },
                None => EpisodesRun::NothingToDelete,
            }
        } else {
            EpisodesRun::List { lines: EpisodesCleaner::listing(files.as_slice()) }
        }
    }
}

} // verus!
