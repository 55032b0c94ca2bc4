//! Cleanup of watched series as a whole.
//!
//! A series goes only as a whole and only when nothing of it is still to
//! come: every season is fully downloaded or will not air again. A series
//! of which the library knows no seasons is not known to be complete, and
//! stays.

use vstd::prelude::*;
use vstd::string::StringExecFns;
use crate::cleaners::plan::{plan_cleanup, plan_for, CleanupPlan};
use crate::config::SonarrConfig;
use crate::jellyfin::{catalog_ids, listed_ids, Catalog, Item};
use crate::queue::Queue;
use crate::retention::{deletes_immediately, latest_play, max_last_played, old_enough, verdict, Verdict};
use crate::sonarr::{EpisodeInfo, Season, SeriesInfo};
use crate::string_set::StringSet;
use crate::tags::{carries_forbidden, forbidden_ids, forbidden_tags, has_forbidden_tags, Tag};
use crate::time::{RetentionPeriod, Timestamp};
use crate::uniq::{first_appearances, push_new};

verus! {

/// Whether nothing of a season is still to come: all its episodes have
/// files, or no further airing is announced.
pub open spec fn season_settled(season: Season) -> bool {
    season.statistics.episode_file_count >= season.statistics.total_episode_count
        || season.statistics.next_airing is None
}

/// Whether the library lists seasons for the series, at least one, and all
/// of them are settled.
pub open spec fn seasons_settled(seasons: Option<Vec<Season>>) -> bool {
    seasons matches Some(listed) && listed@.len() > 0 && forall|i: int|
        0 <= i < listed@.len() ==> season_settled(#[trigger] listed@[i])
}

/// Whether a series may be deleted.
pub open spec fn is_safe(series: SeriesInfo, forbidden_tags: Seq<u64>) -> bool {
    &&& !carries_forbidden(series.tags, forbidden_tags)
    &&& series.statistics.size_on_disk > 0
    &&& seasons_settled(series.seasons)
}

/// The same as a predicate on series.
pub open spec fn safe(forbidden_tags: Seq<u64>) -> spec_fn(SeriesInfo) -> bool {
    |series: SeriesInfo| is_safe(series, forbidden_tags)
}

/// Where a series stands. A series is judged once in a run, and the
/// judgement is not kept.
#[derive(Clone, Copy, Debug, PartialEq, Eq, Structural)]
pub enum Safety {
    /// Every condition holds.
    SafeToDelete,
    /// The series carries a tag that is configured to be kept.
    ForbiddenTags,
    /// The series takes no space on disk.
    NotOnDisk,
    /// The library gave no list of seasons.
    MissingSeasons,
    /// The list of seasons is empty.
    NoSeasons,
    /// A season lacks episodes and has a further airing announced.
    Unfinished,
}

/// Where a series stands, with the first reason that keeps it.
pub open spec fn safety_of(series: SeriesInfo, forbidden_tags: Seq<u64>) -> Safety {
    if carries_forbidden(series.tags, forbidden_tags) {
        Safety::ForbiddenTags
    } else if series.statistics.size_on_disk == 0 {
        Safety::NotOnDisk
    } else {
        match series.seasons {
            None => Safety::MissingSeasons,
            Some(listed) => if listed@.len() == 0 {
                Safety::NoSeasons
            } else if forall|i: int| 0 <= i < listed@.len() ==> season_settled(#[trigger] listed@[i]) {
                Safety::SafeToDelete
            } else {
                Safety::Unfinished
            },
        }
    }
}

/// A series is safe to delete exactly when every condition holds.
pub proof fn lemma_safety_agrees(series: SeriesInfo, forbidden_tags: Seq<u64>)
    ensures
        safety_of(series, forbidden_tags) == Safety::SafeToDelete <==> is_safe(
            series,
            forbidden_tags,
        ),
{
}

/// A series that carries a forbidden tag is never safe to delete, whatever
/// its size and its seasons.
pub proof fn lemma_tagged_series_is_kept(series: SeriesInfo, forbidden_tags: Seq<u64>)
    requires
        carries_forbidden(series.tags, forbidden_tags),
    ensures
        !is_safe(series, forbidden_tags),
        safety_of(series, forbidden_tags) == Safety::ForbiddenTags,
{
}

/// For a series without a forbidden tag: it is safe to delete if and only
/// if it takes space on disk, has at least one season, and each season has
/// all its files or no further airing.
pub proof fn lemma_safe_iff(series: SeriesInfo, forbidden_tags: Seq<u64>)
    requires
        !carries_forbidden(series.tags, forbidden_tags),
    ensures
        is_safe(series, forbidden_tags) <==> {
            &&& series.statistics.size_on_disk > 0
            &&& series.seasons matches Some(listed)
            &&& listed@.len() > 0
            &&& forall|i: int|
                0 <= i < listed@.len() ==> {
                    ||| (#[trigger] listed@[i]).statistics.episode_file_count
                        >= listed@[i].statistics.total_episode_count
                    ||| listed@[i].statistics.next_airing is None
                }
        },
{
    if series.seasons is Some {
        let listed = series.seasons.unwrap();
        assert forall|i: int| 0 <= i < listed@.len() implies (season_settled(#[trigger] listed@[i])
            <==> (listed@[i].statistics.episode_file_count
            >= listed@[i].statistics.total_episode_count
            || listed@[i].statistics.next_airing is None)) by {}
    }
}

/// A series without a list of seasons, or with an empty one, is never safe
/// to delete, whatever its tags and its size.
pub proof fn lemma_no_seasons_never_safe(series: SeriesInfo, forbidden_tags: Seq<u64>)
    requires
        series.seasons matches Some(listed) ==> listed@.len() == 0,
    ensures
        !is_safe(series, forbidden_tags),
        safety_of(series, forbidden_tags) != Safety::SafeToDelete,
{
}

/// One season that is not settled keeps the whole series.
pub proof fn lemma_one_unfinished_season(series: SeriesInfo, forbidden_tags: Seq<u64>, i: int)
    requires
        series.seasons matches Some(listed) && 0 <= i < listed@.len() && !season_settled(
            listed@[i],
        ),
    ensures
        !is_safe(series, forbidden_tags),
{
}

/// Whether nothing of a season is still to come.
pub fn season_is_settled(season: &Season) -> (settled: bool)
    ensures
        settled == season_settled(*season),
{
    let fully_downloaded: bool = season.statistics.episode_file_count
        >= season.statistics.total_episode_count;
    let wont_air: bool = season.statistics.next_airing.is_none();
    fully_downloaded || wont_air
}

/// Judges a series.
#[verifier::loop_isolation(false)]
pub fn evaluate(series: &SeriesInfo, forbidden_tags: &[u64]) -> (safety: Safety)
    ensures
        safety == safety_of(*series, forbidden_tags@),
{
    if has_forbidden_tags(&series.tags, forbidden_tags) {
        return Safety::ForbiddenTags;
    }
    if series.statistics.size_on_disk == 0 {
        return Safety::NotOnDisk;
    }
    match &series.seasons {
        None => Safety::MissingSeasons,
        Some(listed) => {
            if listed.len() == 0 {
                return Safety::NoSeasons;
            }
            let mut i: usize = 0;
            while i < listed.len()
                invariant
                    i <= listed.len(),
                    forall|k: int| 0 <= k < i ==> season_settled(#[trigger] listed@[k]),
                decreases listed.len() - i,
            {
                if !season_is_settled(&listed[i]) {
                    assert(!season_settled(listed@[i as int]));
                    assert(series.seasons matches Some(l) && l@ == listed@);
                    return Safety::Unfinished;
                }
                i += 1;
            }
            assert(series.seasons matches Some(l) && l@ == listed@);
            Safety::SafeToDelete
        },
    }
}

/// Checks whether a series is safe to delete.
pub fn safe_to_delete(series: &SeriesInfo, forbidden_tags: &[u64]) -> (ok: bool)
    ensures
        ok == is_safe(*series, forbidden_tags@),
{
    match evaluate(series, forbidden_tags) {
        Safety::SafeToDelete => true,
        _ => false,
    }
}

/// The series among `found` that are safe to delete, in their order.
pub fn series_for_tvdb_id(found: Vec<SeriesInfo>, forbidden_tags: &[u64]) -> (kept: Vec<SeriesInfo>)
    ensures
        kept@ == found@.filter(safe(forbidden_tags@)),
{
    let ghost all = found@;
    let mut rest: Queue<SeriesInfo> = Queue::new(found);
    let mut kept: Vec<SeriesInfo> = Vec::new();
    let ghost mut done: Seq<SeriesInfo> = Seq::empty();
    while rest.len() > 0
        invariant
            done + rest@ == all,
            kept@ == done.filter(safe(forbidden_tags@)),
        decreases rest@.len(),
    {
        let ghost before = rest@;
        let series: SeriesInfo = rest.next().unwrap();
        proof {
            done.lemma_filter_push(series, safe(forbidden_tags@));
            assert(done.push(series) + rest@ =~= done + before);
            done = done.push(series);
        }
        if safe_to_delete(&series, forbidden_tags) {
            kept.push(series);
        }
    }
    assert(done =~= all);
    kept
}

/// The series of all batches that are safe to delete, batch after batch.
pub open spec fn safe_of_all(batches: Seq<Vec<SeriesInfo>>, forbidden_tags: Seq<u64>) -> Seq<
    SeriesInfo,
>
    decreases batches.len(),
{
    if batches.len() == 0 {
        Seq::empty()
    } else {
        safe_of_all(batches.drop_last(), forbidden_tags) + batches.last()@.filter(
            safe(forbidden_tags),
        )
    }
}

/// Every series in a list of series to delete is safe to delete: none of
/// them carries a forbidden tag, lies off disk or lacks settled seasons.
pub proof fn lemma_listed_series_are_safe(
    batches: Seq<Vec<SeriesInfo>>,
    forbidden_tags: Seq<u64>,
    k: int,
)
    requires
        0 <= k < safe_of_all(batches, forbidden_tags).len(),
    ensures
        is_safe(safe_of_all(batches, forbidden_tags)[k], forbidden_tags),
    decreases batches.len(),
{
    if batches.len() > 0 {
        let front = safe_of_all(batches.drop_last(), forbidden_tags);
        if k < front.len() {
            lemma_listed_series_are_safe(batches.drop_last(), forbidden_tags, k);
        } else {
            batches.last()@.lemma_filter_pred(safe(forbidden_tags), k - front.len());
        }
    }
}

/// The ids of the series, in their order.
pub open spec fn ids_of(series: Seq<SeriesInfo>) -> Seq<u64> {
    series.map_values(|s: SeriesInfo| s.id)
}

/// The latest play among the episodes fetched for the series at `at`;
/// nothing where no episodes were handed over for it.
pub open spec fn plays_of(episodes: Seq<Vec<Item>>, at: int) -> Option<Timestamp> {
    if 0 <= at < episodes.len() {
        latest_play(episodes[at]@)
    } else {
        None
    }
}

/// The watched series that may go as far as retention is concerned: no
/// favorite, and the latest play of any of its episodes old enough. The
/// series' own record of its last play is not consulted.
pub open spec fn past_retention(
    items: Seq<Item>,
    episodes: Seq<Vec<Item>>,
    retention: Option<RetentionPeriod>,
    now: Timestamp,
) -> Seq<Item>
    decreases items.len(),
{
    if items.len() == 0 {
        Seq::empty()
    } else {
        let earlier = past_retention(items.drop_last(), episodes, retention, now);
        if !items.last().favorite() && old_enough(
            plays_of(episodes, items.len() - 1),
            retention,
            now,
        ) {
            earlier.push(items.last())
        } else {
            earlier
        }
    }
}

/// Whether a monitored library episode has this pair of ordinals. An
/// episode of which the library does not say whether it is monitored counts
/// as monitored.
pub open spec fn monitored_with(entry: EpisodeInfo, season: u32, episode: u32) -> bool {
    &&& entry.season_number == season
    &&& entry.episode_number == episode
    &&& entry.monitored != Some(false)
}

/// The position of the first monitored library episode at or after `from`
/// with this pair of ordinals.
pub open spec fn monitored_from(library: Seq<EpisodeInfo>, season: u32, episode: u32, from: int)
    -> Option<int>
    decreases library.len() - from,
{
    if from < 0 || from >= library.len() {
        None
    } else if monitored_with(library[from], season, episode) {
        Some(from)
    } else {
        monitored_from(library, season, episode, from + 1)
    }
}

/// `ids` with the episode that the watched episode stands for in the
/// library, where it has both ordinals, the library has a monitored episode
/// with the same pair, and that episode's id is not yet among `ids`.
pub open spec fn with_match(ids: Seq<u64>, watched: Item, library: Seq<EpisodeInfo>) -> Seq<u64> {
    match (watched.parent_index_number, watched.index_number) {
        (Some(season), Some(episode)) => match monitored_from(library, season, episode, 0) {
            Some(at) => if ids.contains(library[at].id) {
                ids
            } else {
                ids.push(library[at].id)
            },
            None => ids,
        },
        _ => ids,
    }
}

/// `ids` with the library episodes that the watched episodes stand for, in
/// the order of the watched episodes.
pub open spec fn with_matches(ids: Seq<u64>, watched: Seq<Item>, library: Seq<EpisodeInfo>) -> Seq<
    u64,
>
    decreases watched.len(),
{
    if watched.len() == 0 {
        ids
    } else {
        with_match(with_matches(ids, watched.drop_last(), library), watched.last(), library)
    }
}

/// The watched series of which at least one watched episode was handed
/// over, in their order.
pub open spec fn with_watched(series: Seq<Item>, watched: Seq<Vec<Item>>) -> Seq<Item>
    decreases series.len(),
{
    if series.len() == 0 {
        Seq::empty()
    } else {
        let earlier = with_watched(series.drop_last(), watched);
        let at = series.len() - 1;
        if at < watched.len() && watched[at]@.len() > 0 {
            earlier.push(series.last())
        } else {
            earlier
        }
    }
}

/// What becomes of the watched episodes that are still monitored.
#[derive(Debug, PartialEq, Eq)]
pub enum UnmonitorPlan {
    /// There is nothing to unmonitor.
    Nothing,
    /// Stop tracking the episodes with these ids.
    Unmonitor { ids: Vec<u64> },
    /// Change nothing: so many episodes would be unmonitored.
    DryRun { count: usize },
}

/// Decides for the series library what to delete.
#[derive(Debug, PartialEq, Eq)]
pub struct SeriesCleaner {
    pub tags_to_keep: Vec<String>,
    pub retention_period: Option<RetentionPeriod>,
    pub unmonitor: bool,
}

impl SeriesCleaner {
    pub fn new(sonarr_config: SonarrConfig) -> (cleaner: SeriesCleaner)
        ensures
            cleaner.tags_to_keep == sonarr_config.tags_to_keep,
            cleaner.retention_period == sonarr_config.retention_period,
            cleaner.unmonitor == sonarr_config.unmonitor,
    {
        SeriesCleaner {
            tags_to_keep: sonarr_config.tags_to_keep,
            retention_period: sonarr_config.retention_period,
            unmonitor: sonarr_config.unmonitor,
        }
    }

    /// Whether the caller has to warn that series go at once.
    pub fn deletes_immediately(&self, items: &[Item]) -> (warn: bool)
        ensures
            warn == (self.retention_period is None && items@.len() > 0),
    {
        deletes_immediately(&self.retention_period, items)
    }

    /// Whether the plays of the episodes are needed to judge the series:
    /// they are once a retention period is set.
    pub fn needs_episode_plays(&self) -> (needed: bool)
        ensures
            needed == self.retention_period is Some,
    {
        self.retention_period.is_some()
    }

    /// The catalog identifier under which to look a series up for
    /// unmonitoring: there is one where the series has watched episodes and
    /// an identifier.
    pub fn unmonitor_lookup(&self, series: &Item, watched: &[Item]) -> (tvdb_id: Option<String>)
        ensures
            match tvdb_id {
                Some(id) => watched@.len() > 0 && series.tvdb() == Some(id@),
                None => watched@.len() == 0 || series.tvdb() is None,
            },
    {
        if watched.len() == 0 {
            None
        } else {
            match series.tvdb_id() {
                Some(id) => Some(String::from_str(id)),
                None => None,
            }
        }
    }

    /// The watched series that are past their retention at `now`.
    ///
    /// `episodes` holds for each series, at the same position, the episodes
    /// of that series as the tracker lists them. Without a retention period
    /// the episodes play no part and may be left out.
    pub fn watched_items(&self, items: &[Item], episodes: &[Vec<Item>], now: &Timestamp) -> (kept:
        Vec<Item>)
        ensures
            kept@ == past_retention(items@, episodes@, self.retention_period, *now),
    {
        let mut kept: Vec<Item> = Vec::new();
        let mut i: usize = 0;
        assert(items@.take(0) =~= Seq::<Item>::empty());
        while i < items.len()
            invariant
                i <= items.len(),
                kept@ == past_retention(items@.take(i as int), episodes@, self.retention_period, *now),
            decreases items.len() - i,
        {
            assert(items@.take(i + 1).drop_last() =~= items@.take(i as int));
            let latest: Option<Timestamp> = if i < episodes.len() {
                max_last_played(episodes[i].as_slice())
            } else {
                None
            };
            match verdict(items[i].is_favorite(), latest, &self.retention_period, now) {
                Verdict::Eligible => {
                    kept.push(items[i].clone());
                },
                _ => {},
            }
            i += 1;
        }
        assert(items@.take(i as int) =~= items@);
        kept
    }

    /// The ids of the tags that are configured to be kept.
    pub fn forbidden_tags(&self, tags: &Vec<Tag>) -> (ids: Vec<u64>)
        ensures
            ids@ == forbidden_ids(tags@, self.tags_to_keep@),
    {
        forbidden_tags(tags, &self.tags_to_keep)
    }

    /// The series-catalog identifiers to look up, each once.
    pub fn tvdb_ids(&self, items: &[Item]) -> (ids: StringSet)
        ensures
            ids.order() == first_appearances(listed_ids(items@, Catalog::Tvdb)),
    {
        catalog_ids(items, Catalog::Tvdb)
    }

    /// The series to delete, from what the library holds for each looked-up
    /// identifier: those that are safe to delete.
    pub fn series_for_deletion(&self, found: Vec<Vec<SeriesInfo>>, tags: &Vec<Tag>) -> (series: Vec<
        SeriesInfo,
    >)
        ensures
            series@ == safe_of_all(found@, forbidden_ids(tags@, self.tags_to_keep@)),
    {
        let forbidden: Vec<u64> = self.forbidden_tags(tags);
        let ghost all = found@;
        let mut rest: Queue<Vec<SeriesInfo>> = Queue::new(found);
        let mut series: Vec<SeriesInfo> = Vec::new();
        let ghost mut done: Seq<Vec<SeriesInfo>> = Seq::empty();
        while rest.len() > 0
            invariant
                done + rest@ == all,
                forbidden@ == forbidden_ids(tags@, self.tags_to_keep@),
                series@ == safe_of_all(done, forbidden@),
            decreases rest@.len(),
        {
            let ghost before = rest@;
            let batch: Vec<SeriesInfo> = rest.next().unwrap();
            proof {
                assert(done.push(batch) + rest@ =~= done + before);
                assert(done.push(batch).drop_last() =~= done);
                done = done.push(batch);
            }
            let mut kept: Vec<SeriesInfo> = series_for_tvdb_id(batch, forbidden.as_slice());
            series.append(&mut kept);
        }
        assert(done =~= all);
        series
    }

    /// The series with at least one watched episode. `watched` holds for
    /// each series, at the same position, its watched episodes.
    pub fn all_watched_series(&self, series: &[Item], watched: &[Vec<Item>]) -> (kept: Vec<Item>)
        ensures
            kept@ == with_watched(series@, watched@),
    {
        let mut kept: Vec<Item> = Vec::new();
        let mut i: usize = 0;
        assert(series@.take(0) =~= Seq::<Item>::empty());
        while i < series.len()
            invariant
                i <= series.len(),
                kept@ == with_watched(series@.take(i as int), watched@),
            decreases series.len() - i,
        {
            assert(series@.take(i + 1).drop_last() =~= series@.take(i as int));
            if i < watched.len() && watched[i].len() > 0 {
                kept.push(series[i].clone());
            }
            i += 1;
        }
        assert(series@.take(i as int) =~= series@);
        kept
    }

    /// Adds to `ids` the monitored library episodes that the watched
    /// episodes of one series stand for. An episode without both ordinals is
    /// passed over.
    pub fn episodes_for_unmonitoring(
        &self,
        ids: &mut Vec<u64>,
        watched: &[Item],
        library: &[EpisodeInfo],
    )
        ensures
            final(ids)@ == with_matches(old(ids)@, watched@, library@),
    {
        let mut i: usize = 0;
        assert(watched@.take(0) =~= Seq::<Item>::empty());
        while i < watched.len()
            invariant
                i <= watched.len(),
                ids@ == with_matches(old(ids)@, watched@.take(i as int), library@),
            decreases watched.len() - i,
        {
            assert(watched@.take(i + 1).drop_last() =~= watched@.take(i as int));
            match (watched[i].season_number(), watched[i].episode_number()) {
                (Some(season), Some(episode)) => {
                    let mut at: usize = 0;
                    let mut found: Option<usize> = None;
                    while at < library.len() && found.is_none()
                        invariant
                            at <= library.len(),
                            found is None ==> monitored_from(library@, season, episode, 0)
                                == monitored_from(library@, season, episode, at as int),
                            found matches Some(k) ==> k < library@.len() && monitored_from(
                                library@,
                                season,
                                episode,
                                0,
                            ) == Some(k as int),
                        decreases library.len() - at, if found is None { 1int } else { 0int },
                    {
                        let monitored: bool = match library[at].monitored {
                            Some(flag) => flag,
                            None => true,
                        };
                        if library[at].season_number == season && library[at].episode_number
                            == episode && monitored {
                            found = Some(at);
                        } else {
                            at += 1;
                        }
                    }
                    match found {
                        Some(k) => {
                            push_new(ids, library[k].id);
                        },
                        None => {},
                    }
                },
                _ => {},
            }
            i += 1;
        }
        assert(watched@.take(i as int) =~= watched@);
    }

    /// What to do with the episodes that were found for unmonitoring.
    pub fn handle_unmonitor(&self, ids: Vec<u64>, force_delete: bool) -> (plan: UnmonitorPlan)
        ensures
            !self.unmonitor || ids@.len() == 0 ==> plan == UnmonitorPlan::Nothing,
            self.unmonitor && ids@.len() > 0 && force_delete ==> plan == (UnmonitorPlan::Unmonitor {
                ids,
            }),
            self.unmonitor && ids@.len() > 0 && !force_delete ==> plan == (UnmonitorPlan::DryRun {
                count: ids@.len() as usize,
            }),
    {
        if !self.unmonitor || ids.len() == 0 {
            UnmonitorPlan::Nothing
        } else if force_delete {
            UnmonitorPlan::Unmonitor { ids }
        } else {
            UnmonitorPlan::DryRun { count: ids.len() }
        }
    }

    /// What the run does with the series that were found: nothing where
    /// there are none, else it deletes them or, without the leave to delete,
    /// lists them.
    pub fn cleanup(&self, watched: &[Item], series: &[SeriesInfo], force_delete: bool) -> (plan:
        CleanupPlan)
        ensures
            plan@ == plan_for(watched@.len(), ids_of(series@), force_delete),
    {
        let mut ids: Vec<u64> = Vec::new();
        let mut i: usize = 0;
        while i < series.len()
            invariant
                i <= series.len(),
                ids@ == ids_of(series@).take(i as int),
            decreases series.len() - i,
        {
            ids.push(series[i].id);
            assert(ids@ =~= ids_of(series@).take(i + 1));
            i += 1;
        }
        assert(ids@ =~= ids_of(series@));
        plan_cleanup(watched.len(), ids.as_slice(), force_delete)
    }
}

} // verus!
