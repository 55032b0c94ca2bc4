//! Cleanup of watched movies.

use vstd::prelude::*;
use crate::cleaners::plan::{plan_cleanup, plan_for, CleanupPlan};
use crate::config::RadarrConfig;
use crate::jellyfin::{catalog_ids, listed_ids, Catalog, Item};
use crate::queue::Queue;
use crate::radarr::Movie;
use crate::retention::{deletes_immediately, is_eligible, retain_eligible};
use crate::string_set::StringSet;
use crate::tags::{carries_forbidden, forbidden_ids, forbidden_tags, has_forbidden_tags, Tag};
use crate::time::{RetentionPeriod, Timestamp};
use crate::uniq::first_appearances;

verus! {

/// Whether a movie may be deleted: it carries none of the forbidden tags.
pub open spec fn is_safe(movie: Movie, forbidden_tags: Seq<u64>) -> bool {
    !carries_forbidden(movie.tags, forbidden_tags)
}

/// The same as a predicate on movies.
pub open spec fn safe(forbidden_tags: Seq<u64>) -> spec_fn(Movie) -> bool {
    |movie: Movie| is_safe(movie, forbidden_tags)
}

/// The movies of all batches that may be deleted, batch after batch.
pub open spec fn safe_of_all(batches: Seq<Vec<Movie>>, forbidden_tags: Seq<u64>) -> Seq<Movie>
    decreases batches.len(),
{
    if batches.len() == 0 {
        Seq::empty()
    } else {
        safe_of_all(batches.drop_last(), forbidden_tags) + batches.last()@.filter(
            safe(forbidden_tags),
        )
    }
}

/// The ids of the movies, in their order.
pub open spec fn ids_of(movies: Seq<Movie>) -> Seq<u64> {
    movies.map_values(|movie: Movie| movie.id)
}

/// A movie that carries a forbidden tag is never safe to delete, whatever
/// else holds of it.
pub proof fn lemma_tagged_movie_is_kept(movie: Movie, forbidden_tags: Seq<u64>, i: int)
    requires
        movie.tags matches Some(tags) && 0 <= i < tags@.len() && forbidden_tags.contains(tags@[i]),
    ensures
        !is_safe(movie, forbidden_tags),
{
}

/// A movie that carries a forbidden tag is in no list of movies to delete.
pub proof fn lemma_tagged_movie_not_listed(
    batches: Seq<Vec<Movie>>,
    forbidden_tags: Seq<u64>,
    k: int,
)
    requires
        0 <= k < safe_of_all(batches, forbidden_tags).len(),
    ensures
        !carries_forbidden(safe_of_all(batches, forbidden_tags)[k].tags, forbidden_tags),
    decreases batches.len(),
{
    if batches.len() > 0 {
        let front = safe_of_all(batches.drop_last(), forbidden_tags);
        let back = batches.last()@.filter(safe(forbidden_tags));
        if k < front.len() {
            lemma_tagged_movie_not_listed(batches.drop_last(), forbidden_tags, k);
        } else {
            batches.last()@.lemma_filter_pred(safe(forbidden_tags), k - front.len());
        }
    }
}

/// Checks whether a movie may be deleted.
pub fn safe_to_delete(movie: &Movie, forbidden_tags: &[u64]) -> (ok: bool)
    ensures
        ok == is_safe(*movie, forbidden_tags@),
{
    !has_forbidden_tags(&movie.tags, forbidden_tags)
}

/// The movies among `movies` that may be deleted, in their order. A catalog
/// identifier may stand for several movies of the library.
pub fn filter_movies(movies: Vec<Movie>, forbidden_tags: &[u64]) -> (kept: Vec<Movie>)
    ensures
        kept@ == movies@.filter(safe(forbidden_tags@)),
{
    let ghost all = movies@;
    let mut rest: Queue<Movie> = Queue::new(movies);
    let mut kept: Vec<Movie> = Vec::new();
    let ghost mut done: Seq<Movie> = Seq::empty();
    while rest.len() > 0
        invariant
            done + rest@ == all,
            kept@ == done.filter(safe(forbidden_tags@)),
        decreases rest@.len(),
    {
        let ghost before = rest@;
        let movie: Movie = rest.next().unwrap();
        proof {
            done.lemma_filter_push(movie, safe(forbidden_tags@));
            assert(done.push(movie) + rest@ =~= done + before);
            done = done.push(movie);
        }
        if safe_to_delete(&movie, forbidden_tags) {
            kept.push(movie);
        }
    }
    assert(done =~= all);
    kept
}

/// Decides for the movie library what to delete.
#[derive(Debug, PartialEq, Eq)]
pub struct MoviesCleaner {
    pub tags_to_keep: Vec<String>,
    pub retention_period: Option<RetentionPeriod>,
}

impl MoviesCleaner {
    pub fn new(radarr_config: RadarrConfig) -> (cleaner: MoviesCleaner)
        ensures
            cleaner.tags_to_keep == radarr_config.tags_to_keep,
            cleaner.retention_period == radarr_config.retention_period,
    {
        MoviesCleaner {
            tags_to_keep: radarr_config.tags_to_keep,
            retention_period: radarr_config.retention_period,
        }
    }

    /// Whether the caller has to warn that movies go at once.
    pub fn deletes_immediately(&self, items: &[Item]) -> (warn: bool)
        ensures
            warn == (self.retention_period is None && items@.len() > 0),
    {
        deletes_immediately(&self.retention_period, items)
    }

    /// The watched movies that are past their retention at `now`.
    pub fn watched_items(&self, items: &[Item], now: &Timestamp) -> (kept: Vec<Item>)
        ensures
            kept@ == items@.filter(is_eligible(self.retention_period, *now)),
    {
        retain_eligible(items, &self.retention_period, now)
    }

    /// The ids of the tags that are configured to be kept.
    pub fn forbidden_tags(&self, tags: &Vec<Tag>) -> (ids: Vec<u64>)
        ensures
            ids@ == forbidden_ids(tags@, self.tags_to_keep@),
    {
        forbidden_tags(tags, &self.tags_to_keep)
    }

    /// The movie-catalog identifiers to look up, each once.
    pub fn tmdb_ids(&self, items: &[Item]) -> (ids: StringSet)
        ensures
            ids.order() == first_appearances(listed_ids(items@, Catalog::Tmdb)),
    {
        catalog_ids(items, Catalog::Tmdb)
    }

    /// The movies to delete, from what the library holds for each looked-up
    /// identifier: those that no forbidden tag protects.
    pub fn movies_for_deletion(&self, found: Vec<Vec<Movie>>, tags: &Vec<Tag>) -> (movies: Vec<Movie>)
        ensures
            movies@ == safe_of_all(found@, forbidden_ids(tags@, self.tags_to_keep@)),
    {
        let forbidden: Vec<u64> = self.forbidden_tags(tags);
        let ghost all = found@;
        let mut rest: Queue<Vec<Movie>> = Queue::new(found);
        let mut movies: Vec<Movie> = Vec::new();
        let ghost mut done: Seq<Vec<Movie>> = Seq::empty();
        while rest.len() > 0
            invariant
                done + rest@ == all,
                forbidden@ == forbidden_ids(tags@, self.tags_to_keep@),
                movies@ == safe_of_all(done, forbidden@),
            decreases rest@.len(),
        {
            let ghost before = rest@;
            let batch: Vec<Movie> = rest.next().unwrap();
            proof {
                assert(done.push(batch) + rest@ =~= done + before);
                assert(done.push(batch).drop_last() =~= done);
                done = done.push(batch);
            }
            let mut kept: Vec<Movie> = filter_movies(batch, forbidden.as_slice());
            movies.append(&mut kept);
        }
        assert(done =~= all);
        movies
    }

    /// What the run does with the movies that were found: nothing where
    /// there are none, else it deletes them or, without the leave to delete,
    /// lists them.
    pub fn cleanup(&self, watched: &[Item], movies: &[Movie], force_delete: bool) -> (plan:
        CleanupPlan)
        ensures
            plan@ == plan_for(watched@.len(), ids_of(movies@), force_delete),
    {
        let mut ids: Vec<u64> = Vec::new();
        let mut i: usize = 0;
        while i < movies.len()
            invariant
                i <= movies.len(),
                ids@ == ids_of(movies@).take(i as int),
            decreases movies.len() - i,
        {
            ids.push(movies[i].id);
            assert(ids@ =~= ids_of(movies@).take(i + 1));
            i += 1;
        }
        assert(ids@ =~= ids_of(movies@));
        plan_cleanup(watched.len(), ids.as_slice(), force_delete)
    }
}

} // verus!
