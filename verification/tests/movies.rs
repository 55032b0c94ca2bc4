use sanitarr::cleaners::movies::{filter_movies, safe_to_delete, MoviesCleaner};
use sanitarr::cleaners::plan::CleanupPlan;
use sanitarr::config::RadarrConfig;
use sanitarr::jellyfin::{Item, ItemUserData, ProviderIds};
use sanitarr::radarr::{auth_headers, Movie};
use sanitarr::tags::{forbidden_tags, has_forbidden_tags, is_resolved, Tag};
use sanitarr::time::{RetentionPeriod, Timestamp};

fn movie(id: u64, tags: Option<Vec<u64>>) -> Movie {
    Movie { title: format!("movie {id}"), id, tags }
}

fn cleaner(retention: Option<RetentionPeriod>) -> MoviesCleaner {
    MoviesCleaner::new(RadarrConfig {
        base_url: "http://localhost:7878".to_string(),
        api_key: "key".to_string(),
        retention_period: retention,
        tags_to_keep: vec!["keep".to_string()],
        unmonitor: false,
    })
}

fn watched(name: &str, tmdb: Option<&str>, last_played: Option<i64>, favorite: bool) -> Item {
    Item {
        name: name.to_string(),
        id: name.to_string(),
        provider_ids: Some(ProviderIds { tmdb: tmdb.map(|s| s.to_string()), tvdb: None }),
        user_data: Some(ItemUserData {
            last_played_date: last_played.map(|secs| Timestamp::new(secs, 0)),
            is_favorite: favorite,
        }),
        parent_index_number: None,
        index_number: None,
    }
}

#[test]
fn test_movie_safe_to_delete() {
    let movie = Movie {
        title: "movie".to_string(),
        tags: Some(vec![1, 2, 3]),
        id: 1,
    };
    assert!(safe_to_delete(&movie, &[]));
}

#[test]
fn test_movie_not_safe_to_delete_forbidden_tags() {
    let movie = Movie {
        title: "movie".to_string(),
        tags: Some(vec![5]),
        id: 1,
    };
    assert!(!safe_to_delete(&movie, &[4, 5, 6]));
}

#[test]
fn radarr_client_test_auth_headers() {
    let headers = auth_headers("abc-key");
    assert_eq!(headers.len(), 1);
    assert_eq!(headers[0].name, "x-api-key");
    assert_eq!(headers[0].value, "abc-key");
    assert!(headers[0].sensitive);
}

#[test]
fn movie_without_tags_is_safe() {
    assert!(safe_to_delete(&movie(1, None), &[4, 5, 6]));
    assert!(safe_to_delete(&movie(1, Some(vec![])), &[4, 5, 6]));
    assert!(safe_to_delete(&movie(1, Some(vec![1, 2, 3])), &[4, 5, 6]));
}

#[test]
fn forbidden_tag_wins_whatever_else_holds() {
    // one forbidden tag among others is enough
    assert!(!safe_to_delete(&movie(1, Some(vec![1, 2, 6])), &[4, 5, 6]));
    assert!(has_forbidden_tags(&Some(vec![1, 2, 6]), &[4, 5, 6]));
    assert!(!has_forbidden_tags(&Some(vec![1, 2, 3]), &[4, 5, 6]));
    assert!(!has_forbidden_tags(&None, &[4, 5, 6]));
    assert!(!has_forbidden_tags(&Some(vec![1]), &[]));
}

#[test]
fn tag_names_resolve_to_ids_in_listing_order() {
    let tags = vec![
        Tag { label: "a".to_string(), id: 7 },
        Tag { label: "keep".to_string(), id: 3 },
        Tag { label: "b".to_string(), id: 9 },
        Tag { label: "precious".to_string(), id: 1 },
    ];
    let keep = vec!["precious".to_string(), "keep".to_string(), "unknown".to_string()];
    assert_eq!(forbidden_tags(&tags, &keep), vec![3, 1]);
    assert!(is_resolved(&tags, &keep[0]));
    assert!(!is_resolved(&tags, &keep[2]));
    assert_eq!(forbidden_tags(&tags, &vec![]), Vec::<u64>::new());
    // names are compared as they are written
    assert_eq!(forbidden_tags(&tags, &vec!["Keep".to_string()]), Vec::<u64>::new());
}

#[test]
fn filter_movies_keeps_order() {
    let movies = vec![
        movie(1, Some(vec![1])),
        movie(2, Some(vec![5])),
        movie(3, None),
        movie(4, Some(vec![2, 4])),
    ];
    let kept = filter_movies(movies, &[4, 5, 6]);
    assert_eq!(kept, vec![movie(1, Some(vec![1])), movie(3, None)]);
}

#[test]
fn movies_for_deletion_flattens_the_batches() {
    let tags = vec![Tag { label: "keep".to_string(), id: 5 }];
    let found = vec![
        vec![movie(1, Some(vec![1])), movie(2, Some(vec![5]))],
        vec![],
        vec![movie(3, None)],
    ];
    let movies = cleaner(None).movies_for_deletion(found, &tags);
    assert_eq!(movies, vec![movie(1, Some(vec![1])), movie(3, None)]);
}

#[test]
fn tmdb_ids_are_looked_up_once() {
    let items = vec![
        watched("a", Some("10"), None, false),
        watched("b", None, None, false),
        watched("c", Some("20"), None, false),
        watched("d", Some("10"), None, false),
    ];
    let ids = cleaner(None).tmdb_ids(&items);
    assert_eq!(ids.as_slice(), &["10".to_string(), "20".to_string()]);
    assert_eq!(items[0].tmdb_id(), Some("10"));
    assert_eq!(items[1].tmdb_id(), None);
    assert_eq!(items[0].tvdb_id(), None);
}

#[test]
fn watched_movies_pass_only_after_the_retention_period() {
    let now = Timestamp::new(1_000_000, 0);
    let day = RetentionPeriod::from_secs(24 * 3600);
    let items = vec![
        watched("old", Some("1"), Some(1_000_000 - 25 * 3600), false),
        watched("recent", Some("2"), Some(1_000_000 - 23 * 3600), false),
        watched("never", Some("3"), None, false),
        watched("favorite", Some("4"), Some(0), true),
    ];
    let with = cleaner(Some(day));
    assert_eq!(with.watched_items(&items, &now), vec![items[0].clone()]);
    assert!(!with.deletes_immediately(&items));

    let without = cleaner(None);
    assert_eq!(
        without.watched_items(&items, &now),
        vec![items[0].clone(), items[1].clone(), items[2].clone()]
    );
    assert!(without.deletes_immediately(&items));
    assert!(!without.deletes_immediately(&[]));
}

#[test]
fn cleanup_plan_for_movies() {
    let c = cleaner(None);
    let items = vec![watched("a", Some("10"), None, false)];
    let movies = vec![movie(7, None), movie(3, None), movie(7, None)];
    assert_eq!(c.cleanup(&[], &movies, true), CleanupPlan::NothingWatched);
    assert_eq!(c.cleanup(&items, &[], true), CleanupPlan::NothingToDelete);
    assert_eq!(c.cleanup(&items, &movies, true), CleanupPlan::Delete { ids: vec![7, 3] });
    assert_eq!(c.cleanup(&items, &movies, false), CleanupPlan::List { ids: vec![7, 3] });
}
