use sanitarr::cleaners::plan::CleanupPlan;
use sanitarr::cleaners::series::{
    evaluate, safe_to_delete, series_for_tvdb_id, Safety, SeriesCleaner, UnmonitorPlan,
};
use sanitarr::config::SonarrConfig;
use sanitarr::jellyfin::{Item, ItemUserData, ProviderIds};
use sanitarr::sonarr::{
    auth_headers, EpisodeInfo, Season, SeasonStatistics, SeriesInfo, SeriesStatistics,
};
use sanitarr::tags::Tag;
use sanitarr::time::{RetentionPeriod, Timestamp};

const FORBIDDEN_TAGS: &[u64] = &[4, 5, 6];

#[test]
fn test_safe_to_delete_as_fully_downloaded() {
    let season_1 = Season {
        statistics: SeasonStatistics {
            next_airing: None,
            episode_file_count: 1,
            total_episode_count: 1,
        },
    };
    let season_2 = Season {
        statistics: SeasonStatistics {
            next_airing: None,
            episode_file_count: 11,
            total_episode_count: 10,
        },
    };
    let series = SeriesInfo {
        statistics: SeriesStatistics { size_on_disk: 1 },
        seasons: Some(vec![season_1, season_2]),
        ..Default::default()
    };

    assert!(safe_to_delete(&series, &[]));
}

#[test]
fn test_safe_to_delete_as_wont_air() {
    let season = Season {
        statistics: SeasonStatistics {
            next_airing: None,
            episode_file_count: 1,
            total_episode_count: 10,
        },
    };
    let series = SeriesInfo {
        statistics: SeriesStatistics { size_on_disk: 1 },
        seasons: Some(vec![season]),
        ..Default::default()
    };

    assert!(safe_to_delete(&series, &[]));
}

#[test]
fn test_not_safe_to_delete_as_will_air() {
    let season_1 = Season {
        statistics: SeasonStatistics {
            next_airing: Some(Default::default()),
            episode_file_count: 1,
            total_episode_count: 2,
        },
    };
    let season_2 = Season {
        statistics: SeasonStatistics {
            next_airing: None,
            episode_file_count: 10,
            total_episode_count: 10,
        },
    };
    let series = SeriesInfo {
        statistics: SeriesStatistics { size_on_disk: 1 },
        seasons: Some(vec![season_1, season_2]),
        ..Default::default()
    };

    assert!(!safe_to_delete(&series, &[]));
}

#[test]
fn test_not_safe_to_delete_no_seasons() {
    let series = SeriesInfo {
        statistics: SeriesStatistics { size_on_disk: 1 },
        seasons: None,
        ..Default::default()
    };

    assert!(!safe_to_delete(&series, FORBIDDEN_TAGS));
}

#[test]
fn test_not_safe_to_delete_empty_seasons() {
    let series = SeriesInfo {
        tags: Some(vec![]),
        statistics: SeriesStatistics { size_on_disk: 1 },
        seasons: Some(vec![]),
        ..Default::default()
    };

    assert!(!safe_to_delete(&series, &[]));
}

#[test]
fn test_not_safe_to_delete_zero_size() {
    let series = SeriesInfo {
        statistics: SeriesStatistics { size_on_disk: 0 },
        seasons: Some(vec![]),
        ..Default::default()
    };

    assert!(!safe_to_delete(&series, FORBIDDEN_TAGS));
}

#[test]
fn test_not_safe_to_delete_forbidden_tags() {
    let series = SeriesInfo {
        tags: Some(vec![1, 2, 3, 4]),
        statistics: SeriesStatistics { size_on_disk: 1 },
        seasons: Some(vec![]),
        ..Default::default()
    };

    assert!(!safe_to_delete(&series, FORBIDDEN_TAGS));
}

#[test]
fn sonarr_client_test_auth_headers() {
    let headers = auth_headers("abc-key");
    assert_eq!(headers.len(), 1);
    assert_eq!(headers[0].name, "x-api-key");
    assert_eq!(headers[0].value, "abc-key");
}

fn season(files: usize, total: usize, airing: bool) -> Season {
    Season {
        statistics: SeasonStatistics {
            next_airing: if airing { Some(Timestamp::new(2_000_000_000, 0)) } else { None },
            episode_file_count: files,
            total_episode_count: total,
        },
    }
}

fn series(id: u64, tags: Option<Vec<u64>>, size: usize, seasons: Option<Vec<Season>>) -> SeriesInfo {
    SeriesInfo {
        title: format!("series {id}"),
        id,
        tags,
        statistics: SeriesStatistics { size_on_disk: size },
        seasons,
    }
}

#[test]
fn evaluate_gives_the_first_reason() {
    let settled = Some(vec![season(1, 1, false)]);
    assert_eq!(evaluate(&series(1, None, 1, settled.clone()), FORBIDDEN_TAGS), Safety::SafeToDelete);
    assert_eq!(
        evaluate(&series(1, Some(vec![5]), 0, None), FORBIDDEN_TAGS),
        Safety::ForbiddenTags
    );
    assert_eq!(evaluate(&series(1, None, 0, None), FORBIDDEN_TAGS), Safety::NotOnDisk);
    assert_eq!(evaluate(&series(1, None, 1, None), FORBIDDEN_TAGS), Safety::MissingSeasons);
    assert_eq!(evaluate(&series(1, None, 1, Some(vec![])), FORBIDDEN_TAGS), Safety::NoSeasons);
    assert_eq!(
        evaluate(&series(1, None, 1, Some(vec![season(1, 1, false), season(1, 2, true)])), &[]),
        Safety::Unfinished
    );
}

#[test]
fn a_season_with_all_files_is_settled_though_it_airs_again() {
    let listed = Some(vec![season(2, 2, true), season(0, 3, false)]);
    assert!(safe_to_delete(&series(1, None, 1, listed), &[]));
}

#[test]
fn a_tagged_series_stays_though_all_else_holds() {
    let listed = Some(vec![season(1, 1, false)]);
    assert!(!safe_to_delete(&series(1, Some(vec![9, 6]), 10, listed), FORBIDDEN_TAGS));
}

#[test]
fn series_filter_keeps_order() {
    let listed = Some(vec![season(1, 1, false)]);
    let found = vec![
        series(1, None, 1, listed.clone()),
        series(2, Some(vec![4]), 1, listed.clone()),
        series(3, None, 0, listed.clone()),
        series(4, None, 1, listed.clone()),
    ];
    let kept = series_for_tvdb_id(found, FORBIDDEN_TAGS);
    assert_eq!(kept.iter().map(|s| s.id).collect::<Vec<u64>>(), vec![1, 4]);
}

fn cleaner(retention: Option<RetentionPeriod>, unmonitor: bool) -> SeriesCleaner {
    SeriesCleaner::new(SonarrConfig {
        base_url: "http://localhost:8989".to_string(),
        api_key: "key".to_string(),
        retention_period: retention,
        tags_to_keep: vec!["keep".to_string()],
        unmonitor,
    })
}

fn item(name: &str, tvdb: Option<&str>, last_played: Option<i64>) -> Item {
    Item {
        name: name.to_string(),
        id: name.to_string(),
        provider_ids: Some(ProviderIds { tmdb: None, tvdb: tvdb.map(|s| s.to_string()) }),
        user_data: Some(ItemUserData {
            last_played_date: last_played.map(|secs| Timestamp::new(secs, 0)),
            is_favorite: false,
        }),
        parent_index_number: None,
        index_number: None,
    }
}

fn episode(name: &str, season: Option<u32>, number: Option<u32>, last_played: Option<i64>) -> Item {
    let mut it = item(name, None, last_played);
    it.parent_index_number = season;
    it.index_number = number;
    it
}

#[test]
fn series_go_by_the_latest_play_of_their_episodes() {
    let now = Timestamp::new(10_000_000, 0);
    let day = RetentionPeriod::from_secs(24 * 3600);
    let old = 10_000_000 - 25 * 3600;
    let recent = 10_000_000 - 23 * 3600;
    // The series' own record says "long ago" for all three: it is not consulted.
    let items = vec![item("a", Some("1"), Some(0)), item("b", Some("2"), Some(0)), item("c", Some("3"), Some(0))];
    let episodes = vec![
        vec![episode("a1", Some(1), Some(1), Some(old)), episode("a2", Some(1), Some(2), None)],
        vec![episode("b1", Some(1), Some(1), Some(old)), episode("b2", Some(1), Some(2), Some(recent))],
        vec![episode("c1", Some(1), Some(1), None)],
    ];
    let kept = cleaner(Some(day), false).watched_items(&items, &episodes, &now);
    assert_eq!(kept, vec![items[0].clone()]);

    // Without a retention period every series passes, and no episodes are needed.
    let kept = cleaner(None, false).watched_items(&items, &[], &now);
    assert_eq!(kept, items);
}

#[test]
fn series_for_deletion_flattens_the_batches() {
    let listed = Some(vec![season(1, 1, false)]);
    let tags = vec![Tag { label: "keep".to_string(), id: 4 }];
    let found = vec![
        vec![series(1, None, 1, listed.clone())],
        vec![series(2, Some(vec![4]), 1, listed.clone()), series(3, None, 1, listed.clone())],
    ];
    let c = cleaner(None, false);
    let kept = c.series_for_deletion(found, &tags);
    assert_eq!(kept.iter().map(|s| s.id).collect::<Vec<u64>>(), vec![1, 3]);
    let items = vec![item("a", Some("1"), None)];
    assert_eq!(c.cleanup(&items, &kept, true), CleanupPlan::Delete { ids: vec![1, 3] });
    assert_eq!(c.cleanup(&items, &kept, false), CleanupPlan::List { ids: vec![1, 3] });
    assert_eq!(c.cleanup(&items, &[], true), CleanupPlan::NothingToDelete);
    assert_eq!(c.cleanup(&[], &kept, true), CleanupPlan::NothingWatched);
    assert_eq!(c.tvdb_ids(&items).as_slice(), &["1".to_string()]);
}

#[test]
fn unmonitoring_matches_monitored_episodes_only() {
    let library = vec![
        EpisodeInfo { id: 1, season_number: 1, episode_number: 1, episode_file_id: None, monitored: Some(false) },
        EpisodeInfo { id: 2, season_number: 1, episode_number: 1, episode_file_id: None, monitored: None },
        EpisodeInfo { id: 3, season_number: 1, episode_number: 2, episode_file_id: None, monitored: Some(true) },
        EpisodeInfo { id: 4, season_number: 1, episode_number: 3, episode_file_id: None, monitored: Some(false) },
    ];
    let watched = vec![
        episode("e1", Some(1), Some(1), None),
        episode("e2", Some(1), Some(2), None),
        episode("e3", Some(1), Some(3), None),
        episode("e4", None, Some(2), None),
        episode("e1 again", Some(1), Some(1), None),
    ];
    let c = cleaner(None, true);
    let mut ids = vec![3];
    c.episodes_for_unmonitoring(&mut ids, &watched, &library);
    assert_eq!(ids, vec![3, 2]);

    assert_eq!(c.handle_unmonitor(vec![], true), UnmonitorPlan::Nothing);
    assert_eq!(c.handle_unmonitor(vec![3, 2], true), UnmonitorPlan::Unmonitor { ids: vec![3, 2] });
    assert_eq!(c.handle_unmonitor(vec![3, 2], false), UnmonitorPlan::DryRun { count: 2 });
    assert_eq!(cleaner(None, false).handle_unmonitor(vec![3, 2], true), UnmonitorPlan::Nothing);

    let with_id = item("a", Some("77"), None);
    let without_id = item("b", None, None);
    assert_eq!(c.unmonitor_lookup(&with_id, &watched), Some("77".to_string()));
    assert_eq!(c.unmonitor_lookup(&with_id, &[]), None);
    assert_eq!(c.unmonitor_lookup(&without_id, &watched), None);
    assert!(!c.needs_episode_plays());
    assert!(cleaner(Some(RetentionPeriod::from_secs(1)), false).needs_episode_plays());
}

#[test]
fn series_with_watched_episodes() {
    let items = vec![item("a", Some("1"), None), item("b", Some("2"), None), item("c", Some("3"), None)];
    let watched = vec![vec![episode("a1", Some(1), Some(1), None)], vec![]];
    let kept = cleaner(None, true).all_watched_series(&items, &watched);
    assert_eq!(kept, vec![items[0].clone()]);
}
