use sanitarr::download_service::{wants_deletion, DownloadService, Listing, Removal};
use sanitarr::downloads::{download_ids, DownloadIds, KindHashes};
use sanitarr::history::{
    History, HistoryPager, HistoryRecord, HistoryRecordData, GRABBED_EVENT, PAGE_SIZE,
};
use sanitarr::string_set::StringSet;
use sanitarr::torrent_clients::deluge::{
    check_response, hashes_to_lower, DelugeError, DelugeFailure, DelugeParams, DelugeRequest,
    ResultKind,
};
use sanitarr::torrent_clients::qbittorrent::to_bar_separated_string;
use sanitarr::torrent_clients::{ClientError, TorrentClient, TorrentClientKind};
use std::sync::{Arc, Mutex};

#[test]
fn test_download_id_and_client() {
    let history_record = HistoryRecord {
        download_id: "foo".to_owned().into(),
        data: Some(HistoryRecordData {
            download_client: Some(TorrentClientKind::Deluge),
        }),
    };
    let (client, download_id) = history_record.download_id_per_client().unwrap();
    assert!(matches!(client, TorrentClientKind::Deluge));
    assert_eq!(download_id, "foo");
}

#[test]
fn test_download_id_and_client_no_id() {
    let history_record = HistoryRecord {
        download_id: None,
        data: Some(HistoryRecordData {
            download_client: Some(TorrentClientKind::Deluge),
        }),
    };
    assert!(history_record.download_id_per_client().is_none());
}

#[test]
fn test_download_id_and_client_no_data() {
    let history_record = HistoryRecord {
        download_id: "foo".to_owned().into(),
        data: None,
    };
    assert!(history_record.download_id_per_client().is_none());
}

#[test]
fn test_download_id_and_client_no_client() {
    let history_record = HistoryRecord {
        download_id: "foo".to_owned().into(),
        data: Some(HistoryRecordData {
            download_client: None,
        }),
    };
    assert!(history_record.download_id_per_client().is_none());
}

#[test]
fn test_serde() {
    let s = r#"{"qbittorrent":"qBittorrenT", "deluge":"deluge", "other":"foo"}"#;
    let parsed: serde_json::Value = serde_json::from_str(s).unwrap();
    let kind = |field: &str| TorrentClientKind::from_name(parsed[field].as_str().unwrap().to_string());
    assert!(matches!(kind("qbittorrent"), TorrentClientKind::Qbittorrent));
    assert!(matches!(kind("deluge"), TorrentClientKind::Deluge));
    assert!(matches!(kind("other"), TorrentClientKind::Other(s) if s == "foo"));
}

#[test]
fn test_to_bar_separated_string() {
    let hashes = &["hash1".to_owned(), "hash2".to_owned(), "hash3".to_owned()];
    let result = to_bar_separated_string(hashes);
    assert_eq!(result, "hash1|hash2|hash3");
}

#[test]
fn test_to_bar_separated_string_empty() {
    let hashes: Vec<String> = vec![];
    let result = to_bar_separated_string(&hashes);
    assert_eq!(result, "none");
}

#[test]
fn bar_separated_single_hash() {
    assert_eq!(to_bar_separated_string(&["only".to_owned()]), "only");
}

#[test]
fn kinds_by_name() {
    assert_eq!(TorrentClientKind::from_name("DELUGE".to_string()), TorrentClientKind::Deluge);
    assert_eq!(TorrentClientKind::from_name("Deluge".to_string()), TorrentClientKind::Deluge);
    assert_eq!(
        TorrentClientKind::from_name("QBITTORRENT".to_string()),
        TorrentClientKind::Qbittorrent
    );
    // an unknown name keeps its own spelling
    assert_eq!(
        TorrentClientKind::from_name("Transmission".to_string()),
        TorrentClientKind::Other("Transmission".to_string())
    );
    assert_eq!(
        TorrentClientKind::from_name(" deluge".to_string()),
        TorrentClientKind::Other(" deluge".to_string())
    );
    assert_eq!(TorrentClientKind::from_name(String::new()), TorrentClientKind::Other(String::new()));
    // classify goes by the lowered name that it is handed
    assert_eq!(
        TorrentClientKind::classify("anything".to_string(), &"deluge".to_string()),
        TorrentClientKind::Deluge
    );
    assert_eq!(
        TorrentClientKind::classify("deluge".to_string(), &"other".to_string()),
        TorrentClientKind::Other("deluge".to_string())
    );
}

#[test]
fn kinds_are_shown_by_name() {
    assert_eq!(TorrentClientKind::Deluge.name(), "Deluge");
    assert_eq!(TorrentClientKind::Qbittorrent.name(), "qBittorrent");
    assert_eq!(TorrentClientKind::Other("foo".to_string()).name(), "foo");
    assert!(TorrentClientKind::Deluge.same(&TorrentClientKind::Deluge));
    assert!(!TorrentClientKind::Deluge.same(&TorrentClientKind::Qbittorrent));
    assert!(TorrentClientKind::Other("a".into()).same(&TorrentClientKind::Other("a".into())));
    assert!(!TorrentClientKind::Other("a".into()).same(&TorrentClientKind::Other("b".into())));
    let kind = TorrentClientKind::Other("a".into());
    assert_eq!(kind.clone(), kind);
}

fn set(hashes: &[&str]) -> StringSet {
    let owned: Vec<String> = hashes.iter().map(|h| h.to_string()).collect();
    StringSet::from_slice(&owned)
}

#[test]
fn string_sets_keep_each_string_once() {
    let mut hashes = StringSet::new();
    assert!(hashes.is_empty());
    assert!(hashes.insert("b".to_string()));
    assert!(hashes.insert("a".to_string()));
    assert!(!hashes.insert("b".to_string()));
    assert_eq!(hashes.len(), 2);
    assert!(hashes.contains(&"a".to_string()));
    assert!(!hashes.contains(&"A".to_string()));
    assert_eq!(hashes.as_slice(), &["b".to_string(), "a".to_string()]);
    assert_eq!(set(&["x", "y", "x", "z", "y"]).as_slice(), set(&["x", "y", "z"]).as_slice());
}

#[test]
fn deluge_wants_lower_case() {
    let lowered = hashes_to_lower(&set(&["ABCDEF0123", "abcdef0123", "Ff00", "ÄÖ"]));
    assert_eq!(
        lowered.as_slice(),
        &["abcdef0123".to_string(), "ff00".to_string(), "äö".to_string()]
    );
    assert!(hashes_to_lower(&StringSet::new()).is_empty());
}

#[test]
fn deluge_calls() {
    let call = DelugeRequest::Login("secret").to_call();
    assert_eq!(call.method, "auth.login");
    assert_eq!(call.id, 1);
    assert!(matches!(call.params, DelugeParams::Login { password } if password == "secret"));

    let hashes = set(&["AA", "BB"]);
    let call = DelugeRequest::ListTorrents(&hashes).to_call();
    assert_eq!(call.method, "core.get_torrents_status");
    match call.params {
        DelugeParams::Status { ids, states, fields } => {
            assert_eq!(ids.as_slice(), &["aa".to_string(), "bb".to_string()]);
            assert_eq!(states, vec!["Seeding"]);
            assert_eq!(fields, vec!["name", "state"]);
        }
        other => panic!("unexpected {other:?}"),
    }

    let call = DelugeRequest::DeleteTorrents(&hashes).to_call();
    assert_eq!(call.method, "core.remove_torrents");
    match call.params {
        DelugeParams::Remove { ids, remove_data } => {
            assert_eq!(ids.as_slice(), &["aa".to_string(), "bb".to_string()]);
            assert!(remove_data);
        }
        other => panic!("unexpected {other:?}"),
    }
}

#[test]
fn deluge_answers() {
    assert_eq!(check_response(None, ResultKind::Value), Ok(true));
    assert_eq!(check_response(None, ResultKind::Absent), Ok(false));
    assert_eq!(check_response(None, ResultKind::False), Err(DelugeFailure::Falsy));
    let error = || Some(DelugeError { message: "Not authenticated".to_string(), code: -1 });
    let failure = check_response(error(), ResultKind::Value).unwrap_err();
    assert_eq!(failure, DelugeFailure::Api { message: "Not authenticated".to_string(), code: -1 });
    assert_eq!(failure.message(), "failed to call Deluge api: Not authenticated (error code -1)");
    assert_eq!(check_response(error(), ResultKind::False), check_response(error(), ResultKind::Absent));
    assert_eq!(DelugeFailure::Falsy.message(), "Deluge API returned falsy response");
    let extreme = DelugeFailure::Api { message: String::new(), code: i64::MIN };
    assert_eq!(
        extreme.message(),
        "failed to call Deluge api:  (error code -9223372036854775808)"
    );
}

fn record(kind: Option<TorrentClientKind>, hash: Option<&str>) -> HistoryRecord {
    HistoryRecord {
        download_id: hash.map(|h| h.to_string()),
        data: Some(HistoryRecordData { download_client: kind }),
    }
}

#[test]
fn downloads_are_sorted_by_client_kind() {
    let records = vec![
        record(Some(TorrentClientKind::Qbittorrent), Some("A")),
        record(Some(TorrentClientKind::Deluge), Some("B")),
        record(None, Some("C")),
        record(Some(TorrentClientKind::Qbittorrent), None),
        record(Some(TorrentClientKind::Other("x".into())), Some("D")),
        record(Some(TorrentClientKind::Qbittorrent), Some("E")),
        record(Some(TorrentClientKind::Qbittorrent), Some("A")),
        record(Some(TorrentClientKind::Deluge), Some("A")),
        HistoryRecord { download_id: Some("F".into()), data: None },
    ];
    let ids = download_ids(records);
    assert!(!ids.is_empty());
    let groups: Vec<(TorrentClientKind, Vec<String>)> =
        ids.groups.iter().map(|g| (g.kind.clone(), g.hashes.as_slice().to_vec())).collect();
    assert_eq!(
        groups,
        vec![
            (TorrentClientKind::Qbittorrent, vec!["A".to_string(), "E".to_string()]),
            (TorrentClientKind::Deluge, vec!["B".to_string(), "A".to_string()]),
            (TorrentClientKind::Other("x".into()), vec!["D".to_string()]),
        ]
    );
    assert!(download_ids(vec![]).is_empty());
    assert!(download_ids(vec![record(None, None)]).is_empty());
}

struct MockTorrentClient {
    listed_hashes: Arc<Mutex<Vec<String>>>,
    deleted_hashes: Arc<Mutex<Vec<String>>>,
    names: Vec<String>,
    fail_listing: bool,
}

impl MockTorrentClient {
    fn new() -> Self {
        Self {
            listed_hashes: Arc::new(Mutex::new(Vec::new())),
            deleted_hashes: Arc::new(Mutex::new(Vec::new())),
            names: vec!["foo".to_string(), "bar".to_string(), "baz".to_string()],
            fail_listing: false,
        }
    }
}

impl TorrentClient for MockTorrentClient {
    fn list_torrents(&self, hashes: &StringSet) -> Result<Vec<String>, ClientError> {
        if self.fail_listing {
            return Err(ClientError { message: "down".to_string() });
        }
        let mut listed_hashes = self.listed_hashes.lock().unwrap();
        listed_hashes.clear();
        listed_hashes.extend(hashes.as_slice().iter().cloned());
        Ok(self.names.clone())
    }

    fn delete_torrents(&self, hashes: &StringSet) -> Result<(), ClientError> {
        let mut deleted_hashes = self.deleted_hashes.lock().unwrap();
        deleted_hashes.extend(hashes.as_slice().iter().cloned());
        Ok(())
    }
}

fn ids_for(kind: TorrentClientKind, hashes: &[&str]) -> DownloadIds {
    DownloadIds { groups: vec![KindHashes { kind, hashes: set(hashes) }] }
}

#[test]
fn test_download_service() {
    let client = MockTorrentClient::new();
    let listed_hashes = client.listed_hashes.clone();
    let deleted_hashes = client.deleted_hashes.clone();

    let service = DownloadService::new(vec![(TorrentClientKind::Qbittorrent, client)]);

    let listed = vec!["a".to_string(), "b".to_string(), "c".to_string()];
    let listed_map = ids_for(TorrentClientKind::Qbittorrent, &["a", "b", "c"]);

    service.list(&listed_map).unwrap();
    assert_eq!(*listed_hashes.lock().unwrap(), listed);

    let deleted = vec!["d".to_string(), "e".to_string(), "f".to_string()];
    let deleted_map = ids_for(TorrentClientKind::Qbittorrent, &["d", "e", "f"]);

    service.delete(&deleted_map).unwrap();

    assert_eq!(*listed_hashes.lock().unwrap(), deleted);
    assert_eq!(*deleted_hashes.lock().unwrap(), deleted);
}

#[test]
fn test_download_service_undefined_client() {
    let client = MockTorrentClient::new();
    let listed_hashes = client.listed_hashes.clone();
    let deleted_hashes = client.deleted_hashes.clone();

    let service = DownloadService::new(vec![(TorrentClientKind::Qbittorrent, client)]);

    let listed_map = ids_for(TorrentClientKind::Deluge, &["a", "b", "c"]);

    assert_eq!(service.list(&listed_map), Ok(vec![Listing::Unconfigured]));
    assert!(listed_hashes.lock().unwrap().is_empty());

    let deleted_map = ids_for(TorrentClientKind::Deluge, &["d", "e", "f"]);

    assert_eq!(service.delete(&deleted_map), Ok(vec![Removal::Unconfigured]));

    assert!(listed_hashes.lock().unwrap().is_empty());
    assert!(deleted_hashes.lock().unwrap().is_empty());
}

#[test]
fn download_service_deletes_only_what_the_client_holds() {
    let mut empty = MockTorrentClient::new();
    empty.names = vec![];
    let deleted_by_empty = empty.deleted_hashes.clone();
    let full = MockTorrentClient::new();
    let deleted_by_full = full.deleted_hashes.clone();
    let service = DownloadService::new(vec![
        (TorrentClientKind::Deluge, empty),
        (TorrentClientKind::Qbittorrent, full),
    ]);
    let ids = DownloadIds {
        groups: vec![
            KindHashes { kind: TorrentClientKind::Deluge, hashes: set(&["a"]) },
            KindHashes { kind: TorrentClientKind::Other("x".into()), hashes: set(&["b"]) },
            KindHashes { kind: TorrentClientKind::Qbittorrent, hashes: set(&["c"]) },
        ],
    };
    assert_eq!(
        service.delete(&ids),
        Ok(vec![
            Removal::NothingFound,
            Removal::Unconfigured,
            Removal::Deleted { names: vec!["foo".into(), "bar".into(), "baz".into()] },
        ])
    );
    assert!(deleted_by_empty.lock().unwrap().is_empty());
    assert_eq!(*deleted_by_full.lock().unwrap(), vec!["c".to_string()]);
    assert_eq!(service.delete(&DownloadIds { groups: vec![] }), Ok(vec![]));
    assert!(service.get_client(&TorrentClientKind::Deluge).is_some());
    assert!(service.get_client(&TorrentClientKind::Other("x".into())).is_none());
    assert!(wants_deletion(&vec!["foo".to_string()]));
    assert!(!wants_deletion(&vec![]));
}

#[test]
fn download_service_stops_at_the_first_failure() {
    let mut broken = MockTorrentClient::new();
    broken.fail_listing = true;
    let healthy = MockTorrentClient::new();
    let deleted_by_healthy = healthy.deleted_hashes.clone();
    let service = DownloadService::new(vec![
        (TorrentClientKind::Deluge, broken),
        (TorrentClientKind::Qbittorrent, healthy),
    ]);
    let ids = DownloadIds {
        groups: vec![
            KindHashes { kind: TorrentClientKind::Deluge, hashes: set(&["a"]) },
            KindHashes { kind: TorrentClientKind::Qbittorrent, hashes: set(&["c"]) },
        ],
    };
    assert_eq!(service.delete(&ids), Err(ClientError { message: "down".to_string() }));
    assert_eq!(service.list(&ids), Err(ClientError { message: "down".to_string() }));
    assert!(deleted_by_healthy.lock().unwrap().is_empty());
}

#[test]
fn history_comes_in_pages() {
    assert_eq!((GRABBED_EVENT, PAGE_SIZE), (1, 100));
    let mut pager = HistoryPager::new();
    assert_eq!(pager.page, 1);
    let page = |hashes: &[&str]| History {
        records: hashes.iter().map(|h| record(Some(TorrentClientKind::Deluge), Some(h))).collect(),
    };
    assert_eq!(pager.take(page(&["a", "b"])), Some(2));
    assert_eq!(pager.take(page(&["c"])), Some(3));
    assert_eq!(pager.take(page(&[])), None);
    assert_eq!(pager.page, 3);
    let records = pager.into_records();
    assert_eq!(records.len(), 3);
    assert_eq!(records[2].download_id, Some("c".to_string()));
    let mut last = HistoryPager { page: u64::MAX, records: vec![] };
    assert_eq!(last.take(page(&["z"])), None);
    assert_eq!(last.records.len(), 1);
}
