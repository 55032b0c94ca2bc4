//! History records of the library managers.

use vstd::prelude::*;
use crate::torrent_clients::TorrentClientKind;

verus! {

/// What a history record says of the grab that it stands for.
#[derive(Debug, PartialEq, Eq, Hash)]
pub struct HistoryRecordData {
    pub download_client: Option<TorrentClientKind>,
}

/// One "grabbed" event of a library manager's history.
#[derive(Debug, PartialEq, Eq, Hash)]
pub struct HistoryRecord {
    pub download_id: Option<String>,
    pub data: Option<HistoryRecordData>,
}

/// One page of a library manager's history.
#[derive(Debug, PartialEq, Eq)]
pub struct History {
    pub records: Vec<HistoryRecord>,
}

impl HistoryRecord {
    /// The client kind and the transfer hash of the record, where it has
    /// both.
    pub open spec fn pairing(self) -> Option<(TorrentClientKind, String)> {
        match (self.download_id, self.data) {
            (Some(id), Some(data)) => match data.download_client {
                Some(client) => Some((client, id)),
                None => None,
            },
            _ => None,
        }
    }

    /// The download client that made the transfer, with the transfer's hash.
    /// A record that lacks either gives nothing.
    pub fn download_id_per_client(self) -> (pair: Option<(TorrentClientKind, String)>)
        ensures
            pair == self.pairing(),
    {
        match self.download_id {
            Some(download_id) => match self.data {
                Some(data) => match data.download_client {
                    Some(client) => Some((client, download_id)),
                    None => None,
                },
                None => None,
            },
            None => None,
        }
    }
}

/// The event type under which a library manager records a grab.
pub const GRABBED_EVENT: u64 = 1;

/// How many records are asked for with each page.
pub const PAGE_SIZE: u64 = 100;

/// Gathers a history that comes in pages. Pages are counted from one, and
/// the first page without records ends the history.
#[derive(Debug, PartialEq, Eq)]
pub struct HistoryPager {
    pub page: u64,
    pub records: Vec<HistoryRecord>,
}

impl HistoryPager {
    /// A pager that has nothing yet and waits for the first page.
    pub fn new() -> (pager: HistoryPager)
        ensures
            pager.page == 1,
            pager.records@ == Seq::<HistoryRecord>::empty(),
    {
        HistoryPager { page: 1, records: Vec::new() }
    }

    /// Takes the page that was asked for last and says which page to ask
    /// for next, if any.
    pub fn take(&mut self, page: History) -> (next: Option<u64>)
        ensures
            page.records@.len() == 0 ==> next is None && *final(self) == *old(self),
            page.records@.len() > 0 ==> final(self).records@ == old(self).records@ + page.records@,
            page.records@.len() > 0 && old(self).page < u64::MAX ==> final(self).page == old(
                self,
            ).page + 1 && next == Some(final(self).page),
            page.records@.len() > 0 && old(self).page == u64::MAX ==> final(self).page == u64::MAX
                && next is None,
    {
        let mut records: Vec<HistoryRecord> = page.records;
        if records.len() == 0 {
            None
        } else {
            self.records.append(&mut records);
            if self.page < u64::MAX {
                self.page = self.page + 1;
                Some(self.page)
            } else {
                None
            }
        }
    }

    /// The records of all pages that were taken, in their order.
    pub fn into_records(self) -> (records: Vec<HistoryRecord>)
        ensures
            records == self.records,
    {
        self.records
    }
}

} // verus!
