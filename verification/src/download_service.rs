//! The configured download clients behind one service.

use vstd::prelude::*;
use crate::downloads::DownloadIds;
use crate::torrent_clients::{ClientError, KindView, TorrentClient, TorrentClientKind};

verus! {

/// The download clients that are configured, each under its kind.
pub struct DownloadService<C> {
    pub clients: Vec<(TorrentClientKind, C)>,
}

/// What listing the transfers of one kind gave.
#[derive(Debug, PartialEq, Eq)]
pub enum Listing {
    /// No client of the kind is configured; the caller reports it.
    Unconfigured,
    /// The names of the transfers that the client holds.
    Listed { names: Vec<String> },
}

/// What became of the transfers of one kind.
#[derive(Debug, PartialEq, Eq)]
pub enum Removal {
    /// No client of the kind is configured; the caller reports it.
    Unconfigured,
    /// The client holds none of the transfers; nothing was deleted.
    NothingFound,
    /// The transfers with these names were deleted.
    Deleted { names: Vec<String> },
}

/// The position of the first client at or after `from` that is registered
/// under the kind.
pub open spec fn position_from<C>(clients: Seq<(TorrentClientKind, C)>, kind: KindView, from: int)
    -> Option<int>
    decreases clients.len() - from,
{
    if from < 0 || from >= clients.len() {
        None
    } else if clients[from].0@ == kind {
        Some(from)
    } else {
        position_from(clients, kind, from + 1)
    }
}

/// Whether a client is registered under the kind.
pub open spec fn configured<C>(clients: Seq<(TorrentClientKind, C)>, kind: KindView) -> bool {
    position_from(clients, kind, 0) is Some
}

/// Whether the client is to be asked to delete after it listed these names:
/// only if it holds at least one of the transfers.
pub fn wants_deletion(names: &Vec<String>) -> (delete: bool)
    ensures
        delete == (names@.len() > 0),
{
    names.len() > 0
}

impl<C: TorrentClient> DownloadService<C> {
    pub fn new(clients: Vec<(TorrentClientKind, C)>) -> (service: DownloadService<C>)
        ensures
            service.clients == clients,
    {
        DownloadService { clients }
    }

    /// The client that is registered under the kind, the first if there are
    /// several.
    pub fn get_client(&self, kind: &TorrentClientKind) -> (client: Option<&C>)
        ensures
            match position_from(self.clients@, kind@, 0) {
                Some(at) => 0 <= at < self.clients@.len() && client == Some(&self.clients@[at].1),
                None => client is None,
            },
    {
        let mut i: usize = 0;
        while i < self.clients.len()
            invariant
                i <= self.clients.len(),
                position_from(self.clients@, kind@, 0) == position_from(
                    self.clients@,
                    kind@,
                    i as int,
                ),
            decreases self.clients.len() - i,
        {
            if self.clients[i].0.same(kind) {
                return Some(&self.clients[i].1);
            }
            i += 1;
        }
        None
    }

    /// Asks each client for the names of the transfers with the hashes of
    /// its kind, kind after kind. The first call that fails ends the
    /// listing with its error; a kind without a client does not.
    pub fn list(&self, hashes: &DownloadIds) -> (listed: Result<Vec<Listing>, ClientError>)
        ensures
            listed matches Ok(report) ==> {
                &&& report@.len() == hashes.groups@.len()
                &&& forall|g: int|
                    0 <= g < report@.len() ==> ((#[trigger] report@[g]) is Unconfigured
                        <==> !configured(self.clients@, hashes.groups@[g].kind@))
            },
            (forall|g: int|
                0 <= g < hashes.groups@.len() ==> !configured(
                    self.clients@,
                    (#[trigger] hashes.groups@[g]).kind@,
                )) ==> listed is Ok,
    {
        let mut report: Vec<Listing> = Vec::new();
        let mut g: usize = 0;
        while g < hashes.groups.len()
            invariant
                g <= hashes.groups.len(),
                report@.len() == g,
                forall|k: int|
                    0 <= k < g ==> ((#[trigger] report@[k]) is Unconfigured <==> !configured(
                        self.clients@,
                        hashes.groups@[k].kind@,
                    )),
            decreases hashes.groups.len() - g,
        {
            match self.get_client(&hashes.groups[g].kind) {
                None => {
                    report.push(Listing::Unconfigured);
                },
                Some(client) => {
                    match client.list_torrents(&hashes.groups[g].hashes) {
                        Ok(names) => {
                            report.push(Listing::Listed { names });
                        },
                        Err(error) => {
                            assert(configured(self.clients@, hashes.groups@[g as int].kind@));
                            return Err(error);
                        },
                    }
                },
            }
            g += 1;
        }
        Ok(report)
    }

    /// Deletes the transfers with the given hashes, kind after kind. Each
    /// client is first asked which of the transfers it holds, and is asked
    /// to delete only if it holds one. The first call that fails ends the
    /// run with its error; a kind without a client does not.
    pub fn delete(&self, hashes: &DownloadIds) -> (deleted: Result<Vec<Removal>, ClientError>)
        ensures
            deleted matches Ok(report) ==> {
                &&& report@.len() == hashes.groups@.len()
                &&& forall|g: int|
                    0 <= g < report@.len() ==> ((#[trigger] report@[g]) is Unconfigured
                        <==> !configured(self.clients@, hashes.groups@[g].kind@))
                &&& forall|g: int|
                    0 <= g < report@.len() ==> ((#[trigger] report@[g]) matches Removal::Deleted {
                        names,
                    } ==> names@.len() > 0)
            },
            (forall|g: int|
                0 <= g < hashes.groups@.len() ==> !configured(
                    self.clients@,
                    (#[trigger] hashes.groups@[g]).kind@,
                )) ==> deleted is Ok,
    {
        let mut report: Vec<Removal> = Vec::new();
        let mut g: usize = 0;
        while g < hashes.groups.len()
            invariant
                g <= hashes.groups.len(),
                report@.len() == g,
                forall|k: int|
                    0 <= k < g ==> ((#[trigger] report@[k]) is Unconfigured <==> !configured(
                        self.clients@,
                        hashes.groups@[k].kind@,
                    )),
                forall|k: int|
                    0 <= k < g ==> ((#[trigger] report@[k]) matches Removal::Deleted { names }
                        ==> names@.len() > 0),
            decreases hashes.groups.len() - g,
        {
            match self.get_client(&hashes.groups[g].kind) {
                None => {
                    report.push(Removal::Unconfigured);
                },
                Some(client) => {
                    assert(configured(self.clients@, hashes.groups@[g as int].kind@));
                    match client.list_torrents(&hashes.groups[g].hashes) {
                        Ok(names) => {
                            if wants_deletion(&names) {
                                match client.delete_torrents(&hashes.groups[g].hashes) {
                                    Ok(_) => {
                                        report.push(Removal::Deleted { names });
                                    },
                                    Err(error) => {
                                        return Err(error);
                                    },
                                }
                            } else {
                                report.push(Removal::NothingFound);
                            }
                        },
                        Err(error) => {
                            return Err(error);
                        },
                    }
                },
            }
            g += 1;
        }
        Ok(report)
    }
}

} // verus!
