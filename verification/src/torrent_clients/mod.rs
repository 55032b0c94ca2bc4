//! Download clients: their kinds and what the engine asks of them.

pub mod deluge;
pub mod qbittorrent;

use vstd::prelude::*;
use vstd::string::StringExecFns;
use crate::string_set::StringSet;
use crate::text::{lowercase_of, to_lowercase};

verus! {

/// Which download client a transfer came from.
#[derive(Debug, PartialEq, Eq, Hash)]
pub enum TorrentClientKind {
    Deluge,
    Qbittorrent,
    Other(String),
}

/// A kind with the name of an unknown client as a sequence of characters.
pub enum KindView {
    Deluge,
    Qbittorrent,
    Other(Seq<char>),
}

impl View for TorrentClientKind {
    type V = KindView;

    open spec fn view(&self) -> KindView {
        match self {
            TorrentClientKind::Deluge => KindView::Deluge,
            TorrentClientKind::Qbittorrent => KindView::Qbittorrent,
            TorrentClientKind::Other(name) => KindView::Other(name@),
        }
    }
}

/// The kind that a client name stands for, given the name in lower case:
/// the two known clients are recognised whatever the case of their letters,
/// any other name is kept as it was written.
pub open spec fn kind_of(name: Seq<char>, lowered: Seq<char>) -> KindView {
    if lowered == "deluge"@ {
        KindView::Deluge
    } else if lowered == "qbittorrent"@ {
        KindView::Qbittorrent
    } else {
        KindView::Other(name)
    }
}

/// The name under which a kind is shown.
pub open spec fn display_name(kind: KindView) -> Seq<char> {
    match kind {
        KindView::Deluge => "Deluge"@,
        KindView::Qbittorrent => "qBittorrent"@,
        KindView::Other(name) => name,
    }
}

impl Clone for TorrentClientKind {
    fn clone(&self) -> (copy: Self)
        ensures
            copy == *self,
    {
        match self {
            TorrentClientKind::Deluge => TorrentClientKind::Deluge,
            TorrentClientKind::Qbittorrent => TorrentClientKind::Qbittorrent,
            TorrentClientKind::Other(name) => TorrentClientKind::Other(name.clone()),
        }
    }
}

impl TorrentClientKind {
    /// The kind for a client name and the same name in lower case.
    pub fn classify(name: String, lowered: &String) -> (kind: TorrentClientKind)
        ensures
            kind@ == kind_of(name@, lowered@),
            kind matches TorrentClientKind::Other(kept) ==> kept == name,
    {
        let deluge: String = String::from_str("deluge");
        let qbittorrent: String = String::from_str("qbittorrent");
        if *lowered == deluge {
            TorrentClientKind::Deluge
        } else if *lowered == qbittorrent {
            TorrentClientKind::Qbittorrent
        } else {
            TorrentClientKind::Other(name)
        }
    }

    /// The kind that a client name stands for.
    pub fn from_name(name: String) -> (kind: TorrentClientKind)
        ensures
            kind@ == kind_of(name@, lowercase_of(name@)),
    {
        let lowered: String = to_lowercase(name.as_str());
        TorrentClientKind::classify(name, &lowered)
    }

    /// The name under which the kind is shown.
    pub fn name(&self) -> (shown: String)
        ensures
            shown@ == display_name(self@),
    {
        match self {
            TorrentClientKind::Deluge => String::from_str("Deluge"),
            TorrentClientKind::Qbittorrent => String::from_str("qBittorrent"),
            TorrentClientKind::Other(name) => name.clone(),
        }
    }

    /// Whether two kinds are the same kind.
    pub fn same(&self, other: &TorrentClientKind) -> (same: bool)
        ensures
            same == (self@ == other@),
    {
        match (self, other) {
            (TorrentClientKind::Deluge, TorrentClientKind::Deluge) => true,
            (TorrentClientKind::Qbittorrent, TorrentClientKind::Qbittorrent) => true,
            (TorrentClientKind::Other(a), TorrentClientKind::Other(b)) => *a == *b,
            _ => false,
        }
    }
}

/// Why a download client could not do what it was asked.
#[derive(Debug, PartialEq, Eq)]
pub struct ClientError {
    pub message: String,
}

/// What the engine asks of a download client. Both calls take the transfer
/// hashes as the library manager recorded them; bringing them into the form
/// that the client wants is the client's own business.
pub trait TorrentClient {
    /// Removes the transfers with these hashes, and their files.
    fn delete_torrents(&self, hashes: &StringSet) -> Result<(), ClientError>;

    /// The names of the transfers with these hashes that the client holds.
    fn list_torrents(&self, hashes: &StringSet) -> Result<Vec<String>, ClientError>;
}

} // verus!
