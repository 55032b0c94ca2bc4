//! From library entries back to the downloads that they came from.
//!
//! The history of a library manager names, for each grabbed release, the
//! download client that fetched it and the hash of the transfer. The hashes
//! are sorted by client kind, since each kind is reached through a client of
//! its own. The hashes are handed on as the manager recorded them.

use vstd::prelude::*;
use crate::history::HistoryRecord;
use crate::queue::Queue;
use crate::string_set::StringSet;
use crate::torrent_clients::{KindView, TorrentClientKind};
use crate::uniq::{first_appearances, lemma_first_appearances};

verus! {

/// The transfer hashes of one kind of download client.
#[derive(Debug)]
pub struct KindHashes {
    pub kind: TorrentClientKind,
    pub hashes: StringSet,
}

/// Transfer hashes, sorted by the kind of download client.
#[derive(Debug)]
pub struct DownloadIds {
    pub groups: Vec<KindHashes>,
}

/// The pairs of client kind and transfer hash of the records that have
/// both, in the order of the records.
pub open spec fn pairs_of(records: Seq<HistoryRecord>) -> Seq<(TorrentClientKind, String)>
    decreases records.len(),
{
    if records.len() == 0 {
        Seq::empty()
    } else {
        match records.last().pairing() {
            Some(pair) => pairs_of(records.drop_last()).push(pair),
            None => pairs_of(records.drop_last()),
        }
    }
}

/// The kinds of the pairs, in their order.
pub open spec fn kinds_of(pairs: Seq<(TorrentClientKind, String)>) -> Seq<KindView> {
    pairs.map_values(|pair: (TorrentClientKind, String)| pair.0@)
}

/// The hashes of the pairs of one kind, in their order.
pub open spec fn hashes_of(pairs: Seq<(TorrentClientKind, String)>, kind: KindView) -> Seq<
    Seq<char>,
>
    decreases pairs.len(),
{
    if pairs.len() == 0 {
        Seq::empty()
    } else if pairs.last().0@ == kind {
        hashes_of(pairs.drop_last(), kind).push(pairs.last().1@)
    } else {
        hashes_of(pairs.drop_last(), kind)
    }
}

/// Whether `groups` sorts the pairs by kind: one group for each kind, in the
/// order in which the kinds first occur, each with the hashes of that kind,
/// every hash once, in the order in which they first occur.
pub open spec fn sorts_by_kind(groups: Seq<KindHashes>, pairs: Seq<(TorrentClientKind, String)>)
    -> bool {
    let kinds = first_appearances(kinds_of(pairs));
    &&& groups.len() == kinds.len()
    &&& forall|g: int|
        0 <= g < groups.len() ==> {
            &&& (#[trigger] groups[g]).kind@ == kinds[g]
            &&& groups[g].hashes.order() == first_appearances(hashes_of(pairs, kinds[g]))
        }
}

/// The hashes listed for a kind are the hashes of the pairs of that kind.
pub proof fn lemma_hashes_of(pairs: Seq<(TorrentClientKind, String)>, kind: KindView, hash: Seq<char>)
    ensures
        hashes_of(pairs, kind).contains(hash) <==> exists|i: int|
            0 <= i < pairs.len() && (#[trigger] pairs[i]).0@ == kind && pairs[i].1@ == hash,
    decreases pairs.len(),
{
    if pairs.len() > 0 {
        let front = pairs.drop_last();
        lemma_hashes_of(front, kind, hash);
        let listed = hashes_of(pairs, kind);
        if listed.contains(hash) {
            let k = choose|k: int| 0 <= k < listed.len() && listed[k] == hash;
            if pairs.last().0@ == kind && k == listed.len() - 1 {
                assert(pairs[pairs.len() - 1].1@ == hash);
            } else {
                assert(hashes_of(front, kind)[k] == hash);
                let i = choose|i: int|
                    0 <= i < front.len() && (#[trigger] front[i]).0@ == kind && front[i].1@ == hash;
                assert(pairs[i] == front[i]);
            }
        }
        if exists|i: int|
            0 <= i < pairs.len() && (#[trigger] pairs[i]).0@ == kind && pairs[i].1@ == hash {
            let i = choose|i: int|
                0 <= i < pairs.len() && (#[trigger] pairs[i]).0@ == kind && pairs[i].1@ == hash;
            if i == pairs.len() - 1 {
                assert(listed.last() == hash);
            } else {
                assert(front[i] == pairs[i]);
                let k = choose|k: int|
                    0 <= k < hashes_of(front, kind).len() && hashes_of(front, kind)[k] == hash;
                assert(listed[k] == hash);
            }
        }
    }
}

/// The pairing is kept: every pair is found again under its kind, with its
/// hash.
pub proof fn lemma_pairing_kept(
    groups: Seq<KindHashes>,
    pairs: Seq<(TorrentClientKind, String)>,
    i: int,
)
    requires
        sorts_by_kind(groups, pairs),
        0 <= i < pairs.len(),
    ensures
        exists|g: int|
            0 <= g < groups.len() && (#[trigger] groups[g]).kind@ == pairs[i].0@
                && groups[g].hashes@.contains(pairs[i].1@),
{
    let kinds = first_appearances(kinds_of(pairs));
    lemma_first_appearances(kinds_of(pairs));
    assert(kinds_of(pairs)[i] == pairs[i].0@);
    assert(kinds_of(pairs).to_set().contains(pairs[i].0@));
    assert(kinds.contains(pairs[i].0@));
    let g = choose|g: int| 0 <= g < kinds.len() && kinds[g] == pairs[i].0@;
    lemma_hashes_of(pairs, kinds[g], pairs[i].1@);
    lemma_first_appearances(hashes_of(pairs, kinds[g]));
    assert(hashes_of(pairs, kinds[g]).to_set().contains(pairs[i].1@));
    assert(groups[g].kind@ == pairs[i].0@);
}

/// Nothing is made up: a hash in a group is the hash of a pair of the
/// group's kind.
pub proof fn lemma_groups_hold_pairs(
    groups: Seq<KindHashes>,
    pairs: Seq<(TorrentClientKind, String)>,
    g: int,
    hash: Seq<char>,
)
    requires
        sorts_by_kind(groups, pairs),
        0 <= g < groups.len(),
        groups[g].hashes@.contains(hash),
    ensures
        exists|i: int|
            0 <= i < pairs.len() && (#[trigger] pairs[i]).0@ == groups[g].kind@ && pairs[i].1@
                == hash,
{
    let kinds = first_appearances(kinds_of(pairs));
    lemma_first_appearances(hashes_of(pairs, kinds[g]));
    assert(hashes_of(pairs, kinds[g]).to_set().contains(hash));
    lemma_hashes_of(pairs, kinds[g], hash);
}

/// The kind and the hash of each record that has both.
pub fn pair_up(records: Vec<HistoryRecord>) -> (pairs: Vec<(TorrentClientKind, String)>)
    ensures
        pairs@ == pairs_of(records@),
{
    let ghost all = records@;
    let mut rest: Queue<HistoryRecord> = Queue::new(records);
    let mut pairs: Vec<(TorrentClientKind, String)> = Vec::new();
    let ghost mut done: Seq<HistoryRecord> = Seq::empty();
    while rest.len() > 0
        invariant
            done + rest@ == all,
            pairs@ == pairs_of(done),
        decreases rest@.len(),
    {
        let ghost before = rest@;
        let record: HistoryRecord = rest.next().unwrap();
        proof {
            assert(done.push(record) + rest@ =~= done + before);
            assert(done.push(record).drop_last() =~= done);
            done = done.push(record);
        }
        match record.download_id_per_client() {
            Some(pair) => {
                pairs.push(pair);
            },
            None => {},
        }
    }
    assert(done =~= all);
    pairs
}

/// Whether `kinds` holds the kind.
pub fn holds_kind(kinds: &[TorrentClientKind], kind: &TorrentClientKind) -> (found: bool)
    ensures
        found == kinds@.map_values(|k: TorrentClientKind| k@).contains(kind@),
{
    let ghost views = kinds@.map_values(|k: TorrentClientKind| k@);
    let mut i: usize = 0;
    while i < kinds.len()
        invariant
            i <= kinds.len(),
            views == kinds@.map_values(|k: TorrentClientKind| k@),
            forall|k: int| 0 <= k < i ==> views[k] != kind@,
        decreases kinds.len() - i,
    {
        if kinds[i].same(kind) {
            assert(views[i as int] == kind@);
            return true;
        }
        i += 1;
    }
    false
}

/// The kinds of the pairs, each once, in the order in which they first
/// occur.
pub fn distinct_kinds(pairs: &[(TorrentClientKind, String)]) -> (kinds: Vec<TorrentClientKind>)
    ensures
        kinds@.map_values(|k: TorrentClientKind| k@) == first_appearances(kinds_of(pairs@)),
{
    let mut kinds: Vec<TorrentClientKind> = Vec::new();
    let mut i: usize = 0;
    assert(pairs@.take(0) =~= Seq::<(TorrentClientKind, String)>::empty());
    assert(kinds_of(pairs@.take(0)) =~= Seq::<KindView>::empty());
    assert(kinds@.map_values(|k: TorrentClientKind| k@) =~= Seq::<KindView>::empty());
    while i < pairs.len()
        invariant
            i <= pairs.len(),
            kinds@.map_values(|k: TorrentClientKind| k@) == first_appearances(
                kinds_of(pairs@.take(i as int)),
            ),
        decreases pairs.len() - i,
    {
        let ghost before = kinds@.map_values(|k: TorrentClientKind| k@);
        assert(kinds_of(pairs@.take(i + 1)).drop_last() =~= kinds_of(pairs@.take(i as int)));
        assert(kinds_of(pairs@.take(i + 1)).last() == pairs@[i as int].0@);
        if !holds_kind(kinds.as_slice(), &pairs[i].0) {
            kinds.push(pairs[i].0.clone());
            assert(kinds@.map_values(|k: TorrentClientKind| k@) =~= before.push(pairs@[i as int].0@));
        }
        i += 1;
    }
    assert(pairs@.take(i as int) =~= pairs@);
    kinds
}

/// The hashes of the pairs of one kind, each once, in the order in which
/// they first occur.
pub fn hashes_for(pairs: &[(TorrentClientKind, String)], kind: &TorrentClientKind) -> (hashes:
    StringSet)
    ensures
        hashes.order() == first_appearances(hashes_of(pairs@, kind@)),
{
    let mut hashes = StringSet::new();
    let mut i: usize = 0;
    assert(pairs@.take(0) =~= Seq::<(TorrentClientKind, String)>::empty());
    while i < pairs.len()
        invariant
            i <= pairs.len(),
            hashes.order() == first_appearances(hashes_of(pairs@.take(i as int), kind@)),
        decreases pairs.len() - i,
    {
        assert(pairs@.take(i + 1).drop_last() =~= pairs@.take(i as int));
        if pairs[i].0.same(kind) {
            assert(hashes_of(pairs@.take(i + 1), kind@).drop_last() =~= hashes_of(
                pairs@.take(i as int),
                kind@,
            ));
            hashes.insert(pairs[i].1.clone());
        }
        i += 1;
    }
    assert(pairs@.take(i as int) =~= pairs@);
    hashes
}

/// Sorts the transfers that the history records name by the kind of client
/// that made them. A record that names no client or no hash is passed over;
/// an entry may have been grabbed several times, and each hash is kept once.
pub fn download_ids(records: Vec<HistoryRecord>) -> (ids: DownloadIds)
    ensures
        sorts_by_kind(ids.groups@, pairs_of(records@)),
{
    let pairs: Vec<(TorrentClientKind, String)> = pair_up(records);
    let kinds: Vec<TorrentClientKind> = distinct_kinds(pairs.as_slice());
    let ghost order = first_appearances(kinds_of(pairs@));
    let ghost all = kinds@;
    let mut rest: Queue<TorrentClientKind> = Queue::new(kinds);
    let mut groups: Vec<KindHashes> = Vec::new();
    while rest.len() > 0
        invariant
            all.map_values(|k: TorrentClientKind| k@) == order,
            groups@.len() + rest@.len() == all.len(),
            rest@ == all.skip(groups@.len() as int),
            forall|g: int|
                0 <= g < groups@.len() ==> {
                    &&& (#[trigger] groups@[g]).kind@ == order[g]
                    &&& groups@[g].hashes.order() == first_appearances(hashes_of(pairs@, order[g]))
                },
        decreases rest@.len(),
    {
        let ghost n = groups@.len() as int;
        let kind: TorrentClientKind = rest.next().unwrap();
        assert(kind == all[n]);
        assert(all.map_values(|k: TorrentClientKind| k@)[n] == kind@);
        let hashes: StringSet = hashes_for(pairs.as_slice(), &kind);
        groups.push(KindHashes { kind, hashes });
        assert(rest@ =~= all.skip(n + 1));
    }
    DownloadIds { groups }
}

impl DownloadIds {
    /// Whether there is no transfer at all.
    pub fn is_empty(&self) -> (empty: bool)
        ensures
            empty == (self.groups@.len() == 0),
    {
        self.groups.len() == 0
    }
}

} // verus!
