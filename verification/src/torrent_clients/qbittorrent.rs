//! What is particular to qBittorrent.

use vstd::prelude::*;
use vstd::string::StringExecFns;
use crate::text::{join, joined};

verus! {

/// A transfer as qBittorrent lists it.
#[derive(Debug, Default, PartialEq, Eq)]
pub struct Torrent {
    pub name: String,
}

/// The value of the `hashes` parameter for these hashes.
pub open spec fn bar_separated(hashes: Seq<Seq<char>>) -> Seq<char> {
    if hashes.len() == 0 {
        "none"@
    } else {
        joined(hashes, "|"@)
    }
}

/// The hashes with `|` between them. Without hashes the result is `none`:
/// to an empty value qBittorrent would answer with every transfer it has.
pub fn to_bar_separated_string(hashes: &[String]) -> (text: String)
    ensures
        text@ == bar_separated(hashes@.map_values(|h: String| h@)),
{
    if hashes.len() == 0 {
        String::from_str("none")
    } else {
        join(hashes, "|")
    }
}

} // verus!
