//! Records of the movie library manager.

use vstd::prelude::*;

use crate::http::{api_key_header, api_key_headers, Header};

pub use crate::history::{History, HistoryRecord, HistoryRecordData};
pub use crate::tags::Tag;

verus! {

/// A movie in the library.
#[derive(Debug, Default, PartialEq, Eq)]
pub struct Movie {
    pub title: String,
    pub id: u64,
    pub tags: Option<Vec<u64>>,
}

/// The headers that authorize requests to the movie library manager.
pub fn auth_headers(api_key: &str) -> (headers: Vec<Header>)
    ensures
        headers@.len() == 1,
        api_key_header(api_key@, headers@[0]),
{
    api_key_headers(api_key)
}

} // verus!
