//! The list of episode serial numbers to follow.

use vstd::prelude::*;
use crate::config::DownloadMode;

verus! {

/// One followed serial number.
#[derive(Debug, Clone, PartialEq, Eq)]
pub struct SnDetail {
    /// The serial number.
    pub code: String,
    /// Download mode; `None` takes the configured default.
    pub mode: Option<DownloadMode>,
}

/// The followed serial numbers, in file order.
#[derive(Debug, PartialEq, Eq)]
pub struct SnList(pub Vec<SnDetail>);

impl Default for SnList {
    /// The empty list.
    fn default() -> (r: SnList)
        ensures
            r.0@.len() == 0,
    {
        SnList(Vec::new())
    }
}

impl SnList {
    /// The list holding `entries`; the file format wraps them in a table.
    pub fn from_entries(entries: Vec<SnDetail>) -> (r: SnList)
        ensures
            r.0 == entries,
    {
        SnList(entries)
    }

    /// The entries of the list.
    pub fn entries(&self) -> (r: &Vec<SnDetail>)
        ensures
            *r == self.0,
    {
        &self.0
    }

    /// The entries of the list, by value.
    pub fn into_entries(self) -> (r: Vec<SnDetail>)
        ensures
            r == self.0,
    {
        self.0
    }
}

} // verus!
