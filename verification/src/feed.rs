//! The feed's records, and selection of the newest entry.

use vstd::prelude::*;

verus! {

/// One feed item; the only attribute the updater reads is the enclosure's
/// URL, which points at the day's featured image.
#[derive(Debug)]
pub struct Entry {
    pub enclosure_url: String,
}

/// A parsed feed: an ordered sequence of entries, newest first.
#[derive(Debug)]
pub struct Feed {
    pub entries: Vec<Entry>,
}

impl Feed {
    /// Selects the newest entry: the one at index 0, unconditionally,
    /// whatever the entry count. Returns `None` exactly when the feed
    /// holds no entries at all.
    pub fn first_entry(&self) -> (r: Option<&Entry>)
        ensures
            self.entries@.len() == 0 <==> r is None,
            self.entries@.len() > 0 ==> (r matches Some(e) && *e == self.entries@[0]),
    {
        if self.entries.len() == 0 {
            None
        } else {
            Some(&self.entries[0])
        }
    }
}

} // verus!
