//! The record kept for each item of the content source.

use vstd::prelude::*;

verus! {

/// Identifier of an item at the content source; the primary key of its row.
pub type Id = u32;

/// Score of an item, where the source shows one.
pub type Score = u32;

/// Snapshot of an item as the content source showed it when it was fetched.
#[derive(Debug, PartialEq, Eq)]
pub struct Listing {
    pub id: Id,
    pub title: String,
    pub score: Option<Score>,
    pub user: Option<String>,
    pub url: String,
}

/// Mathematical value of a [`Listing`]: the five columns of its row in the table.
pub struct Record {
    pub id: Id,
    pub title: Seq<char>,
    pub score: Option<Score>,
    pub user: Option<Seq<char>>,
    pub url: Seq<char>,
}

impl View for Listing {
    type V = Record;

    open spec fn view(&self) -> Record {
        Record {
            id: self.id,
            title: self.title@,
            score: self.score,
            user: match self.user {
                Some(u) => Some(u@),
                None => None,
            },
            url: self.url@,
        }
    }
}

impl Clone for Listing {
    /// A copy with the same five columns.
    fn clone(&self) -> (copy: Listing)
        ensures
            copy == *self,
    {
        Listing {
            id: self.id,
            title: self.title.clone(),
            score: self.score,
            user: match &self.user {
                Some(user) => Some(user.clone()),
                None => None,
            },
            url: self.url.clone(),
        }
    }
}

/// The records of a batch of listings, in the order of the batch.
pub open spec fn records_of(listings: Seq<Listing>) -> Seq<Record> {
    listings.map_values(|l: Listing| l@)
}

} // verus!
