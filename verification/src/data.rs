//! The records of the travel log as the statuses endpoint reports them.

use vstd::prelude::*;
use crate::text::text_of;

verus! {

/// A named place at which a journey starts or ends.
#[derive(Clone, Debug, PartialEq, Eq)]
pub struct Station {
    pub name: String,
}

/// The journey of a status. Despite its name it covers every mode of transport.
#[derive(Clone, Debug, PartialEq, Eq)]
pub struct Train {
    pub category: String,
    pub origin: Station,
    pub destination: Station,
}

/// One entry of the travel log.
#[derive(Clone, Debug, PartialEq, Eq)]
pub struct Status {
    pub id: u32,
    pub visibility: u8,
    pub train: Train,
}

/// The pointer from one page of the listing to the page that follows it.
#[derive(Clone, Debug, PartialEq, Eq)]
pub struct Links {
    pub next: Option<String>,
}

/// One page of the listing: its statuses in the order received, and where the
/// next page is to be found. A page without a next link is the last one.
#[derive(Clone, Debug, PartialEq, Eq)]
pub struct StatusesPage {
    pub data: Vec<Status>,
    pub links: Links,
}

/// What the rules read of a status: its numbers, and its texts as sequences of
/// characters.
pub struct StatusView {
    pub id: u32,
    pub visibility: u8,
    pub category: Seq<char>,
    pub origin: Seq<char>,
    pub destination: Seq<char>,
}

impl View for Status {
    type V = StatusView;

    open spec fn view(&self) -> StatusView {
        StatusView {
            id: self.id,
            visibility: self.visibility,
            category: self.train.category@,
            origin: self.train.origin.name@,
            destination: self.train.destination.name@,
        }
    }
}

impl StatusView {
    /// The same journey travelled in the other direction.
    pub open spec fn reversed(self) -> StatusView {
        StatusView { origin: self.destination, destination: self.origin, ..self }
    }
}

/// The link of a page to its successor, as the text of the link.
pub open spec fn next_link(page: StatusesPage) -> Option<Seq<char>> {
    text_of(page.links.next)
}

/// The ids of a sequence of statuses, in the same order.
pub open spec fn status_ids(statuses: Seq<Status>) -> Seq<u32> {
    statuses.map_values(|status: Status| status.id)
}

impl Status {
    /// A status from its parts.
    pub fn new(id: u32, visibility: u8, category: String, origin: String, destination: String) -> (status: Status)
        ensures
            status@ == (StatusView {
                id,
                visibility,
                category: category@,
                origin: origin@,
                destination: destination@,
            }),
    {
        Status {
            id,
            visibility,
            train: Train {
                category,
                origin: Station { name: origin },
                destination: Station { name: destination },
            },
        }
    }
}

} // verus!
