//! Sort directives: one column of a requested sort order.

use crate::text::str_eq;
use vstd::prelude::*;

verus! {

/// The direction in which one column is sorted.
#[derive(Clone, Copy, Debug, PartialEq, Eq, Structural)]
pub enum SortDirection {
    Asc,
    Desc,
}

impl SortDirection {
    /// The direction that a host token names: `"asc"` or `"desc"`, and no other.
    pub open spec fn of_token(token: Seq<char>) -> Option<SortDirection> {
        if token == "asc"@ {
            Some(SortDirection::Asc)
        } else if token == "desc"@ {
            Some(SortDirection::Desc)
        } else {
            None
        }
    }

    /// Reads a direction from the host's token. A token that is neither
    /// `"asc"` nor `"desc"` names no direction; there is no default.
    pub fn from_token(token: &str) -> (direction: Option<SortDirection>)
        ensures
            direction == Self::of_token(token@),
    {
        if str_eq(token, "asc") {
            Some(SortDirection::Asc)
        } else if str_eq(token, "desc") {
            Some(SortDirection::Desc)
        } else {
            None
        }
    }
}

/// One entry of the host's sort list, as read from the host object. A field
/// that the host object lacks is `None`.
#[derive(Debug, PartialEq, Eq)]
pub struct HostSortEntry {
    pub col_id: Option<String>,
    pub sort: Option<String>,
}

/// What a [`HostSortEntry`] holds.
pub struct HostSortEntryView {
    pub col_id: Option<Seq<char>>,
    pub sort: Option<Seq<char>>,
}

impl View for HostSortEntry {
    type V = HostSortEntryView;

    open spec fn view(&self) -> HostSortEntryView {
        HostSortEntryView {
            col_id: match self.col_id {
                Some(id) => Some(id@),
                None => None,
            },
            sort: match self.sort {
                Some(token) => Some(token@),
                None => None,
            },
        }
    }
}

/// Why a sort entry of the host could not be read.
#[derive(Clone, Copy, Debug, PartialEq, Eq, Structural)]
pub enum SortEntryError {
    /// The entry names no column.
    MissingColumnId,
    /// The entry gives no direction.
    MissingSortDirection,
    /// The entry's direction is neither `"asc"` nor `"desc"`.
    UnknownSortDirection,
}

/// The sort order of one column within a request.
#[derive(Debug, PartialEq, Eq)]
pub struct SortModelItem {
    pub col_id: String,
    pub sort: SortDirection,
}

/// What a [`SortModelItem`] holds.
pub struct SortModelItemView {
    pub col_id: Seq<char>,
    pub sort: SortDirection,
}

impl View for SortModelItem {
    type V = SortModelItemView;

    open spec fn view(&self) -> SortModelItemView {
        SortModelItemView { col_id: self.col_id@, sort: self.sort }
    }
}

impl HostSortEntryView {
    /// The directive that the entry stands for, or the reason why it stands
    /// for none. A missing column wins over a missing direction, and a
    /// missing direction over an unknown one.
    pub open spec fn decoded(self) -> Result<SortModelItemView, SortEntryError> {
        match (self.col_id, self.sort) {
            (None, _) => Err(SortEntryError::MissingColumnId),
            (Some(_), None) => Err(SortEntryError::MissingSortDirection),
            (Some(col_id), Some(token)) => match SortDirection::of_token(token) {
                None => Err(SortEntryError::UnknownSortDirection),
                Some(sort) => Ok(SortModelItemView { col_id, sort }),
            },
        }
    }
}

impl SortModelItem {
    /// Decodes one entry of the host's sort list.
    pub fn decode(entry: HostSortEntry) -> (decoded: Result<SortModelItem, SortEntryError>)
        ensures
            match decoded {
                Ok(item) => entry@.decoded() == Ok::<SortModelItemView, SortEntryError>(item@),
                Err(reason) => entry@.decoded() == Err::<SortModelItemView, SortEntryError>(reason),
            },
    {
        let HostSortEntry { col_id, sort } = entry;
        let col_id = match col_id {
            Some(col_id) => col_id,
            None => return Err(SortEntryError::MissingColumnId),
        };
        let token = match sort {
            Some(token) => token,
            None => return Err(SortEntryError::MissingSortDirection),
        };
        match SortDirection::from_token(token.as_str()) {
            Some(sort) => Ok(SortModelItem { col_id, sort }),
            None => Err(SortEntryError::UnknownSortDirection),
        }
    }
}

} // verus!
