//! Row range requests: what the grid asks for in one fetch, and how the
//! host's request object is decoded into it.

use crate::sort::HostSortEntry;
use crate::sort::HostSortEntryView;
use crate::sort::SortEntryError;
use crate::sort::SortModelItem;
use crate::sort::SortModelItemView;
use vstd::prelude::*;

verus! {

/// The two completion handles that every host request carries. They are the
/// host's own values: the bridge hands them on and never looks inside.
#[derive(Debug, PartialEq, Eq)]
pub struct CompletionHandles<H> {
    /// Takes the rows, as its only argument.
    pub success: H,
    /// Takes no argument.
    pub failure: H,
}

/// The host's request object, as read through its accessors. A data field
/// that the host object lacks is `None`. The filter model `M` and the
/// completion handles `H` are the host's own values and are carried as they
/// are.
#[derive(Debug, PartialEq, Eq)]
pub struct HostRequest<M, H> {
    pub start_row: Option<u32>,
    pub end_row: Option<u32>,
    pub sort_model: Option<Vec<HostSortEntry>>,
    pub filter_model: Option<M>,
    pub success_callback: H,
    pub fail_callback: H,
}

/// What a [`HostRequest`] holds.
pub struct HostRequestView<M, H> {
    pub start_row: Option<u32>,
    pub end_row: Option<u32>,
    pub sort_model: Option<Seq<HostSortEntryView>>,
    pub filter_model: Option<M>,
    pub success_callback: H,
    pub fail_callback: H,
}

impl<M, H> View for HostRequest<M, H> {
    type V = HostRequestView<M, H>;

    open spec fn view(&self) -> HostRequestView<M, H> {
        HostRequestView {
            start_row: self.start_row,
            end_row: self.end_row,
            sort_model: match self.sort_model {
                Some(entries) => Some(sort_entries_view(entries@)),
                None => None,
            },
            filter_model: self.filter_model,
            success_callback: self.success_callback,
            fail_callback: self.fail_callback,
        }
    }
}

/// One request for rows: the window `start_row..end_row` and the sort order,
/// primary column first. The host promises `end_row > start_row` and column
/// ids that are non-empty and distinct; neither is checked here.
#[derive(Debug, PartialEq, Eq)]
pub struct GetRowsParams<M> {
    pub start_row: u32,
    pub end_row: u32,
    pub sort_model: Vec<SortModelItem>,
    pub filter_model: Option<M>,
}

/// What a [`GetRowsParams`] holds.
pub struct GetRowsParamsView<M> {
    pub start_row: u32,
    pub end_row: u32,
    pub sort_model: Seq<SortModelItemView>,
    pub filter_model: Option<M>,
}

impl<M> View for GetRowsParams<M> {
    type V = GetRowsParamsView<M>;

    open spec fn view(&self) -> GetRowsParamsView<M> {
        GetRowsParamsView {
            start_row: self.start_row,
            end_row: self.end_row,
            sort_model: sort_model_view(self.sort_model@),
            filter_model: self.filter_model,
        }
    }
}

/// Why a host request could not be decoded.
#[derive(Clone, Copy, Debug, PartialEq, Eq, Structural)]
pub enum DecodeError {
    /// The request has no start row.
    MissingStartRow,
    /// The request has no end row.
    MissingEndRow,
    /// The request has no sort list.
    MissingSortModel,
    /// The sort entry at `index` could not be read.
    SortEntry { index: usize, reason: SortEntryError },
}

/// What a list of host sort entries holds, entry by entry.
pub open spec fn sort_entries_view(entries: Seq<HostSortEntry>) -> Seq<HostSortEntryView> {
    entries.map_values(|entry: HostSortEntry| entry@)
}

/// What a sort order holds, directive by directive.
pub open spec fn sort_model_view(items: Seq<SortModelItem>) -> Seq<SortModelItemView> {
    items.map_values(|item: SortModelItem| item@)
}

/// Every entry of the sort list stands for a directive.
pub open spec fn sort_entries_decodable(entries: Seq<HostSortEntryView>) -> bool {
    forall|i: int| 0 <= i < entries.len() ==> (#[trigger] entries[i]).decoded() is Ok
}

/// Entry `i` stands for no directive, and every entry before it stands for one.
pub open spec fn is_first_undecodable(entries: Seq<HostSortEntryView>, i: int) -> bool {
    &&& 0 <= i < entries.len()
    &&& entries[i].decoded() is Err
    &&& forall|j: int| 0 <= j < i ==> (#[trigger] entries[j]).decoded() is Ok
}

/// The position of the first entry that stands for no directive.
pub open spec fn first_undecodable(entries: Seq<HostSortEntryView>) -> int {
    choose|i: int| is_first_undecodable(entries, i)
}

/// The sort order that the host's sort list stands for: one directive per
/// entry, in the host's order. If an entry cannot be read, the first such
/// entry is the error.
pub open spec fn decoded_sort_model(entries: Seq<HostSortEntryView>) -> Result<
    Seq<SortModelItemView>,
    DecodeError,
> {
    if sort_entries_decodable(entries) {
        Ok(entries.map_values(|entry: HostSortEntryView| entry.decoded()->Ok_0))
    } else {
        let index = first_undecodable(entries);
        Err(
            DecodeError::SortEntry {
                index: index as usize,
                reason: entries[index].decoded()->Err_0,
            },
        )
    }
}

/// An entry that cannot be read, with readable entries before it, is the
/// first that cannot be read, and there is no other.
pub proof fn lemma_first_undecodable_is_unique(entries: Seq<HostSortEntryView>, i: int)
    requires
        is_first_undecodable(entries, i),
    ensures
        first_undecodable(entries) == i,
        !sort_entries_decodable(entries),
{
    let k = first_undecodable(entries);
    assert(is_first_undecodable(entries, k));
    if k < i {
        assert(entries[k].decoded() is Ok);
    } else if i < k {
        assert(entries[i].decoded() is Ok);
    }
}

/// A sort list with an entry that cannot be read has a first such entry, at
/// or before that one.
pub proof fn lemma_undecodable_entry_has_a_first(entries: Seq<HostSortEntryView>, i: int)
    requires
        0 <= i < entries.len(),
        entries[i].decoded() is Err,
    ensures
        !sort_entries_decodable(entries),
        is_first_undecodable(entries, first_undecodable(entries)),
        first_undecodable(entries) <= i,
    decreases i,
{
    if exists|j: int| 0 <= j < i && (#[trigger] entries[j]).decoded() is Err {
        let j = choose|j: int| 0 <= j < i && (#[trigger] entries[j]).decoded() is Err;
        lemma_undecodable_entry_has_a_first(entries, j);
    } else {
        lemma_first_undecodable_is_unique(entries, i);
    }
}

/// Decodes the host's sort list, entry by entry and in the host's order.
pub fn decode_sort_model(entries: Vec<HostSortEntry>) -> (decoded: Result<
    Vec<SortModelItem>,
    DecodeError,
>)
    ensures
        match decoded {
            Ok(items) => decoded_sort_model(sort_entries_view(entries@)) == Ok::<
                Seq<SortModelItemView>,
                DecodeError,
            >(sort_model_view(items@)),
            Err(error) => decoded_sort_model(sort_entries_view(entries@)) == Err::<
                Seq<SortModelItemView>,
                DecodeError,
            >(error),
        },
{
    let ghost raw = sort_entries_view(entries@);
    assert(raw.len() == entries.len());
    let mut items: Vec<SortModelItem> = Vec::new();
    let mut index: usize = 0;
    for entry in it: entries
        invariant
            raw == sort_entries_view(it.seq()),
            raw.len() <= usize::MAX,
            index == it.index(),
            items@.len() == index,
            forall|j: int|
                0 <= j < index ==> (#[trigger] raw[j]).decoded() == Ok::<
                    SortModelItemView,
                    SortEntryError,
                >(items@[j]@),
    {
        assert(raw[index as int] == entry@);
        match SortModelItem::decode(entry) {
            Ok(item) => {
                items.push(item);
                index += 1;
            },
            Err(reason) => {
                proof {
                    lemma_first_undecodable_is_unique(raw, index as int);
                }
                return Err(DecodeError::SortEntry { index, reason });
            },
        }
    }
    proof {
        assert(sort_entries_decodable(raw));
        assert(sort_model_view(items@) =~= raw.map_values(
            |entry: HostSortEntryView| entry.decoded()->Ok_0,
        ));
    }
    Ok(items)
}

impl<M, H> HostRequestView<M, H> {
    /// The completion handles of the request.
    pub open spec fn handles(self) -> CompletionHandles<H> {
        CompletionHandles { success: self.success_callback, failure: self.fail_callback }
    }

    /// The request that the host object stands for, or the reason why it
    /// stands for none. The fields are read in the order start row, end row,
    /// sort list, and the sort list entry by entry: the first thing that
    /// cannot be read is the error. The window and the filter model are
    /// taken over unchanged.
    pub open spec fn decoded(self) -> Result<GetRowsParamsView<M>, DecodeError> {
        match (self.start_row, self.end_row, self.sort_model) {
            (None, _, _) => Err(DecodeError::MissingStartRow),
            (Some(_), None, _) => Err(DecodeError::MissingEndRow),
            (Some(_), Some(_), None) => Err(DecodeError::MissingSortModel),
            (Some(start_row), Some(end_row), Some(entries)) => match decoded_sort_model(entries) {
                Err(error) => Err(error),
                Ok(sort_model) => Ok(
                    GetRowsParamsView {
                        start_row,
                        end_row,
                        sort_model,
                        filter_model: self.filter_model,
                    },
                ),
            },
        }
    }

    /// The host object stands for a request.
    pub open spec fn decodable(self) -> bool {
        self.decoded() is Ok
    }
}

impl<M> GetRowsParams<M> {
    /// Decodes the host's request object into the typed request, and hands
    /// its two completion handles on as they are. Nothing is defaulted: a
    /// missing field or an unknown sort direction is an error. The handles
    /// come back with an error too, so that the request can still be ended.
    pub fn decode<H>(request: HostRequest<M, H>) -> (decoded: (
        Result<GetRowsParams<M>, DecodeError>,
        CompletionHandles<H>,
    ))
        ensures
            decoded.1 == request@.handles(),
            match decoded.0 {
                Ok(params) => request@.decoded() == Ok::<GetRowsParamsView<M>, DecodeError>(
                    params@,
                ),
                Err(error) => request@.decoded() == Err::<GetRowsParamsView<M>, DecodeError>(
                    error,
                ),
            },
    {
        let HostRequest {
            start_row,
            end_row,
            sort_model,
            filter_model,
            success_callback,
            fail_callback,
        } = request;
        let handles = CompletionHandles { success: success_callback, failure: fail_callback };
        let params = match (start_row, end_row, sort_model) {
            (None, _, _) => Err(DecodeError::MissingStartRow),
            (Some(_), None, _) => Err(DecodeError::MissingEndRow),
            (Some(_), Some(_), None) => Err(DecodeError::MissingSortModel),
            (Some(start_row), Some(end_row), Some(entries)) => match decode_sort_model(entries) {
                Err(error) => Err(error),
                Ok(sort_model) => Ok(
                    GetRowsParams { start_row, end_row, sort_model, filter_model },
                ),
            },
        };
        (params, handles)
    }
}

} // verus!
