//! The data source: a fetch contract bound to the grid's row-model protocol.

use crate::completion::Completion;
use crate::completion::outcome;
use crate::request::GetRowsParams;
use crate::request::GetRowsParamsView;
use crate::request::HostRequest;
use vstd::prelude::*;

verus! {

/// The function that an application supplies to fetch rows. Its state (a
/// cursor, a connection) is its own, and is handed to every call by exclusive
/// reference.
pub trait FetchContract: Sized {
    /// The application's row record. Rows are moved, never read.
    type Row;

    /// The application's error.
    type Error;

    /// The host's filter model, carried as it is.
    type FilterModel;

    /// What one call of `get_rows` may do: `pre` and `post` are the contract
    /// before and after the call. An implementation that promises nothing
    /// leaves this as it is.
    open spec fn fetches(
        pre: &Self,
        params: GetRowsParamsView<Self::FilterModel>,
        post: &Self,
        fetched: Result<Vec<Self::Row>, Self::Error>,
    ) -> bool {
        true
    }

    /// Fetches the rows of one request.
    fn get_rows(&mut self, params: GetRowsParams<Self::FilterModel>) -> (fetched: Result<
        Vec<Self::Row>,
        Self::Error,
    >)
        ensures
            Self::fetches(old(self), params@, final(self), fetched),
    ;
}

/// The name of the field under which the host looks for the data source's
/// callback.
pub fn callback_field() -> (name: &'static str)
    ensures
        name@ == "getRows"@,
{
    "getRows"
}

/// Builder for the data source of the infinite and server-side row models.
pub struct DataSourceBuilder<F> {
    /// The callback that fetches rows.
    get_rows: F,
}

/// The finished data source. The host invokes it once per request, for as
/// long as the grid lives; the application has no other access to it.
pub struct DataSource<F> {
    get_rows: F,
}

impl<F: FetchContract> DataSourceBuilder<F> {
    /// The fetch contract that the builder holds.
    pub closed spec fn contract(&self) -> F {
        self.get_rows
    }

    /// Takes ownership of the fetch contract.
    pub fn new(get_rows: F) -> (builder: Self)
        ensures
            builder.contract() == get_rows,
    {
        Self { get_rows }
    }

    /// Finishes the data source. The contract goes over into it unchanged.
    pub fn build(self) -> (source: DataSource<F>)
        ensures
            source.contract() == self.contract(),
    {
        DataSource { get_rows: self.get_rows }
    }
}

impl<F: FetchContract> DataSource<F> {
    /// The fetch contract that the data source holds.
    pub closed spec fn contract(&self) -> F {
        self.get_rows
    }

    /// Handles one request of the host: decodes it, runs the fetch contract
    /// once on what was decoded, and says which of the request's completion
    /// handles is owed a call, and with what. A request that cannot be
    /// decoded fails without a fetch.
    pub fn get_rows<H>(&mut self, request: HostRequest<F::FilterModel, H>) -> (completion:
        Completion<H, F::Row, F::Error>)
        ensures
            match request@.decoded() {
                Err(error) => {
                    &&& completion == Completion::<H, F::Row, F::Error>::undecoded(
                        request@.handles(),
                        error,
                    )
                    &&& final(self).contract() == old(self).contract()
                },
                Ok(params) => exists|fetched: Result<Vec<F::Row>, F::Error>|
                    {
                        &&& #[trigger] F::fetches(
                            &old(self).contract(),
                            params,
                            &final(self).contract(),
                            fetched,
                        )
                        &&& completion == outcome(request@, fetched)
                    },
            },
    {
        let (decoded, handles) = GetRowsParams::decode(request);
        match decoded {
            Err(error) => Completion::fail_undecoded(handles, error),
            Ok(params) => {
                let fetched = self.get_rows.get_rows(params);
                assert(F::fetches(
                    &old(self).contract(),
                    request@.decoded()->Ok_0,
                    &self.contract(),
                    fetched,
                ));
                Completion::resolve(handles, fetched)
            },
        }
    }
}

} // verus!
