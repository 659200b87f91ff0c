//! Typed bridge between a data grid's row-model callbacks and an
//! application-supplied row source.

pub mod completion;
pub mod datasource;
pub mod filter;
pub mod gridoptions;
pub mod protocol;
pub mod request;
pub mod row_model;
pub mod sort;
pub mod text;

pub use completion::Completion;
pub use completion::FailureCause;
pub use datasource::DataSource;
pub use datasource::DataSourceBuilder;
pub use datasource::FetchContract;
pub use filter::Filter;
pub use filter::FilterToken;
pub use gridoptions::GridOptions;
pub use request::CompletionHandles;
pub use request::DecodeError;
pub use request::GetRowsParams;
pub use request::HostRequest;
pub use row_model::RowModelType;
pub use sort::HostSortEntry;
pub use sort::SortDirection;
pub use sort::SortEntryError;
pub use sort::SortModelItem;
