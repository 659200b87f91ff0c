//! The options that a grid is created with.

use crate::row_model::RowModelType;
use vstd::prelude::*;

verus! {

/// The initial options of a grid. Every option starts unset; the builder
/// methods set one option each and leave the others as they are. `C` is the
/// column definition and `R` the row record, both the application's own.
#[derive(Debug, PartialEq, Eq)]
pub struct GridOptions<C, R> {
    // Column Definitions
    pub column_defs: Option<Vec<C>>,
    pub default_col_def: Option<C>,
    // Pagination
    pub pagination: Option<bool>,
    // RowModel
    pub row_model_type: Option<RowModelType>,
    // RowModel: Client Side
    pub row_data: Option<Vec<R>>,
    // RowModel: Infinite
    pub cache_block_size: Option<u32>,
}

impl<C, R> GridOptions<C, R> {
    /// No option is set.
    pub open spec fn is_unset(self) -> bool {
        &&& self.column_defs is None
        &&& self.default_col_def is None
        &&& self.pagination is None
        &&& self.row_model_type is None
        &&& self.row_data is None
        &&& self.cache_block_size is None
    }

    /// Options with nothing set.
    pub fn new() -> (options: Self)
        ensures
            options.is_unset(),
    {
        GridOptions {
            column_defs: None,
            default_col_def: None,
            pagination: None,
            row_model_type: None,
            row_data: None,
            cache_block_size: None,
        }
    }

    /// Set the column definitions. Fields set here take precedence over those
    /// set in `default_col_def`.
    pub fn column_defs(self, column_defs: Vec<C>) -> (options: Self)
        ensures
            options == (GridOptions { column_defs: Some(column_defs), ..self }),
    {
        GridOptions { column_defs: Some(column_defs), ..self }
    }

    /// Set the default column definition. Fields set here have lower
    /// precedence than fields set on a per-column basis in `column_defs`.
    pub fn default_col_def(self, col_def: C) -> (options: Self)
        ensures
            options == (GridOptions { default_col_def: Some(col_def), ..self }),
    {
        GridOptions { default_col_def: Some(col_def), ..self }
    }

    /// Set the row data.
    pub fn row_data(self, row_data: Vec<R>) -> (options: Self)
        ensures
            options == (GridOptions { row_data: Some(row_data), ..self }),
    {
        GridOptions { row_data: Some(row_data), ..self }
    }

    /// Sets the row model type.
    pub fn row_model_type(self, row_model_type: RowModelType) -> (options: Self)
        ensures
            options == (GridOptions { row_model_type: Some(row_model_type), ..self }),
    {
        GridOptions { row_model_type: Some(row_model_type), ..self }
    }

    /// Set whether pagination is enabled.
    pub fn pagination(self, pagination: bool) -> (options: Self)
        ensures
            options == (GridOptions { pagination: Some(pagination), ..self }),
    {
        GridOptions { pagination: Some(pagination), ..self }
    }

    /// How many rows for each block in the store, i.e. how many rows returned
    /// from the server at a time.
    pub fn cache_block_size(self, cache_block_size: u32) -> (options: Self)
        ensures
            options == (GridOptions { cache_block_size: Some(cache_block_size), ..self }),
    {
        GridOptions { cache_block_size: Some(cache_block_size), ..self }
    }
}

impl<C, R> Default for GridOptions<C, R> {
    fn default() -> (options: Self)
        ensures
            options.is_unset(),
    {
        GridOptions::new()
    }
}

} // verus!
