use ag_grid_rs::GridOptions;
use ag_grid_rs::RowModelType;

type Options = GridOptions<&'static str, u32>;

#[test]
fn new_options_have_nothing_set() {
    let options = Options::new();
    assert_eq!(options.column_defs, None);
    assert_eq!(options.default_col_def, None);
    assert_eq!(options.pagination, None);
    assert_eq!(options.row_model_type, None);
    assert_eq!(options.row_data, None);
    assert_eq!(options.cache_block_size, None);
    assert_eq!(Options::default(), Options::new());
}

#[test]
fn each_builder_sets_its_own_option() {
    assert_eq!(
        Options::new().column_defs(vec!["athlete", "age"]),
        GridOptions { column_defs: Some(vec!["athlete", "age"]), ..Options::new() }
    );
    assert_eq!(
        Options::new().default_col_def("any"),
        GridOptions { default_col_def: Some("any"), ..Options::new() }
    );
    assert_eq!(
        Options::new().row_data(vec![1, 2, 3]),
        GridOptions { row_data: Some(vec![1, 2, 3]), ..Options::new() }
    );
    assert_eq!(
        Options::new().row_model_type(RowModelType::Infinite),
        GridOptions { row_model_type: Some(RowModelType::Infinite), ..Options::new() }
    );
    assert_eq!(
        Options::new().pagination(true),
        GridOptions { pagination: Some(true), ..Options::new() }
    );
    assert_eq!(
        Options::new().cache_block_size(100),
        GridOptions { cache_block_size: Some(100), ..Options::new() }
    );
}

#[test]
fn builders_chain_and_the_last_value_stays() {
    let options = Options::new()
        .row_model_type(RowModelType::ClientSide)
        .pagination(false)
        .cache_block_size(50)
        .column_defs(vec!["athlete"])
        .row_model_type(RowModelType::ServerSide)
        .pagination(true);
    assert_eq!(
        options,
        GridOptions {
            column_defs: Some(vec!["athlete"]),
            default_col_def: None,
            pagination: Some(true),
            row_model_type: Some(RowModelType::ServerSide),
            row_data: None,
            cache_block_size: Some(50),
        }
    );
}
