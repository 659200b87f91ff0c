use ag_grid_rs::request::decode_sort_model;
use ag_grid_rs::CompletionHandles;
use ag_grid_rs::DecodeError;
use ag_grid_rs::GetRowsParams;
use ag_grid_rs::HostRequest;
use ag_grid_rs::HostSortEntry;
use ag_grid_rs::SortDirection;
use ag_grid_rs::SortEntryError;
use ag_grid_rs::SortModelItem;

type Request = HostRequest<String, &'static str>;

fn entry(col_id: &str, sort: &str) -> HostSortEntry {
    HostSortEntry { col_id: Some(col_id.to_string()), sort: Some(sort.to_string()) }
}

fn item(col_id: &str, sort: SortDirection) -> SortModelItem {
    SortModelItem { col_id: col_id.to_string(), sort }
}

fn request(start_row: u32, end_row: u32, sort_model: Vec<HostSortEntry>) -> Request {
    HostRequest {
        start_row: Some(start_row),
        end_row: Some(end_row),
        sort_model: Some(sort_model),
        filter_model: None,
        success_callback: "success",
        fail_callback: "fail",
    }
}

fn handles() -> CompletionHandles<&'static str> {
    CompletionHandles { success: "success", failure: "fail" }
}

fn sort_error(index: usize, reason: SortEntryError) -> DecodeError {
    DecodeError::SortEntry { index, reason }
}

#[test]
fn decodes_the_sort_list_in_the_hosts_order() {
    let (decoded, _) =
        GetRowsParams::decode(request(0, 100, vec![entry("age", "desc"), entry("name", "asc")]));
    let params = decoded.unwrap();
    assert_eq!(params.sort_model.len(), 2);
    assert_eq!(params.sort_model[0].col_id, "age");
    assert_eq!(params.sort_model[0].sort, SortDirection::Desc);
    assert_eq!(params.sort_model[1].col_id, "name");
    assert_eq!(params.sort_model[1].sort, SortDirection::Asc);
}

#[test]
fn decodes_the_whole_request() {
    let mut host = request(200, 300, vec![entry("country", "asc")]);
    host.filter_model = Some("{\"age\":{\"type\":\"greaterThan\",\"filter\":18}}".to_string());
    let (decoded, kept) = GetRowsParams::decode(host);
    assert_eq!(
        decoded,
        Ok(GetRowsParams {
            start_row: 200,
            end_row: 300,
            sort_model: vec![item("country", SortDirection::Asc)],
            filter_model: Some("{\"age\":{\"type\":\"greaterThan\",\"filter\":18}}".to_string()),
        })
    );
    assert_eq!(kept, handles());
}

#[test]
fn hands_the_completion_handles_on_unchanged() {
    let host: HostRequest<(), u32> = HostRequest {
        start_row: Some(0),
        end_row: Some(1),
        sort_model: Some(Vec::new()),
        filter_model: None,
        success_callback: 17,
        fail_callback: 23,
    };
    let (decoded, kept) = GetRowsParams::decode(host);
    assert!(decoded.is_ok());
    assert_eq!(kept, CompletionHandles { success: 17, failure: 23 });
}

#[test]
fn hands_the_completion_handles_on_with_an_error() {
    let host: HostRequest<(), u32> = HostRequest {
        start_row: None,
        end_row: None,
        sort_model: None,
        filter_model: None,
        success_callback: 17,
        fail_callback: 23,
    };
    let (decoded, kept) = GetRowsParams::decode(host);
    assert_eq!(decoded, Err(DecodeError::MissingStartRow));
    assert_eq!(kept, CompletionHandles { success: 17, failure: 23 });
}

#[test]
fn an_empty_sort_list_is_no_sort_order() {
    let (decoded, _) = GetRowsParams::decode(request(0, 50, Vec::new()));
    let params = decoded.unwrap();
    assert_eq!(params.start_row, 0);
    assert_eq!(params.end_row, 50);
    assert!(params.sort_model.is_empty());
    assert_eq!(params.filter_model, None);
}

#[test]
fn the_row_window_is_not_validated() {
    let (inverted, _) = GetRowsParams::decode(request(100, 50, Vec::new()));
    let inverted = inverted.unwrap();
    assert_eq!((inverted.start_row, inverted.end_row), (100, 50));
    let (empty, _) = GetRowsParams::decode(request(7, 7, Vec::new()));
    let empty = empty.unwrap();
    assert_eq!((empty.start_row, empty.end_row), (7, 7));
    let (widest, _) = GetRowsParams::decode(request(0, u32::MAX, Vec::new()));
    let widest = widest.unwrap();
    assert_eq!((widest.start_row, widest.end_row), (0, u32::MAX));
}

#[test]
fn column_ids_are_not_validated() {
    let (decoded, _) =
        GetRowsParams::decode(request(0, 10, vec![entry("", "asc"), entry("a", "desc"), entry("a", "asc")]));
    assert_eq!(
        decoded.unwrap().sort_model,
        vec![
            item("", SortDirection::Asc),
            item("a", SortDirection::Desc),
            item("a", SortDirection::Asc),
        ]
    );
}

#[test]
fn a_missing_start_row_is_an_error() {
    let mut host = request(0, 100, vec![entry("age", "desc")]);
    host.start_row = None;
    assert_eq!(GetRowsParams::decode(host).0, Err(DecodeError::MissingStartRow));
}

#[test]
fn a_missing_end_row_is_an_error() {
    let mut host = request(0, 100, vec![entry("age", "desc")]);
    host.end_row = None;
    assert_eq!(GetRowsParams::decode(host).0, Err(DecodeError::MissingEndRow));
}

#[test]
fn a_missing_sort_list_is_an_error() {
    let mut host = request(0, 100, Vec::new());
    host.sort_model = None;
    assert_eq!(GetRowsParams::decode(host).0, Err(DecodeError::MissingSortModel));
}

#[test]
fn a_missing_column_id_is_an_error() {
    let nameless = HostSortEntry { col_id: None, sort: Some("asc".to_string()) };
    let host = request(0, 100, vec![entry("age", "desc"), nameless]);
    assert_eq!(
        GetRowsParams::decode(host).0,
        Err(sort_error(1, SortEntryError::MissingColumnId))
    );
}

#[test]
fn a_missing_sort_direction_is_an_error() {
    let undirected = HostSortEntry { col_id: Some("age".to_string()), sort: None };
    let host = request(0, 100, vec![undirected, entry("name", "asc")]);
    assert_eq!(
        GetRowsParams::decode(host).0,
        Err(sort_error(0, SortEntryError::MissingSortDirection))
    );
}

#[test]
fn an_unknown_sort_direction_is_an_error() {
    let host = request(0, 100, vec![entry("age", "desc"), entry("name", "up"), entry("x", "asc")]);
    assert_eq!(
        GetRowsParams::decode(host).0,
        Err(sort_error(1, SortEntryError::UnknownSortDirection))
    );
}

#[test]
fn the_first_thing_missing_is_the_error() {
    let mut host = request(0, 100, vec![entry("age", "sideways")]);
    host.end_row = None;
    assert_eq!(GetRowsParams::decode(host).0, Err(DecodeError::MissingEndRow));

    let mut host = request(0, 100, vec![entry("age", "sideways")]);
    host.start_row = None;
    host.end_row = None;
    host.sort_model = None;
    assert_eq!(GetRowsParams::decode(host).0, Err(DecodeError::MissingStartRow));

    let blank = HostSortEntry { col_id: None, sort: None };
    let host = request(0, 100, vec![entry("a", "asc"), entry("b", "sideways"), blank]);
    assert_eq!(
        GetRowsParams::decode(host).0,
        Err(sort_error(1, SortEntryError::UnknownSortDirection))
    );
}

#[test]
fn a_missing_column_wins_within_one_entry() {
    let blank = HostSortEntry { col_id: None, sort: None };
    assert_eq!(SortModelItem::decode(blank), Err(SortEntryError::MissingColumnId));
    let nameless = HostSortEntry { col_id: None, sort: Some("sideways".to_string()) };
    assert_eq!(SortModelItem::decode(nameless), Err(SortEntryError::MissingColumnId));
}

#[test]
fn decodes_one_entry() {
    assert_eq!(SortModelItem::decode(entry("age", "desc")), Ok(item("age", SortDirection::Desc)));
    assert_eq!(SortModelItem::decode(entry("age", "asc")), Ok(item("age", SortDirection::Asc)));
    assert_eq!(
        SortModelItem::decode(entry("age", "DESC")),
        Err(SortEntryError::UnknownSortDirection)
    );
    assert_eq!(
        SortModelItem::decode(HostSortEntry { col_id: Some("age".to_string()), sort: None }),
        Err(SortEntryError::MissingSortDirection)
    );
}

#[test]
fn decodes_a_sort_list_alone() {
    assert_eq!(decode_sort_model(Vec::new()), Ok(Vec::new()));
    assert_eq!(
        decode_sort_model(vec![entry("age", "desc"), entry("name", "asc")]),
        Ok(vec![item("age", SortDirection::Desc), item("name", SortDirection::Asc)])
    );
    assert_eq!(
        decode_sort_model(vec![entry("age", "desc"), entry("name", "")]),
        Err(sort_error(1, SortEntryError::UnknownSortDirection))
    );
}
