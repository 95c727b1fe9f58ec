use incident_sync::listing::extract_listing_ids;
use incident_sync::listing::listing_request_url;

#[test]
fn list_call_is_scoped_to_the_page() {
    assert_eq!(listing_request_url("1"), "https://reqres.in/api/incidents?page=1");
    assert_eq!(listing_request_url("12"), "https://reqres.in/api/incidents?page=12");
}

#[test]
fn extracts_ids_in_document_order() {
    let ids = extract_listing_ids("{\"data\":[{\"id\":7},{\"id\":9}]}");
    assert_eq!(ids, vec![7, 9]);
}

#[test]
fn ignores_other_fields_of_the_elements() {
    let body = "{\"page\":1,\"data\":[{\"id\":7,\"email\":\"a@b.c\"},{\"name\":\"x\",\"id\":9}]}";
    assert_eq!(extract_listing_ids(body), vec![7, 9]);
}

#[test]
fn empty_data_array_yields_no_ids() {
    assert_eq!(extract_listing_ids("{\"data\":[]}"), Vec::<u64>::new());
}

#[test]
fn unparseable_body_yields_no_ids() {
    assert_eq!(extract_listing_ids("not json at all"), Vec::<u64>::new());
}

#[test]
fn missing_data_key_yields_no_ids() {
    assert_eq!(extract_listing_ids("{\"page\":1,\"total\":12}"), Vec::<u64>::new());
}

#[test]
fn non_array_data_yields_no_ids() {
    assert_eq!(extract_listing_ids("{\"data\":5}"), Vec::<u64>::new());
}

#[test]
fn element_without_id_drops_every_id() {
    let body = "{\"data\":[{\"id\":7},{\"email\":\"a@b.c\"}]}";
    assert_eq!(extract_listing_ids(body), Vec::<u64>::new());
}

#[test]
fn non_numeric_id_drops_every_id() {
    let body = "{\"data\":[{\"id\":\"7\"},{\"id\":9}]}";
    assert_eq!(extract_listing_ids(body), Vec::<u64>::new());
}

#[test]
fn negative_id_drops_every_id() {
    let body = "{\"data\":[{\"id\":-7}]}";
    assert_eq!(extract_listing_ids(body), Vec::<u64>::new());
}

#[test]
fn large_ids_survive_whole() {
    let body = "{\"data\":[{\"id\":18446744073709551615}]}";
    assert_eq!(extract_listing_ids(body), vec![u64::MAX]);
}
