use setlist_cache::upstream::{decode_answer, decode_document, decode_show, Entry, Member, UpstreamError};

fn member(k: &str, v: Option<&str>) -> Member {
    Member { key: k.to_string(), text: v.map(|s| s.to_string()) }
}

#[test]
fn decodes_every_element_of_data() {
    let body = r#"{"data":[{"showid":"1252","song":"Tweezer","venue":"MSG","city":"New York"},{"showid":"1252","song":"Harry Hood"}],"error":false}"#;
    let rows = decode_answer(200, body).unwrap();
    assert_eq!(rows.len(), 2);
    assert_eq!(rows[0].showid, "1252");
    assert_eq!(rows[0].song, "Tweezer");
    assert_eq!(rows[0].venue, "MSG");
    assert_eq!(rows[0].city, "New York");
    assert_eq!(rows[0].state, "");
    assert_eq!(rows[1].song, "Harry Hood");
    assert_eq!(rows[1].venue, "");
}

#[test]
fn non_string_fields_read_as_empty() {
    let body = r#"{"data":[{"showid":42,"song":null,"gap":"3","isjam":true}, 7]}"#;
    let rows = decode_answer(204, body).unwrap();
    assert_eq!(rows.len(), 2);
    assert_eq!(rows[0].showid, "");
    assert_eq!(rows[0].song, "");
    assert_eq!(rows[0].gap, "3");
    assert_eq!(rows[0].isjam, "");
    assert_eq!(rows[1].showid, "");
}

#[test]
fn empty_data_gives_no_records() {
    assert_eq!(decode_answer(200, r#"{"error":false,"data":[]}"#).unwrap().len(), 0);
}

#[test]
fn status_outside_success_is_an_error() {
    assert_eq!(decode_answer(404, r#"{"data":[]}"#), Err(UpstreamError::Status(404)));
    assert_eq!(decode_answer(199, "{}"), Err(UpstreamError::Status(199)));
    assert_eq!(decode_answer(300, "{}"), Err(UpstreamError::Status(300)));
}

#[test]
fn malformed_bodies_are_errors() {
    assert_eq!(decode_answer(200, "not json"), Err(UpstreamError::InvalidJson));
    assert_eq!(decode_answer(200, r#"{"data":"#), Err(UpstreamError::InvalidJson));
    assert_eq!(decode_answer(200, r#"[1,2]"#), Err(UpstreamError::InvalidFormat));
    assert_eq!(decode_answer(200, r#""data""#), Err(UpstreamError::InvalidFormat));
}

#[test]
fn answer_without_data_array_has_no_records() {
    assert_eq!(decode_answer(200, r#"{"data":{"showid":"1"}}"#), Ok(Vec::new()));
    assert_eq!(decode_answer(200, r#"{"rows":[]}"#), Ok(Vec::new()));
    assert_eq!(decode_answer(200, r#"{"error":true,"error_message":"No show found"}"#), Ok(Vec::new()));
}

#[test]
fn decode_document_reads_data_member() {
    let doc = Some(Some(vec![
        Entry { key: "count".to_string(), items: None },
        Entry {
            key: "data".to_string(),
            items: Some(vec![Some(vec![member("showid", Some("5")), member("set", Some("2"))]), None]),
        },
    ]));
    let rows = decode_document(doc).unwrap();
    assert_eq!(rows.len(), 2);
    assert_eq!(rows[0].showid, "5");
    assert_eq!(rows[0].set, "2");
    assert_eq!(rows[1].set, "");
    assert_eq!(decode_document(None), Err(UpstreamError::InvalidJson));
    assert_eq!(decode_document(Some(None)), Err(UpstreamError::InvalidFormat));
    assert_eq!(decode_document(Some(Some(Vec::new()))), Ok(Vec::new()));
    let no_array = Some(Some(vec![Entry { key: "data".to_string(), items: None }]));
    assert_eq!(decode_document(no_array), Ok(Vec::new()));
}

#[test]
fn decode_show_takes_first_member_of_a_name() {
    let s = decode_show(&Some(vec![member("tourname", None), member("tourname", Some("Fall")), member("artist_name", Some("Phish"))]));
    assert_eq!(s.tourname, "");
    assert_eq!(s.artist_name, "Phish");
    let blank = decode_show(&None);
    assert_eq!(blank.showid, "");
}
