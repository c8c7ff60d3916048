use setlist_cache::record::Show;
use setlist_cache::request::{cors_headers, missing_ids_reply, preflight, requested_ids};
use setlist_cache::store::{column_names, insert_statement, lookup_statement};
use setlist_cache::upstream::{api_url, decode_show, Member};

fn pair(k: &str, v: &str) -> (String, String) {
    (k.to_string(), v.to_string())
}

#[test]
fn identifiers_come_from_showid_parameters() {
    let pairs = vec![pair("showid", "100"), pair("x", "1"), pair("showid", "999"), pair("showid", "100")];
    assert_eq!(requested_ids(&pairs), vec!["100".to_string(), "999".to_string(), "100".to_string()]);
    assert!(requested_ids(&vec![pair("id", "1")]).is_empty());
    assert!(requested_ids(&Vec::new()).is_empty());
}

#[test]
fn preflight_is_empty_success_with_cors() {
    let r = preflight();
    assert!((200..300).contains(&r.status));
    assert_eq!(r.body, "");
    assert_eq!(
        r.headers,
        vec![
            pair("Access-Control-Allow-Origin", "*"),
            pair("Access-Control-Allow-Credentials", "true"),
            pair("Access-Control-Allow-Methods", "GET, OPTIONS"),
            pair("Access-Control-Allow-Headers", "*"),
        ]
    );
    assert_eq!(cors_headers(), r.headers);
}

#[test]
fn row_binds_each_field_to_its_own_column() {
    let names = column_names();
    assert_eq!(names.len(), 37);
    let members: Vec<Member> = names
        .iter()
        .map(|n| Member { key: n.clone(), text: Some(format!("v-{}", n)) })
        .collect();
    let s: Show = decode_show(&Some(members));
    let row = s.row();
    assert_eq!(row.len(), names.len());
    for (n, v) in names.iter().zip(row.iter()) {
        assert_eq!(*v, format!("v-{}", n));
    }
    let mut sorted = names.clone();
    sorted.sort();
    sorted.dedup();
    assert_eq!(sorted.len(), 37);
    assert_eq!(names[0], "showid");
    assert!(names.contains(&"venue".to_string()));
}

#[test]
fn missing_ids_reply_is_client_error_with_cors() {
    let r = missing_ids_reply();
    assert_eq!(r.status, 400);
    assert_eq!(r.body, "No showid query parameter provided");
    assert_eq!(r.headers, cors_headers());
    assert_eq!(r.headers.len(), 4);
}

#[test]
fn lookup_statement_binds_each_identifier() {
    assert_eq!(lookup_statement(1), "SELECT * FROM shows WHERE showid IN (?)");
    assert_eq!(lookup_statement(3), "SELECT * FROM shows WHERE showid IN (?, ?, ?)");
}

#[test]
fn insert_statement_names_every_column_once() {
    let sql = insert_statement();
    let quoted: Vec<String> = column_names().iter().map(|c| format!("\"{}\"", c)).collect();
    let slots: Vec<&str> = column_names().iter().map(|_| "?").collect();
    let expected = format!("INSERT INTO shows ({}) VALUES ({})", quoted.join(", "), slots.join(", "));
    assert_eq!(sql, expected);
    assert!(sql.starts_with("INSERT INTO shows (\"showid\", \"showdate\", \"permalink\""));
    assert!(sql.contains("\"venue\", \"city\", \"state\", \"country\""));
    assert_eq!(sql.matches('?').count(), 37);
}

#[test]
fn api_url_names_show_and_key() {
    assert_eq!(
        api_url(&"1252".to_string(), &"K3Y".to_string()),
        "https://api.phish.net/v5/setlists/showid/1252.json?apikey=K3Y"
    );
}
