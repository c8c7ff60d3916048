use setlist_cache::reconcile::{Action, Phase, Reconciler, ResolveError};
use setlist_cache::record::Show;
use setlist_cache::upstream::{decode_show, Member, UpstreamError};

fn show(id: &str, song: &str) -> Show {
    decode_show(&Some(vec![
        Member { key: "showid".to_string(), text: Some(id.to_string()) },
        Member { key: "song".to_string(), text: Some(song.to_string()) },
    ]))
}

fn ids(v: &[&str]) -> Vec<String> {
    v.iter().map(|s| s.to_string()).collect()
}

/// Plays the store (a table) and the upstream service for one request.
struct World {
    table: Vec<Show>,
    upstream: Vec<(String, Result<Vec<Show>, UpstreamError>)>,
    fetch_log: Vec<String>,
    insert_log: Vec<Show>,
    fail_inserts: bool,
    fail_reads: bool,
}

impl World {
    fn new(table: Vec<Show>) -> World {
        World { table, upstream: Vec::new(), fetch_log: Vec::new(), insert_log: Vec::new(), fail_inserts: false, fail_reads: false }
    }

    fn answer(&self, id: &str) -> Result<Vec<Show>, UpstreamError> {
        for (k, r) in &self.upstream {
            if k == id {
                return match r {
                    Ok(v) => Ok(v.clone()),
                    Err(UpstreamError::Transport(m)) => Err(UpstreamError::Transport(m.clone())),
                    Err(UpstreamError::Status(s)) => Err(UpstreamError::Status(*s)),
                    Err(UpstreamError::InvalidJson) => Err(UpstreamError::InvalidJson),
                    Err(UpstreamError::InvalidFormat) => Err(UpstreamError::InvalidFormat),
                };
            }
        }
        Ok(Vec::new())
    }

    fn resolve(&mut self, requested: &[&str]) -> Result<Vec<Show>, ResolveError> {
        let mut r = Reconciler::new(ids(requested))?;
        assert_eq!(r.phase(), Phase::AwaitStore);
        let query = r.store_query();
        let rows = if self.fail_reads {
            Err("store unreachable".to_string())
        } else {
            Ok(self.table.iter().filter(|s| query.contains(&s.showid)).cloned().collect())
        };
        let mut action = r.on_store_rows(rows);
        loop {
            action = match action {
                Action::Fetch(id) => {
                    self.fetch_log.push(id.clone());
                    let got = self.answer(&id);
                    r.on_fetched(got)
                }
                Action::Insert(s) => {
                    if self.fail_inserts {
                        r.on_inserted(Err("constraint failed".to_string()))
                    } else {
                        self.insert_log.push(s.clone());
                        self.table.push(s);
                        r.on_inserted(Ok(()))
                    }
                }
                Action::Finish(rows) => return Ok(rows),
                Action::Fail(e) => return Err(e),
            };
        }
    }
}

#[test]
fn empty_request_is_rejected() {
    assert!(matches!(Reconciler::new(Vec::new()), Err(ResolveError::InvalidRequest)));
    let mut w = World::new(vec![show("1", "a")]);
    assert!(matches!(w.resolve(&[]), Err(ResolveError::InvalidRequest)));
    assert!(w.fetch_log.is_empty());
    assert!(w.insert_log.is_empty());
}

#[test]
fn full_hit_is_served_from_store() {
    let mut w = World::new(vec![show("1", "a"), show("2", "b"), show("1", "c"), show("3", "d")]);
    let out = w.resolve(&["1", "2"]).unwrap();
    assert_eq!(out, vec![show("1", "a"), show("2", "b"), show("1", "c")]);
    assert!(w.fetch_log.is_empty());
    assert!(w.insert_log.is_empty());
}

#[test]
fn each_absent_identifier_is_fetched_once() {
    let mut w = World::new(vec![show("100", "a")]);
    w.upstream.push(("7".to_string(), Ok(vec![show("7", "x"), show("7", "y")])));
    w.upstream.push(("8".to_string(), Ok(vec![show("8", "z")])));
    let out = w.resolve(&["7", "100", "8", "7", "8"]).unwrap();
    assert_eq!(w.fetch_log, ids(&["7", "8"]));
    assert_eq!(w.insert_log, vec![show("7", "x"), show("7", "y"), show("8", "z")]);
    assert_eq!(out, vec![show("100", "a"), show("7", "x"), show("7", "y"), show("8", "z")]);
}

#[test]
fn repeated_request_hits_store_only() {
    let mut w = World::new(vec![show("1", "a")]);
    w.upstream.push(("2".to_string(), Ok(vec![show("2", "b")])));
    let first = w.resolve(&["1", "2", "3"]).unwrap();
    assert_eq!(w.fetch_log, ids(&["2", "3"]));
    w.fetch_log.clear();
    let second = w.resolve(&["1", "2", "3"]).unwrap();
    assert_eq!(w.fetch_log, ids(&["3"]));
    assert_eq!(first, second);
}

#[test]
fn failed_fetch_does_not_block_others() {
    let mut w = World::new(Vec::new());
    w.upstream.push(("A".to_string(), Err(UpstreamError::Transport("timed out".to_string()))));
    w.upstream.push(("B".to_string(), Ok(vec![show("B", "b1"), show("B", "b2")])));
    let out = w.resolve(&["A", "B"]).unwrap();
    assert_eq!(w.fetch_log, ids(&["A", "B"]));
    assert_eq!(out, vec![show("B", "b1"), show("B", "b2")]);
}

#[test]
fn status_failure_and_empty_answer_are_skipped() {
    let mut w = World::new(Vec::new());
    w.upstream.push(("A".to_string(), Err(UpstreamError::Status(503))));
    w.upstream.push(("C".to_string(), Ok(vec![show("C", "c")])));
    let out = w.resolve(&["A", "B", "C"]).unwrap();
    assert_eq!(w.fetch_log, ids(&["A", "B", "C"]));
    assert_eq!(out, vec![show("C", "c")]);
    assert_eq!(w.insert_log, vec![show("C", "c")]);
}

#[test]
fn end_to_end_scenario() {
    let mut w = World::new(vec![show("100", "first")]);
    w.upstream.push(("999".to_string(), Ok(vec![show("999", "x"), show("999", "y")])));
    let out = w.resolve(&["100", "999"]).unwrap();
    assert_eq!(out.len(), 3);
    assert_eq!(out, vec![show("100", "first"), show("999", "x"), show("999", "y")]);
    assert_eq!(w.table.len(), 3);
    assert_eq!(w.fetch_log, ids(&["999"]));
    w.fetch_log.clear();
    let again = w.resolve(&["100", "999"]).unwrap();
    assert!(w.fetch_log.is_empty());
    assert_eq!(again, out);
}

#[test]
fn store_read_failure_fails_request() {
    let mut w = World::new(vec![show("1", "a")]);
    w.fail_reads = true;
    match w.resolve(&["1"]) {
        Err(ResolveError::StorageError(m)) => assert_eq!(m, "store unreachable"),
        other => panic!("unexpected {:?}", other),
    }
    assert!(w.fetch_log.is_empty());
}

#[test]
fn store_write_failure_fails_request() {
    let mut w = World::new(Vec::new());
    w.fail_inserts = true;
    w.upstream.push(("5".to_string(), Ok(vec![show("5", "a")])));
    match w.resolve(&["5", "6"]) {
        Err(ResolveError::StorageError(m)) => assert_eq!(m, "constraint failed"),
        other => panic!("unexpected {:?}", other),
    }
    assert_eq!(w.fetch_log, ids(&["5"]));
}

#[test]
fn phases_follow_the_protocol() {
    let mut r = Reconciler::new(ids(&["9"])).unwrap();
    assert_eq!(r.store_query(), ids(&["9"]));
    let a = r.on_store_rows(Ok(Vec::new()));
    assert!(matches!(a, Action::Fetch(ref id) if id == "9"));
    assert_eq!(r.phase(), Phase::AwaitFetch);
    let a = r.on_fetched(Ok(vec![show("9", "s")]));
    assert!(matches!(a, Action::Insert(ref s) if *s == show("9", "s")));
    assert_eq!(r.phase(), Phase::AwaitInsert);
    let a = r.on_inserted(Ok(()));
    assert!(matches!(a, Action::Finish(ref v) if *v == vec![show("9", "s")]));
    assert_eq!(r.phase(), Phase::Finished);
}

#[test]
fn records_without_identifier_are_stored_and_returned() {
    let mut w = World::new(Vec::new());
    w.upstream.push(("4".to_string(), Ok(vec![show("", "blank"), show("4", "kept")])));
    w.upstream.push(("6".to_string(), Err(UpstreamError::Transport("reset".to_string()))));
    w.upstream.push(("7".to_string(), Ok(vec![show("", "only")])));
    let out = w.resolve(&["4", "6", "7"]).unwrap();
    let expected = vec![show("", "blank"), show("4", "kept"), show("", "only")];
    assert_eq!(out, expected);
    assert_eq!(w.insert_log, expected);
}
