use dedup_counter::error::{ServiceError, StoreFault};
use dedup_counter::record::{DedupRecord, Record, RETENTION_SECS};
use dedup_counter::response::{ContentType, Response};
use dedup_counter::service::{
    get_handler, get_request, handler, json_response, put_handler, put_request, respond,
    select_operation, Operation, Request,
};
use dedup_counter::store::StoreOutcome;
use std::collections::HashMap;

const PATH: &str = "/550e8400-e29b-41d4-a716-446655440000";
const KEY: &str = "550e8400-e29b-41d4-a716-446655440000";
const OTHER_PATH: &str = "/550e8400-e29b-41d4-a716-446655440099";

/// A store that applies every upsert atomically, in memory.
struct Shelf {
    records: HashMap<String, DedupRecord>,
}

impl Shelf {
    fn new() -> Shelf {
        Shelf { records: HashMap::new() }
    }

    fn read(&self, key: &str) -> StoreOutcome {
        match self.records.get(key) {
            Some(r) => StoreOutcome::Present(r.project()),
            None => StoreOutcome::Absent,
        }
    }

    fn upsert(&mut self, key: &str, now: u64) -> StoreOutcome {
        let updated = DedupRecord::upsert(self.records.remove(key), key, now);
        let seen = updated.project();
        self.records.insert(key.to_string(), updated);
        StoreOutcome::Present(seen)
    }
}

fn serve(shelf: &mut Shelf, method: &str, path: &str, clock: Option<u64>) -> Response {
    let request = match handler(path, method) {
        Ok(request) => request,
        Err(e) => return e.response(),
    };
    match request.operation {
        Operation::Read => {
            let cmd = get_request(&request.key);
            let outcome = shelf.read(&cmd.key);
            respond(get_handler(&cmd, outcome))
        }
        Operation::Upsert => match put_request(&request.key, clock) {
            Err(e) => e.response(),
            Ok(cmd) => {
                let outcome = shelf.upsert(&cmd.key, cmd.now);
                respond(put_handler(&cmd, outcome))
            }
        },
    }
}

fn json(body: &str) -> Response {
    Response { status: 200, content_type: ContentType::Json, body: body.to_string() }
}

fn parsed(r: &Response) -> (u64, u64, u64) {
    let v: serde_json::Value = serde_json::from_str(&r.body).unwrap();
    (v["cnt"].as_u64().unwrap(), v["fst"].as_u64().unwrap(), v["lst"].as_u64().unwrap())
}

#[test]
fn scenario_first_put_counts_one() {
    let mut shelf = Shelf::new();
    let t = 1_700_000_000;
    let r = serve(&mut shelf, "PUT", PATH, Some(t));
    assert_eq!(r, json("{\"cnt\":1,\"fst\":1700000000,\"lst\":1700000000}"));
}

#[test]
fn scenario_get_after_put_returns_the_record() {
    let mut shelf = Shelf::new();
    serve(&mut shelf, "PUT", PATH, Some(1_700_000_000));
    let r = serve(&mut shelf, "GET", PATH, None);
    assert_eq!(r, json("{\"cnt\":1,\"fst\":1700000000,\"lst\":1700000000}"));
}

#[test]
fn scenario_second_put_counts_two_and_moves_last_seen() {
    let mut shelf = Shelf::new();
    serve(&mut shelf, "PUT", PATH, Some(1_700_000_000));
    let r = serve(&mut shelf, "PUT", PATH, Some(1_700_000_777));
    assert_eq!(r, json("{\"cnt\":2,\"fst\":1700000000,\"lst\":1700000777}"));
    let again = serve(&mut shelf, "GET", PATH, None);
    assert_eq!(again, r);
}

#[test]
fn scenario_get_of_a_malformed_path_is_400() {
    let mut shelf = Shelf::new();
    let r = serve(&mut shelf, "GET", "/not-a-uuid", None);
    assert_eq!(r.status, 400);
    assert_eq!(r.content_type, ContentType::PlainText);
    assert_eq!(r.body, "bad request");
}

#[test]
fn scenario_get_of_an_unwritten_key_is_404() {
    let mut shelf = Shelf::new();
    serve(&mut shelf, "PUT", PATH, Some(1_700_000_000));
    let r = serve(&mut shelf, "GET", OTHER_PATH, None);
    assert_eq!(r.status, 404);
    assert_eq!(r.content_type, ContentType::PlainText);
    assert_eq!(r.body, "not found");
}

#[test]
fn scenario_delete_is_405() {
    let mut shelf = Shelf::new();
    let r = serve(&mut shelf, "DELETE", PATH, Some(1_700_000_000));
    assert_eq!(r.status, 405);
    assert_eq!(r.content_type, ContentType::PlainText);
    assert_eq!(r.body, "method not allowed");
    assert!(shelf.records.is_empty());
}

#[test]
fn malformed_path_is_400_whatever_the_method() {
    let paths = [
        "",
        "/",
        "/not-a-uuid",
        "550e8400-e29b-41d4-a716-446655440000",
        "/550e8400-e29b-31d4-a716-446655440000",
        "/550e8400-e29b-41d4-c716-446655440000",
        "/550e8400-e29b-41d4-a716-446655440000/",
        "/550e8400-e29b-41d4-a716-44665544000g",
    ];
    let methods = ["GET", "PUT", "DELETE", "POST", "PATCH", "HEAD", "OPTIONS", "", "get"];
    for path in paths {
        for method in methods {
            assert_eq!(handler(path, method), Err(ServiceError::Validation), "{} {}", method, path);
            let mut shelf = Shelf::new();
            assert_eq!(serve(&mut shelf, method, path, Some(1)).status, 400);
            assert!(shelf.records.is_empty());
        }
    }
}

#[test]
fn every_other_method_is_405() {
    let methods =
        ["DELETE", "POST", "PATCH", "HEAD", "OPTIONS", "TRACE", "CONNECT", "", "get", "put", "GETS", "PU"];
    for method in methods {
        assert_eq!(handler(PATH, method), Err(ServiceError::MethodNotSupported), "{}", method);
        let mut shelf = Shelf::new();
        assert_eq!(serve(&mut shelf, method, PATH, Some(1)).status, 405);
    }
}

#[test]
fn dispatch_selects_by_method() {
    assert_eq!(select_operation("GET"), Some(Operation::Read));
    assert_eq!(select_operation("PUT"), Some(Operation::Upsert));
    assert_eq!(select_operation("DELETE"), None);
    assert_eq!(select_operation("get"), None);
    assert_eq!(select_operation(""), None);
}

#[test]
fn handler_returns_operation_and_key() {
    assert_eq!(
        handler(PATH, "GET"),
        Ok(Request { operation: Operation::Read, key: KEY.to_string() })
    );
    assert_eq!(
        handler(PATH, "PUT"),
        Ok(Request { operation: Operation::Upsert, key: KEY.to_string() })
    );
}

#[test]
fn read_of_a_key_never_upserted_is_404() {
    let mut shelf = Shelf::new();
    assert_eq!(serve(&mut shelf, "GET", PATH, None).status, 404);
    for now in 0..5 {
        serve(&mut shelf, "PUT", OTHER_PATH, Some(now));
    }
    assert_eq!(serve(&mut shelf, "GET", PATH, None).status, 404);
    assert_eq!(serve(&mut shelf, "GET", OTHER_PATH, None).status, 200);
}

#[test]
fn sequential_puts_count_each_call() {
    let mut shelf = Shelf::new();
    let mut last = Response::not_found();
    for i in 0..25u64 {
        last = serve(&mut shelf, "PUT", PATH, Some(1_000 + 3 * i));
        assert_eq!(parsed(&last), (i + 1, 1_000, 1_000 + 3 * i));
    }
    assert_eq!(last.body, "{\"cnt\":25,\"fst\":1000,\"lst\":1072}");
    assert_eq!(shelf.records[KEY].exp, 1_000 + RETENTION_SECS);
}

#[test]
fn puts_on_other_keys_do_not_disturb_a_key() {
    let mut shelf = Shelf::new();
    serve(&mut shelf, "PUT", PATH, Some(10));
    serve(&mut shelf, "PUT", OTHER_PATH, Some(11));
    serve(&mut shelf, "PUT", OTHER_PATH, Some(12));
    serve(&mut shelf, "PUT", PATH, Some(13));
    serve(&mut shelf, "PUT", OTHER_PATH, Some(14));
    assert_eq!(parsed(&serve(&mut shelf, "GET", PATH, None)), (2, 10, 13));
    assert_eq!(parsed(&serve(&mut shelf, "GET", OTHER_PATH, None)), (3, 11, 14));
}

#[test]
fn upsert_body_reads_back_with_its_invariants() {
    let mut shelf = Shelf::new();
    for now in [5u64, 5, 6, 100, 100, 2_000_000_000] {
        let r = serve(&mut shelf, "PUT", PATH, Some(now));
        assert_eq!(r.status, 200);
        assert_eq!(r.content_type, ContentType::Json);
        let (cnt, fst, lst) = parsed(&r);
        assert!(cnt >= 1);
        assert!(fst <= lst);
        assert_eq!(lst, now);
    }
}

#[test]
fn put_without_a_clock_fails_before_the_store() {
    assert_eq!(put_request(KEY, None), Err(ServiceError::Clock));
    let mut shelf = Shelf::new();
    let r = serve(&mut shelf, "PUT", PATH, None);
    assert_eq!(r.status, 500);
    assert_eq!(r.body, "Internal Server Error: system time is unavailable");
    assert!(shelf.records.is_empty());
}

#[test]
fn put_request_computes_the_expiry() {
    let cmd = put_request(KEY, Some(1_700_000_000)).unwrap();
    assert_eq!(cmd.key, KEY);
    assert_eq!(cmd.now, 1_700_000_000);
    assert_eq!(cmd.exp, 1_731_536_000);
    assert_eq!(cmd.increment, 1);
    let latest = put_request(KEY, Some(u64::MAX - RETENTION_SECS)).unwrap();
    assert_eq!(latest.exp, u64::MAX);
}

#[test]
fn get_request_targets_the_key() {
    let cmd = get_request(KEY);
    assert_eq!(cmd.table, "Dedup");
    assert_eq!(cmd.key_attribute, "pk");
    assert_eq!(cmd.key, KEY);
    assert_eq!(cmd.projection, "cnt,fst,lst");
}

#[test]
fn get_handler_maps_each_outcome() {
    let cmd = get_request(KEY);
    assert_eq!(
        get_handler(&cmd, StoreOutcome::Failed("Err(Down)".to_string())),
        Err(ServiceError::StoreRead {
            fault: StoreFault::Failed("Err(Down)".to_string()),
            key: KEY.to_string(),
        })
    );
    assert_eq!(get_handler(&cmd, StoreOutcome::Absent), Ok(Response::not_found()));
    assert_eq!(
        get_handler(&cmd, StoreOutcome::Undecodable),
        Err(ServiceError::StoreRead { fault: StoreFault::Undecodable, key: KEY.to_string() })
    );
    assert_eq!(
        get_handler(&cmd, StoreOutcome::Present(Record { cnt: 3, fst: 1, lst: 2 })),
        Ok(json("{\"cnt\":3,\"fst\":1,\"lst\":2}"))
    );
}

#[test]
fn put_handler_maps_each_outcome() {
    let cmd = put_request(KEY, Some(77)).unwrap();
    let failed = |fault: StoreFault| {
        Err(ServiceError::StoreUpsert {
            fault,
            key: KEY.to_string(),
            exp: 77 + RETENTION_SECS,
            now: 77,
        })
    };
    assert_eq!(
        put_handler(&cmd, StoreOutcome::Failed("Err(Down)".to_string())),
        failed(StoreFault::Failed("Err(Down)".to_string()))
    );
    assert_eq!(put_handler(&cmd, StoreOutcome::Absent), failed(StoreFault::EmptyReply));
    assert_eq!(put_handler(&cmd, StoreOutcome::Undecodable), failed(StoreFault::Undecodable));
    assert_eq!(
        put_handler(&cmd, StoreOutcome::Present(Record { cnt: 9, fst: 70, lst: 77 })),
        Ok(json("{\"cnt\":9,\"fst\":70,\"lst\":77}"))
    );
}

#[test]
fn store_failures_are_reported_as_500_with_context() {
    let get = get_request(KEY);
    let read = respond(get_handler(&get, StoreOutcome::Failed("Err(Down)".to_string())));
    assert_eq!(read.status, 500);
    assert_eq!(read.content_type, ContentType::PlainText);
    assert_eq!(
        read.body,
        "Internal Server Error: Err(Down); key=550e8400-e29b-41d4-a716-446655440000;"
    );
    let garbled = respond(get_handler(&get, StoreOutcome::Undecodable));
    assert_eq!(garbled.status, 500);
    assert_eq!(
        garbled.body,
        "Internal Server Error: deserialization failure; key=550e8400-e29b-41d4-a716-446655440000;"
    );
    let put = put_request(KEY, Some(77)).unwrap();
    let write = respond(put_handler(&put, StoreOutcome::Failed("Err(Down)".to_string())));
    assert_eq!(write.status, 500);
    assert_eq!(
        write.body,
        "Internal Server Error: Err(Down); key=550e8400-e29b-41d4-a716-446655440000; exp=31536077; now=77;"
    );
    let empty = respond(put_handler(&put, StoreOutcome::Absent));
    assert_eq!(empty.status, 500);
    assert_eq!(
        empty.body,
        "Internal Server Error: missing data after update; key=550e8400-e29b-41d4-a716-446655440000; exp=31536077; now=77;"
    );
}

#[test]
fn json_response_wraps_the_encoded_record() {
    assert_eq!(
        json_response(&Record { cnt: 1, fst: 2, lst: 3 }),
        Ok(json("{\"cnt\":1,\"fst\":2,\"lst\":3}"))
    );
}

#[test]
fn json_response_of_the_largest_numbers() {
    assert_eq!(
        json_response(&Record { cnt: u64::MAX, fst: u64::MAX, lst: u64::MAX }),
        Ok(json(
            "{\"cnt\":18446744073709551615,\"fst\":18446744073709551615,\"lst\":18446744073709551615}"
        ))
    );
    assert_eq!(
        json_response(&Record { cnt: 0, fst: 0, lst: 0 }),
        Ok(json("{\"cnt\":0,\"fst\":0,\"lst\":0}"))
    );
}

#[test]
fn read_of_a_present_record_answers_its_three_members() {
    let cmd = get_request(KEY);
    let outcome = StoreOutcome::Present(Record { cnt: 3, fst: 1_700_000_000, lst: 1_700_000_120 });
    let r = respond(get_handler(&cmd, outcome));
    assert_eq!(r, json("{\"cnt\":3,\"fst\":1700000000,\"lst\":1700000120}"));
}

#[test]
fn status_follows_the_store_outcome() {
    let get = get_request(KEY);
    let put = put_request(KEY, Some(1_700_000_060)).unwrap();
    let outcomes = [
        (StoreOutcome::Failed("Err(Down)".to_string()), 500, 500),
        (StoreOutcome::Absent, 404, 500),
        (StoreOutcome::Undecodable, 500, 500),
        (StoreOutcome::Present(Record { cnt: 2, fst: 1_700_000_000, lst: 1_700_000_060 }), 200, 200),
    ];
    for (outcome, read, write) in outcomes {
        assert_eq!(respond(get_handler(&get, outcome.clone())).status, read);
        assert_eq!(respond(put_handler(&put, outcome)).status, write);
    }
}

#[test]
fn read_after_upsert_answers_the_same_body() {
    let mut shelf = Shelf::new();
    for now in [1_700_000_000u64, 1_700_000_060, 1_700_000_120] {
        let written = serve(&mut shelf, "PUT", PATH, Some(now));
        assert_eq!(written.status, 200);
        assert_eq!(serve(&mut shelf, "GET", PATH, None), written);
        assert_eq!(serve(&mut shelf, "GET", PATH, None), written);
    }
}

#[test]
fn respond_keeps_a_response_and_converts_an_error() {
    assert_eq!(respond(Ok(Response::not_found())), Response::not_found());
    assert_eq!(respond(Err(ServiceError::Serialization)), ServiceError::Serialization.response());
    assert_eq!(respond(Err(ServiceError::Validation)).status, 400);
}
