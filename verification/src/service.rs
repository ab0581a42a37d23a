//! The request flow: validate the path, select the operation by the method,
//! describe the store command, and turn what the store answered into a
//! response. The caller performs the store round trip between the steps.

use vstd::prelude::*;
use vstd::string::*;
use crate::error::{ServiceError, ServiceErrorView, StoreFault, StoreFaultView};
use crate::identifier::{is_identifier_path, parse_identifier, path_identifier};
use crate::json::{encode_record, lemma_parsed_back, parsed_back, record_json};
use crate::record::{lemma_sequential_upserts, upserted, Record, RecordState, RETENTION_SECS};
use crate::response::{json_ok, not_found, Response, ResponseView};
use crate::store::{
    answer, lemma_store_keeps_keys_apart, lemma_unwritten_key_is_absent, lookup, projection,
    representable, store_after, times_for, ReadCommand, StoreOutcome, UpsertCommand, UpsertEvent,
};
use crate::text::same_text;

verus! {

/// The two operations on a counter.
#[derive(Clone, Copy, Debug, PartialEq, Eq, Structural)]
pub enum Operation {
    /// Return the record of a key.
    Read,
    /// Count one more observation of a key.
    Upsert,
}

/// A request that passed validation and dispatch.
#[derive(Clone, Debug, PartialEq, Eq)]
pub struct Request {
    pub operation: Operation,
    pub key: String,
}

/// A valid request as a mathematical value.
pub struct RequestView {
    pub operation: Operation,
    pub key: Seq<char>,
}

impl View for Request {
    type V = RequestView;

    open spec fn view(&self) -> RequestView {
        RequestView { operation: self.operation, key: self.key@ }
    }
}

/// The operation that a method selects: `PUT` writes, `GET` reads, and no
/// other method is supported.
pub open spec fn selected(method: Seq<char>) -> Option<Operation> {
    if method == "PUT"@ {
        Some(Operation::Upsert)
    } else if method == "GET"@ {
        Some(Operation::Read)
    } else {
        None
    }
}

/// Validation, then dispatch: a path outside the grammar fails whatever the
/// method is; on a valid path the method selects the operation.
pub open spec fn routed(path: Seq<char>, method: Seq<char>) -> Result<
    RequestView,
    ServiceErrorView,
> {
    if !is_identifier_path(path) {
        Err(ServiceErrorView::Validation)
    } else {
        match selected(method) {
            Some(operation) => Ok(RequestView { operation, key: path_identifier(path) }),
            None => Err(ServiceErrorView::MethodNotSupported),
        }
    }
}

/// The success response for a record: status 200 with the record's JSON
/// text.
pub open spec fn json_result(record: Record) -> Result<ResponseView, ServiceErrorView> {
    Ok(json_ok(record_json(record)))
}

/// The result of a read, given what the store answered: the record as JSON
/// when it is there, the 404 response when the key has no record, and an
/// error with the key when the store failed or returned something else.
pub open spec fn read_result(key: Seq<char>, outcome: StoreOutcome) -> Result<
    ResponseView,
    ServiceErrorView,
> {
    match outcome {
        StoreOutcome::Failed(detail) => Err(
            ServiceErrorView::StoreRead { fault: StoreFaultView::Failed(detail@), key },
        ),
        StoreOutcome::Absent => Ok(not_found()),
        StoreOutcome::Undecodable => Err(
            ServiceErrorView::StoreRead { fault: StoreFaultView::Undecodable, key },
        ),
        StoreOutcome::Present(record) => json_result(record),
    }
}

/// The result of the upsert of `key`, sent with the times `exp` and `now`,
/// given what the store answered: the updated record as JSON, or an error
/// with the key and the times when the store failed, returned nothing, or
/// returned something else.
pub open spec fn upsert_result(key: Seq<char>, exp: u64, now: u64, outcome: StoreOutcome) -> Result<
    ResponseView,
    ServiceErrorView,
> {
    match outcome {
        StoreOutcome::Failed(detail) => Err(
            ServiceErrorView::StoreUpsert { fault: StoreFaultView::Failed(detail@), key, exp, now },
        ),
        StoreOutcome::Absent => Err(
            ServiceErrorView::StoreUpsert { fault: StoreFaultView::EmptyReply, key, exp, now },
        ),
        StoreOutcome::Undecodable => Err(
            ServiceErrorView::StoreUpsert { fault: StoreFaultView::Undecodable, key, exp, now },
        ),
        StoreOutcome::Present(record) => json_result(record),
    }
}

/// A result of validation and dispatch as a mathematical value.
pub open spec fn viewed_request(r: Result<Request, ServiceError>) -> Result<
    RequestView,
    ServiceErrorView,
> {
    match r {
        Ok(request) => Ok(request@),
        Err(e) => Err(e@),
    }
}

/// A result as a mathematical value.
pub open spec fn viewed(r: Result<Response, ServiceError>) -> Result<
    ResponseView,
    ServiceErrorView,
> {
    match r {
        Ok(response) => Ok(response@),
        Err(e) => Err(e@),
    }
}

/// The one response that a result ends in.
pub open spec fn final_reply(r: Result<ResponseView, ServiceErrorView>) -> ResponseView {
    match r {
        Ok(response) => response,
        Err(e) => e.reply(),
    }
}

/// Selects the operation for a method.
pub fn select_operation(method: &str) -> (operation: Option<Operation>)
    ensures
        operation == selected(method@),
{
    if same_text(method, "PUT") {
        Some(Operation::Upsert)
    } else if same_text(method, "GET") {
        Some(Operation::Read)
    } else {
        None
    }
}

/// Validates the path and dispatches on the method. Fails with
/// `Validation`, which is reported as status 400, on every path outside the
/// grammar, whatever the method; and with `MethodNotSupported`, reported as
/// 405, on a valid path with any method but `GET` and `PUT`.
pub fn handler(path: &str, method: &str) -> (r: Result<Request, ServiceError>)
    ensures
        viewed_request(r) == routed(path@, method@),
        !is_identifier_path(path@) ==> (r matches Err(e) && e@ == ServiceErrorView::Validation
            && e@.reply().status == 400),
        is_identifier_path(path@) && method@ != "GET"@ && method@ != "PUT"@ ==> (r matches Err(e)
            && e@ == ServiceErrorView::MethodNotSupported && e@.reply().status == 405),
{
    match parse_identifier(path) {
        None => Err(ServiceError::Validation),
        Some(key) => match select_operation(method) {
            Some(operation) => Ok(Request { operation, key }),
            None => Err(ServiceError::MethodNotSupported),
        },
    }
}

/// The store command of a read: the lookup of the key, projected to the
/// fields that a client sees.
pub fn get_request(key: &str) -> (cmd: ReadCommand)
    ensures
        cmd.reads(key@),
{
    ReadCommand {
        table: String::from_str("Dedup"),
        key_attribute: String::from_str("pk"),
        key: String::from_str(key),
        projection: String::from_str("cnt,fst,lst"),
    }
}

/// The store command of an upsert, from the key and the clock's reading:
/// epoch seconds, or `None` when the clock gave no time. Without a time
/// the upsert fails before the store is contacted. With one, the command
/// does on any record, or none, what the increment-or-initialize rule says,
/// with an expiry one retention window after the reading.
pub fn put_request(key: &str, clock: Option<u64>) -> (r: Result<UpsertCommand, ServiceError>)
    requires
        clock matches Some(now) ==> now + RETENTION_SECS <= u64::MAX,
    ensures
        match clock {
            Some(now) => r matches Ok(cmd) && cmd.upserts(key@, now) && forall|
                prev: Option<RecordState>,
            | #[trigger] cmd.applied_to(prev) == upserted(prev, now as nat),
            None => r matches Err(e) && e@ == ServiceErrorView::Clock,
        },
{
    match clock {
        Some(now) => Ok(
            UpsertCommand {
                table: String::from_str("Dedup"),
                key_attribute: String::from_str("pk"),
                key: String::from_str(key),
                expression: String::from_str(
                    "ADD cnt :cnt SET lst = :now, fst = if_not_exists(fst, :now), exp = if_not_exists(exp, :exp)",
                ),
                increment: 1,
                now,
                exp: now + RETENTION_SECS,
            },
        ),
        None => Err(ServiceError::Clock),
    }
}

/// The success response for a record: always status 200 with the record's
/// JSON text.
pub fn json_response(record: &Record) -> (r: Result<Response, ServiceError>)
    ensures
        r matches Ok(response) && response@ == json_ok(record_json(*record)),
        viewed(r) == json_result(*record),
{
    match encode_record(record) {
        Ok(body) => Ok(Response::json(body)),
        Err(e) => Err(e),
    }
}

fn upsert_failed(cmd: &UpsertCommand, fault: StoreFault) -> (e: ServiceError)
    ensures
        e@ == (ServiceErrorView::StoreUpsert {
            fault: fault@,
            key: cmd.key@,
            exp: cmd.exp,
            now: cmd.now,
        }),
{
    ServiceError::StoreUpsert { fault, key: cmd.key.clone(), exp: cmd.exp, now: cmd.now }
}

/// Finishes a read with what the store answered: the record as JSON when it
/// is there, the 404 response when the key has no record, and an error with
/// the key when the store failed or returned something else.
pub fn get_handler(cmd: &ReadCommand, outcome: StoreOutcome) -> (r: Result<Response, ServiceError>)
    ensures
        viewed(r) == read_result(cmd.key@, outcome),
{
    match outcome {
        StoreOutcome::Failed(detail) => Err(
            ServiceError::StoreRead { fault: StoreFault::Failed(detail), key: cmd.key.clone() },
        ),
        StoreOutcome::Absent => Ok(Response::not_found()),
        StoreOutcome::Undecodable => Err(
            ServiceError::StoreRead { fault: StoreFault::Undecodable, key: cmd.key.clone() },
        ),
        StoreOutcome::Present(record) => json_response(&record),
    }
}

/// Finishes an upsert with what the store answered: the updated record as
/// JSON, or an error with the key and the times that were sent when the
/// store failed, returned nothing, or returned something else.
pub fn put_handler(cmd: &UpsertCommand, outcome: StoreOutcome) -> (r: Result<
    Response,
    ServiceError,
>)
    ensures
        viewed(r) == upsert_result(cmd.key@, cmd.exp, cmd.now, outcome),
{
    match outcome {
        StoreOutcome::Failed(detail) => Err(upsert_failed(cmd, StoreFault::Failed(detail))),
        StoreOutcome::Absent => Err(upsert_failed(cmd, StoreFault::EmptyReply)),
        StoreOutcome::Undecodable => Err(upsert_failed(cmd, StoreFault::Undecodable)),
        StoreOutcome::Present(record) => json_response(&record),
    }
}

/// Turns a result into the one response that the client gets: every failure
/// becomes its response, nothing is dropped.
pub fn respond(r: Result<Response, ServiceError>) -> (response: Response)
    ensures
        response@ == final_reply(viewed(r)),
{
    match r {
        Ok(response) => response,
        Err(e) => e.response(),
    }
}

/// Every path outside the grammar ends in status 400, whatever the method.
pub proof fn lemma_malformed_path_is_bad_request(path: Seq<char>, method: Seq<char>)
    requires
        !is_identifier_path(path),
    ensures
        routed(path, method) == Err::<RequestView, _>(ServiceErrorView::Validation),
        ServiceErrorView::Validation.reply().status == 400,
{
}

/// On a valid path every method but the read and the write method ends in
/// status 405.
pub proof fn lemma_unsupported_method_is_rejected(path: Seq<char>, method: Seq<char>)
    requires
        is_identifier_path(path),
        method != "GET"@,
        method != "PUT"@,
    ensures
        routed(path, method) == Err::<RequestView, _>(ServiceErrorView::MethodNotSupported),
        ServiceErrorView::MethodNotSupported.reply().status == 405,
{
}

/// A read of a key that was never upserted ends in status 404, whatever was
/// upserted on other keys.
pub proof fn lemma_read_of_unwritten_key_is_not_found(events: Seq<UpsertEvent>, key: Seq<char>)
    requires
        forall|i: int| 0 <= i < events.len() ==> (#[trigger] events[i]).key != key,
    ensures
        read_result(key, answer(lookup(store_after(events), key))) == Ok::<_, ServiceErrorView>(
            not_found(),
        ),
        not_found().status == 404,
{
    lemma_unwritten_key_is_absent(events, key);
}

/// A read answers status 200 exactly when the store returned a record, 404
/// exactly when it holds none, and 500 exactly when it failed or returned
/// something else.
pub proof fn lemma_read_status(key: Seq<char>, outcome: StoreOutcome)
    ensures
        final_reply(read_result(key, outcome)).status == 200 <==> outcome is Present,
        final_reply(read_result(key, outcome)).status == 404 <==> outcome is Absent,
        final_reply(read_result(key, outcome)).status == 500 <==> (outcome is Failed
            || outcome is Undecodable),
{
}

/// An upsert answers status 200 exactly when the store returned the updated
/// record, and 500 otherwise.
pub proof fn lemma_upsert_status(key: Seq<char>, exp: u64, now: u64, outcome: StoreOutcome)
    ensures
        final_reply(upsert_result(key, exp, now, outcome)).status == 200 <==> outcome is Present,
        final_reply(upsert_result(key, exp, now, outcome)).status == 500 <==> !(outcome
            is Present),
{
}

/// A read of a record answers exactly what the upsert that left the record
/// answered: reads count no observation.
pub proof fn lemma_read_returns_what_upsert_returned(
    key: Seq<char>,
    exp: u64,
    now: u64,
    held: RecordState,
)
    requires
        representable(held),
    ensures
        read_result(key, answer(Some(held))) == upsert_result(key, exp, now, answer(Some(held))),
        read_result(key, answer(Some(held))) == Ok::<_, ServiceErrorView>(
            json_ok(record_json(projection(held))),
        ),
{
}

/// The upsert that follows `n - 1` earlier ones on its key, whatever was
/// upserted on other keys in between, leaves a record that counts `n`, was
/// first seen at the first of them and last seen now, and expires one
/// retention window after the first; and it answers status 200 with that
/// record.
pub proof fn lemma_nth_upsert_reply(
    events: Seq<UpsertEvent>,
    cmd: UpsertCommand,
    key: Seq<char>,
    now: u64,
)
    requires
        cmd.upserts(key, now),
        representable(cmd.applied_to(lookup(store_after(events), key))),
    ensures
        ({
            let earlier = times_for(events, key);
            let after = cmd.applied_to(lookup(store_after(events), key));
            &&& lookup(store_after(events.push(UpsertEvent { key, now: now as nat })), key) == Some(
                after,
            )
            &&& after.cnt == earlier.len() + 1
            &&& after.fst == if earlier.len() == 0 {
                now as nat
            } else {
                earlier[0]
            }
            &&& after.lst == now
            &&& after.exp == after.fst + RETENTION_SECS
            &&& upsert_result(key, cmd.exp, now, answer(Some(after))) == Ok::<_, ServiceErrorView>(
                json_ok(record_json(projection(after))),
            )
        }),
{
    let earlier = times_for(events, key);
    let next = events.push(UpsertEvent { key, now: now as nat });
    lemma_store_keeps_keys_apart(events, key);
    if earlier.len() >= 1 {
        lemma_sequential_upserts(earlier);
    }
    assert(next.drop_last() =~= events);
    assert(next.last() == UpsertEvent { key, now: now as nat });
}

/// The first upsert of a key answers status 200 with a record that counts
/// one observation, first and last seen at the time of the upsert.
pub proof fn lemma_first_upsert_reply(cmd: UpsertCommand, key: Seq<char>, now: u64)
    requires
        cmd.upserts(key, now),
    ensures
        upsert_result(key, cmd.exp, now, answer(Some(cmd.applied_to(None)))) == Ok::<
            _,
            ServiceErrorView,
        >(json_ok(record_json(Record { cnt: 1, fst: now, lst: now }))),
{
}

/// Round trip: when an upsert succeeds and the clock has not gone back
/// behind the first-seen time of the record that the store held, if it held
/// one, the body that is returned, read back, is the updated record, with a
/// count of at least one and the first-seen time not after the last-seen
/// time.
pub proof fn lemma_upsert_body_round_trip(
    cmd: UpsertCommand,
    key: Seq<char>,
    now: u64,
    prev: Option<RecordState>,
)
    requires
        cmd.upserts(key, now),
        prev matches Some(p) ==> p.fst <= now,
        representable(cmd.applied_to(prev)),
    ensures
        upsert_result(key, cmd.exp, now, answer(Some(cmd.applied_to(prev)))) matches Ok(
            response,
        ) && ({
            let back = parsed_back(response.body);
            &&& response.status == 200
            &&& back == projection(cmd.applied_to(prev))
            &&& back.cnt >= 1
            &&& back.fst <= back.lst
        }),
{
    lemma_parsed_back(projection(cmd.applied_to(prev)));
}

} // verus!
