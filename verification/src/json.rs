//! The JSON body of a success response: `{"cnt":N,"fst":N,"lst":N}`.

use vstd::prelude::*;
use vstd::string::*;
use crate::error::{ServiceError, ServiceErrorView};
use crate::record::Record;
use crate::text::{
    decimal_text, is_decimal_digit, lemma_decimal_text_is_digits, lemma_decimal_text_is_injective,
    lemma_digits_end_at_tail,
};

verus! {

/// The error type of `serde_json`, as an opaque value: nothing is claimed of
/// what it holds.
#[verifier::external_type_specification]
#[verifier::external_body]
pub struct ExJsonError(serde_json::Error);

/// The JSON object around three encoded numbers.
pub open spec fn framed(cnt: Seq<char>, fst: Seq<char>, lst: Seq<char>) -> Seq<char> {
    "{\"cnt\":"@ + cnt + ",\"fst\":"@ + fst + ",\"lst\":"@ + lst + "}"@
}

/// The JSON text of a record: its three fields, in this order, as decimal
/// numerals, without whitespace.
pub open spec fn record_json(r: Record) -> Seq<char> {
    framed(decimal_text(r.cnt as nat), decimal_text(r.fst as nat), decimal_text(r.lst as nat))
}

/// The record that a JSON body was written from.
pub open spec fn parsed_back(body: Seq<char>) -> Record {
    choose|r: Record| record_json(r) == body
}

proof fn lemma_same_prefix(p: Seq<char>, x: Seq<char>, y: Seq<char>)
    requires
        p + x == p + y,
    ensures
        x == y,
{
    assert(x =~= (p + x).skip(p.len() as int));
    assert(y =~= (p + y).skip(p.len() as int));
}

proof fn lemma_framed_from_the_right(cnt: Seq<char>, fst: Seq<char>, lst: Seq<char>)
    ensures
        framed(cnt, fst, lst) == "{\"cnt\":"@ + (cnt + (",\"fst\":"@ + (fst + (",\"lst\":"@ + (lst
            + "}"@))))),
{
    assert(framed(cnt, fst, lst) =~= "{\"cnt\":"@ + (cnt + (",\"fst\":"@ + (fst + (",\"lst\":"@
        + (lst + "}"@))))));
}

proof fn lemma_separators_are_not_digits(rest: Seq<char>)
    ensures
        (",\"fst\":"@ + rest).len() >= 1 && !is_decimal_digit((",\"fst\":"@ + rest)[0]),
        (",\"lst\":"@ + rest).len() >= 1 && !is_decimal_digit((",\"lst\":"@ + rest)[0]),
        "}"@.len() >= 1 && !is_decimal_digit("}"@[0]),
{
    reveal_strlit(",\"fst\":");
    reveal_strlit(",\"lst\":");
    reveal_strlit("}");
}

proof fn lemma_number_before_tail(p: Seq<char>, x: nat, s: Seq<char>, y: nat, t: Seq<char>)
    requires
        p + (decimal_text(x) + s) == p + (decimal_text(y) + t),
        s.len() >= 1 && !is_decimal_digit(s[0]),
        t.len() >= 1 && !is_decimal_digit(t[0]),
    ensures
        x == y,
        s == t,
{
    lemma_same_prefix(p, decimal_text(x) + s, decimal_text(y) + t);
    lemma_decimal_text_is_digits(x);
    lemma_decimal_text_is_digits(y);
    lemma_digits_end_at_tail(decimal_text(x), s, decimal_text(y), t);
    lemma_decimal_text_is_injective(x, y);
}

/// Two records with the same JSON text are the same record.
pub proof fn lemma_record_json_is_injective(a: Record, b: Record)
    requires
        record_json(a) == record_json(b),
    ensures
        a == b,
{
    let (a1, a2, a3) = (
        decimal_text(a.cnt as nat),
        decimal_text(a.fst as nat),
        decimal_text(a.lst as nat),
    );
    let (b1, b2, b3) = (
        decimal_text(b.cnt as nat),
        decimal_text(b.fst as nat),
        decimal_text(b.lst as nat),
    );
    let a_lst = a3 + "}"@;
    let b_lst = b3 + "}"@;
    let a_fst = a2 + (",\"lst\":"@ + a_lst);
    let b_fst = b2 + (",\"lst\":"@ + b_lst);
    lemma_framed_from_the_right(a1, a2, a3);
    lemma_framed_from_the_right(b1, b2, b3);
    lemma_separators_are_not_digits(a_fst);
    lemma_separators_are_not_digits(b_fst);
    lemma_separators_are_not_digits(a_lst);
    lemma_separators_are_not_digits(b_lst);
    lemma_number_before_tail(
        "{\"cnt\":"@,
        a.cnt as nat,
        ",\"fst\":"@ + a_fst,
        b.cnt as nat,
        ",\"fst\":"@ + b_fst,
    );
    lemma_number_before_tail(
        ",\"fst\":"@,
        a.fst as nat,
        ",\"lst\":"@ + a_lst,
        b.fst as nat,
        ",\"lst\":"@ + b_lst,
    );
    lemma_number_before_tail(",\"lst\":"@, a.lst as nat, "}"@, b.lst as nat, "}"@);
}

/// Round trip: reading back the JSON text of a record gives that record.
pub proof fn lemma_parsed_back(r: Record)
    ensures
        parsed_back(record_json(r)) == r,
{
    lemma_record_json_is_injective(parsed_back(record_json(r)), r);
}

/// Encodes an unsigned integer with `serde_json::to_string`. Trusted: the
/// call succeeds, and the text is the integer's decimal numeral, as JSON
/// writes a number. `serde_json` fails only where a value's own encoding
/// fails or a map has a key that is not a string; an integer is neither, and
/// its digits are written into a byte vector in memory.
#[verifier::external_body]
fn number_to_json(n: u64) -> (r: Result<String, serde_json::Error>)
    ensures
        r is Ok,
        r matches Ok(s) ==> s@ == decimal_text(n as nat),
{
    serde_json::to_string(&n)
}

/// Encodes an unsigned integer as JSON: always its decimal numeral. The
/// result is an `Option` because the encoder's interface allows for a
/// failure, which an integer never causes.
pub fn encode_number(n: u64) -> (r: Option<String>)
    ensures
        r matches Some(s) && s@ == decimal_text(n as nat),
{
    match number_to_json(n) {
        Ok(s) => Some(s),
        Err(_) => None,
    }
}

/// Puts three encoded numbers into the JSON object of a record. Fails with
/// a serialization error when any of them could not be encoded.
pub fn frame_record(cnt: Option<String>, fst: Option<String>, lst: Option<String>) -> (r: Result<
    String,
    ServiceError,
>)
    ensures
        match (cnt, fst, lst) {
            (Some(c), Some(f), Some(l)) => r matches Ok(s) && s@ == framed(c@, f@, l@),
            _ => r matches Err(e) && e@ == ServiceErrorView::Serialization,
        },
{
    match (cnt, fst, lst) {
        (Some(c), Some(f), Some(l)) => {
            let mut s = String::from_str("{\"cnt\":");
            s.append(c.as_str());
            s.append(",\"fst\":");
            s.append(f.as_str());
            s.append(",\"lst\":");
            s.append(l.as_str());
            s.append("}");
            Ok(s)
        },
        _ => Err(ServiceError::Serialization),
    }
}

/// Encodes a record as the body of a success response: always the record's
/// JSON text.
pub fn encode_record(record: &Record) -> (r: Result<String, ServiceError>)
    ensures
        r matches Ok(s) && s@ == record_json(*record),
{
    let cnt = encode_number(record.cnt);
    let fst = encode_number(record.fst);
    let lst = encode_number(record.lst);
    frame_record(cnt, fst, lst)
}

} // verus!
