//! Flattening a query's result stream: all rows decode or the caller
//! sees exactly the first decode failure — no partial result ever
//! leaves this module.
use vstd::prelude::*;

use crate::json::JsonValue;
use crate::projection::{project, spec_project};
use crate::session::ClientError;
use crate::value::GraphValue;

verus! {

/// Turns per-row decode results into an all-or-nothing collection:
/// every row, in order, or the first decode failure alone.
pub fn collect_rows(items: Vec<Result<GraphValue, String>>) -> (r: Result<
    Vec<GraphValue>,
    ClientError,
>)
    ensures
        r is Ok <==> (forall|i: int| 0 <= i < items@.len() ==> items@[i] is Ok),
        r is Ok ==> r->Ok_0@.len() == items@.len() && (forall|i: int|
            0 <= i < items@.len() ==> r->Ok_0@[i] == items@[i]->Ok_0),
        r is Err ==> (exists|i: int|
            0 <= i < items@.len() && items@[i] is Err && (forall|j: int|
                0 <= j < i ==> items@[j] is Ok) && r->Err_0 == ClientError::ResultDecoding(
                items@[i]->Err_0,
            )),
{
    let ghost orig = items@;
    let mut rest = items;
    let mut out: Vec<GraphValue> = Vec::new();
    proof {
        assert(rest@ =~= orig.skip(0));
    }
    while rest.len() > 0
        invariant
            orig == items@,
            out@.len() + rest@.len() == orig.len(),
            rest@ == orig.skip(out@.len() as int),
            forall|j: int|
                0 <= j < out@.len() ==> (#[trigger] orig[j]) is Ok && out@[j] == orig[j]->Ok_0,
        decreases rest@.len(),
    {
        let ghost k = out@.len() as int;
        let first = rest.remove(0);
        proof {
            assert(first == orig[k]);
            assert(rest@ =~= orig.skip(k + 1));
        }
        match first {
            Result::Ok(v) => {
                out.push(v);
            },
            Result::Err(e) => {
                proof {
                    assert(orig == items@);
                    assert(0 <= k < items@.len() && items@[k] is Err && (forall|j: int|
                        0 <= j < k ==> (#[trigger] items@[j]) is Ok)
                        && ClientError::ResultDecoding(e) == ClientError::ResultDecoding(
                        items@[k]->Err_0,
                    ));
                }
                return Result::Err(ClientError::ResultDecoding(e));
            },
        }
    }
    proof {
        assert(orig == items@);
        assert(forall|i: int| 0 <= i < items@.len() ==> (#[trigger] items@[i]) is Ok);
    }
    Result::Ok(out)
}

/// Projects every collected row into JSON, in order.
pub fn project_rows(rows: &Vec<GraphValue>) -> (r: Vec<JsonValue>)
    ensures
        r@.len() == rows@.len(),
        forall|i: int| 0 <= i < rows@.len() ==> (#[trigger] r@[i])@ == spec_project(rows@[i]),
{
    let mut out: Vec<JsonValue> = Vec::new();
    let mut i: usize = 0;
    while i < rows.len()
        invariant
            i <= rows@.len(),
            out@.len() == i,
            forall|j: int| 0 <= j < i ==> (#[trigger] out@[j])@ == spec_project(rows@[j]),
        decreases rows@.len() - i,
    {
        let x = project(&rows[i]);
        out.push(x);
        i = i + 1;
    }
    out
}

/// The whole result pipeline after the transport: decode results in,
/// one JSON document per row out — or exactly the first decode
/// failure, with no partial result.
pub fn flatten_rows(items: Vec<Result<GraphValue, String>>) -> (r: Result<
    Vec<JsonValue>,
    ClientError,
>)
    ensures
        r is Ok <==> (forall|i: int| 0 <= i < items@.len() ==> items@[i] is Ok),
        r is Ok ==> r->Ok_0@.len() == items@.len() && (forall|i: int|
            0 <= i < items@.len() ==> (#[trigger] r->Ok_0@[i])@ == spec_project(
                items@[i]->Ok_0,
            )),
        r is Err ==> (exists|i: int|
            0 <= i < items@.len() && items@[i] is Err && (forall|j: int|
                0 <= j < i ==> items@[j] is Ok) && r->Err_0 == ClientError::ResultDecoding(
                items@[i]->Err_0,
            )),
{
    match collect_rows(items) {
        Result::Ok(rows) => Result::Ok(project_rows(&rows)),
        Result::Err(e) => Result::Err(e),
    }
}

} // verus!
