//! The query gateway: executes caller-supplied query scripts against the
//! store and decodes the resulting rows back into typed resources or edges.

use vstd::prelude::*;

use crate::resource::decodes_to;
use crate::resource::edge_decode_err;
use crate::resource::edge_decodes_to;
use crate::resource::edge_row_decodes;
use crate::resource::row_decode_err;
use crate::resource::row_decodes;
use crate::resource::Edge;
use crate::resource::Resource;
use crate::resource::ResourceError;
use crate::store::run_script_rows;
use crate::store::ScriptMode;
use crate::store::StoreValue;

verus! {

/// Why a query call failed: either the store rejected or could not execute
/// the script, or a result row could not be decoded into the requested
/// shape. No partial results are returned.
#[derive(Debug)]
pub enum QueryError {
    /// The store's own error, rendered as text.
    Execution(String),
    /// A result row did not have the expected shape.
    Decode(ResourceError),
}

/// Decodes every row as a resource. Fails on the first row that does not
/// decode, with that row's own decode error.
pub fn decode_resource_rows(rows: &Vec<Vec<StoreValue>>) -> (r: Result<Vec<Resource>, ResourceError>)
    ensures
        (r matches Ok(v)) <==> (forall|i: int| 0 <= i < rows@.len() ==> #[trigger] row_decodes(rows@[i]@)),
        r matches Ok(v) ==> (v@.len() == rows@.len() && forall|i: int|
            0 <= i < rows@.len() ==> decodes_to(#[trigger] rows@[i]@, v@[i]) && v@[i].wf()),
        r matches Err(e) ==> (exists|i: int| 0 <= i < rows@.len()
            && !row_decodes(#[trigger] rows@[i]@) && e == row_decode_err(rows@[i]@)
            && forall|j: int| 0 <= j < i ==> row_decodes(rows@[j]@)),
{
    let mut out: Vec<Resource> = Vec::new();
    let mut i: usize = 0;
    while i < rows.len()
        invariant
            0 <= i <= rows@.len(),
            out@.len() == i,
            forall|j: int| 0 <= j < i ==> #[trigger] row_decodes(rows@[j]@),
            forall|j: int| 0 <= j < i ==> decodes_to(#[trigger] rows@[j]@, out@[j]) && out@[j].wf(),
        decreases rows@.len() - i,
    {
        match Resource::from_cozo(&rows[i]) {
            Ok(res) => out.push(res),
            Err(e) => {
                return Err(e);
            },
        }
        i = i + 1;
    }
    Ok(out)
}

/// Decodes every row as an edge. Fails on the first row that does not
/// decode, with that row's own decode error.
pub fn decode_edge_rows(rows: &Vec<Vec<StoreValue>>) -> (r: Result<Vec<Edge>, ResourceError>)
    ensures
        (r matches Ok(v)) <==> (forall|i: int|
            0 <= i < rows@.len() ==> #[trigger] edge_row_decodes(rows@[i]@)),
        r matches Ok(v) ==> (v@.len() == rows@.len() && forall|i: int|
            0 <= i < rows@.len() ==> edge_decodes_to(#[trigger] rows@[i]@, v@[i])
                && v@[i].from.wf() && v@[i].to.wf()),
        r matches Err(e) ==> (exists|i: int| 0 <= i < rows@.len()
            && !edge_row_decodes(#[trigger] rows@[i]@) && e == edge_decode_err(rows@[i]@)
            && forall|j: int| 0 <= j < i ==> edge_row_decodes(rows@[j]@)),
{
    let mut out: Vec<Edge> = Vec::new();
    let mut i: usize = 0;
    while i < rows.len()
        invariant
            0 <= i <= rows@.len(),
            out@.len() == i,
            forall|j: int| 0 <= j < i ==> #[trigger] edge_row_decodes(rows@[j]@),
            forall|j: int| 0 <= j < i ==> edge_decodes_to(#[trigger] rows@[j]@, out@[j])
                && out@[j].from.wf() && out@[j].to.wf(),
        decreases rows@.len() - i,
    {
        match Edge::from_cozo(&rows[i]) {
            Ok(e) => out.push(e),
            Err(e) => {
                return Err(e);
            },
        }
        i = i + 1;
    }
    Ok(out)
}

/// Executes the caller's query script in read-only mode and decodes every
/// result row as a resource, in the store's own result order. Whatever rows
/// the store hands back, every resource returned is well-formed, with its
/// payload absent, and is the exact decoding of its row.
pub fn res_query(db: &cozo::DbInstance, query_string: &str) -> (r: Result<Vec<Resource>, QueryError>)
    ensures
        r matches Ok(v) ==> forall|i: int|
            0 <= i < v@.len() ==> (#[trigger] v@[i]).wf() && v@[i].obj is None,
{
    let rows = match run_script_rows(db, query_string, Vec::new(), ScriptMode::Immutable) {
        Ok(rows) => rows,
        Err(e) => {
            return Err(QueryError::Execution(e));
        },
    };
    match decode_resource_rows(&rows) {
        Ok(v) => {
            proof {
                assert forall|i: int| 0 <= i < v@.len() implies (#[trigger] v@[i]).wf()
                    && v@[i].obj is None by {
                    assert(decodes_to(rows@[i]@, v@[i]));
                }
            }
            Ok(v)
        },
        Err(e) => Err(QueryError::Decode(e)),
    }
}

/// Executes the caller's query script in read-only mode and decodes every
/// result row as an edge, in the store's own result order. Whatever rows the
/// store hands back, both endpoints of every edge returned are well-formed
/// resources with absent payloads.
pub fn edge_query(db: &cozo::DbInstance, query_string: &str) -> (r: Result<Vec<Edge>, QueryError>)
    ensures
        r matches Ok(v) ==> forall|i: int| 0 <= i < v@.len() ==> (#[trigger] v@[i]).from.wf()
            && v@[i].to.wf() && v@[i].from.obj is None && v@[i].to.obj is None,
{
    let rows = match run_script_rows(db, query_string, Vec::new(), ScriptMode::Immutable) {
        Ok(rows) => rows,
        Err(e) => {
            return Err(QueryError::Execution(e));
        },
    };
    match decode_edge_rows(&rows) {
        Ok(v) => {
            proof {
                assert forall|i: int| 0 <= i < v@.len() implies (#[trigger] v@[i]).from.wf()
                    && v@[i].to.wf() && v@[i].from.obj is None && v@[i].to.obj is None by {
                    assert(edge_decodes_to(rows@[i]@, v@[i]));
                }
            }
            Ok(v)
        },
        Err(e) => Err(QueryError::Decode(e)),
    }
}

/// The one-time schema-definition script: a resource relation keyed by
/// api, kind, namespace and name, all strings, with a single opaque
/// payload column.
pub fn schema_script() -> (s: &'static str)
    ensures
        s@ == ":create resource {\n    api: String,\n    kind: String,\n    namespace: String,\n    name: String,\n    =>\n    obj: Json\n}"@,
{
    ":create resource {\n    api: String,\n    kind: String,\n    namespace: String,\n    name: String,\n    =>\n    obj: Json\n}"
}

/// Sends the one-time schema-definition script — `schema_script`, whose
/// contract fixes its text — to the store in mutable mode, with nothing
/// bound. Returns the store's own error as text if it rejects the schema,
/// as it does when the relation already exists.
pub fn init_db(db: &cozo::DbInstance) -> (r: Result<(), String>)
{
    match run_script_rows(db, schema_script(), Vec::new(), ScriptMode::Mutable) {
        Ok(_) => Ok(()),
        Err(e) => Err(e),
    }
}

} // verus!
