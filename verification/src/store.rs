//! The value model of the store's rows, and the trusted boundary to the
//! embedded engine that executes schema, write and query scripts.

use vstd::prelude::*;

verus! {

/// A serde_json document, carried opaquely as a resource payload.
#[verifier::external_type_specification]
#[verifier::external_body]
pub struct ExJsonValue(serde_json::Value);

/// A cell as the store itself types it; opaque here, converted into the
/// library's own cell model at the trusted boundary below.
#[verifier::external_type_specification]
#[verifier::external_body]
pub struct ExDataValue(cozo::DataValue);

/// The embedded store engine, shared by the sync pipeline and the query
/// gateway. Its state is opaque to this library: every script execution
/// may observe writes made by concurrent callers.
#[verifier::external_type_specification]
#[verifier::external_body]
pub struct ExDbInstance(cozo::DbInstance);

/// One typed cell of a store row, as this library models it. The store's
/// own cell type distinguishes more shapes, but the resource schema only
/// ever reads strings, nested rows and opaque payload documents; every
/// other shape decodes to `Other`.
#[derive(Debug, PartialEq)]
pub enum StoreValue {
    /// A string cell.
    Str(String),
    /// An opaque structured payload.
    Json(serde_json::Value),
    /// A nested row.
    List(Vec<StoreValue>),
    /// Any other cell shape; never produced by this library's encoders.
    Other,
}

/// The characters of a string cell; the empty sequence on any other cell.
pub open spec fn str_of(v: StoreValue) -> Seq<char> {
    match v {
        StoreValue::Str(s) => s@,
        _ => Seq::empty(),
    }
}

/// The cells of a nested row; the empty sequence on any other cell.
pub open spec fn list_of(v: StoreValue) -> Seq<StoreValue> {
    match v {
        StoreValue::List(l) => l@,
        _ => Seq::empty(),
    }
}

/// Execution mode for one store script: a mutable script may write, an
/// immutable one may only read. The store itself enforces the mode.
#[derive(Clone, Copy, Debug, PartialEq, Eq, Structural)]
pub enum ScriptMode {
    /// The script may mutate store state.
    Mutable,
    /// The script is read-only.
    Immutable,
}

/// Relies on the public shape of cozo::DataValue: each cell is converted to
/// the library's model one variant at a time; the shapes the resource schema
/// never uses collapse to `Other`.
#[verifier::external_body]
fn data_to_store(v: cozo::DataValue) -> StoreValue {
    match v {
        cozo::DataValue::Str(s) => StoreValue::Str(s.to_string()),
        cozo::DataValue::Json(j) => StoreValue::Json(j.0),
        cozo::DataValue::List(l) => StoreValue::List(l.into_iter().map(data_to_store).collect()),
        _ => StoreValue::Other,
    }
}

/// Relies on the same shape in the other direction: the library's cells are
/// converted to store cells; `Other` is never encoded and maps to null.
#[verifier::external_body]
fn store_to_data(v: StoreValue) -> cozo::DataValue {
    match v {
        StoreValue::Str(s) => cozo::DataValue::Str(s.as_str().into()),
        StoreValue::Json(j) => cozo::DataValue::Json(cozo::JsonData(j)),
        StoreValue::List(l) => cozo::DataValue::List(l.into_iter().map(store_to_data).collect()),
        StoreValue::Other => cozo::DataValue::Null,
    }
}

/// Relies on cozo::DbInstance::run_script: executes one script against the
/// store, with the given named parameters bound, under the given mode, and
/// hands back the result rows in the library's cell model, or the store's
/// own error rendered as text. What the store returns depends on its state,
/// so nothing is promised of the rows.
#[verifier::external_body]
pub(crate) fn run_script_rows(
    db: &cozo::DbInstance,
    script: &str,
    params: Vec<(String, StoreValue)>,
    mode: ScriptMode,
) -> Result<Vec<Vec<StoreValue>>, String> {
    let mut bound = std::collections::BTreeMap::new();
    for (name, value) in params {
        bound.insert(name, store_to_data(value));
    }
    let mutability = match mode {
        ScriptMode::Mutable => cozo::ScriptMutability::Mutable,
        ScriptMode::Immutable => cozo::ScriptMutability::Immutable,
    };
    match db.run_script(script, bound, mutability) {
        Ok(out) => Ok(out.rows.into_iter().map(|r| r.into_iter().map(data_to_store).collect()).collect()),
        Err(e) => Err(format!("{}", e)),
    }
}

/// The empty structured value that stands in for an absent payload: a name
/// for what serde_json::Value::default returns, the same fixed value on
/// every call.
pub uninterp spec fn empty_payload(u: ()) -> serde_json::Value;

/// Relies on serde_json::Value's derived Clone: duplicates a payload
/// document exactly.
#[verifier::external_body]
pub(crate) fn clone_payload(v: &serde_json::Value) -> (r: serde_json::Value)
    ensures
        r == *v,
{
    v.clone()
}

/// Relies on serde_json::Value::default: the empty structured value (null),
/// a fixed value written in place of an absent payload; `empty_payload`
/// names it.
#[verifier::external_body]
pub(crate) fn default_payload() -> (r: serde_json::Value)
    ensures
        r == empty_payload(()),
{
    serde_json::Value::default()
}

} // verus!
