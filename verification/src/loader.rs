//! The sync side of the pipeline: normalizing listed cluster objects into
//! resources and bulk-upserting one kind's batch into the store. The cluster
//! enumeration itself is I/O and lives with the caller; it hands this module
//! the plain identity fields and payload of each listed object.

use vstd::prelude::*;

use crate::resource::ns_seq;
use crate::resource::ns_view;
use crate::resource::Resource;
use crate::store::run_script_rows;
use crate::store::ScriptMode;
use crate::store::StoreValue;
use vstd::string::StringExecFns;

verus! {

/// Normalizes one listed cluster object into a resource: the api field is
/// the owning group and recommended version joined as `group/version`, the
/// identity fields are taken as given — except that an empty namespace
/// string is mapped to an absent namespace, the key's sentinel — and the
/// payload is kept in full.
pub fn normalize_object(
    group: &str,
    version: &str,
    kind: &str,
    namespace: Option<String>,
    name: String,
    payload: Option<serde_json::Value>,
) -> (r: Resource)
    ensures
        r.api@ == group@ + "/"@ + version@,
        r.kind@ == kind@,
        ns_view(r.namespace) == (if ns_seq(namespace).len() == 0 {
            None::<Seq<char>>
        } else {
            Some(ns_seq(namespace))
        }),
        r.name@ == name@,
        r.obj == payload,
        r.wf(),
{
    let api = group.to_owned().concat("/").concat(version);
    let namespace = match namespace {
        Some(s) => if s.as_str().is_empty() {
            None
        } else {
            Some(s)
        },
        None => None,
    };
    Resource { api, kind: kind.to_owned(), namespace, name, obj: payload }
}

/// Encodes one kind's batch of resources as full 5-column store rows, in
/// order, ready to be bound to a write script.
pub fn build_put_batch(resources: &Vec<Resource>) -> (rows: Vec<StoreValue>)
    ensures
        rows@.len() == resources@.len(),
        forall|i: int| 0 <= i < rows@.len() ==> ((#[trigger] rows@[i]) matches StoreValue::List(
            cols,
        ) && resources@[i].full_row_matches(cols@)),
{
    let mut rows: Vec<StoreValue> = Vec::new();
    let mut i: usize = 0;
    while i < resources.len()
        invariant
            0 <= i <= resources@.len(),
            rows@.len() == i,
            forall|j: int| 0 <= j < i ==> ((#[trigger] rows@[j]) matches StoreValue::List(
                cols,
            ) && resources@[j].full_row_matches(cols@)),
        decreases resources@.len() - i,
    {
        rows.push(resources[i].as_cozo_full());
        i = i + 1;
    }
    rows
}

/// The write script for one kind's batch: reads the rows of the script's
/// `data` parameter and upserts them into the resource relation, keyed by
/// api, kind, namespace and name — rows sharing a key overwrite.
pub fn put_script() -> (s: &'static str)
    ensures
        s@ == "\n?[api, kind, namespace, name, obj] <- $data\n:put resource {api, kind, namespace, name, obj}"@,
{
    "\n?[api, kind, namespace, name, obj] <- $data\n:put resource {api, kind, namespace, name, obj}"
}

/// The parameter binding for one write: the batch's full rows, in order,
/// bound as one list to the script's `data` parameter and to nothing else.
pub fn bind_put_batch(resources: &Vec<Resource>) -> (params: Vec<(String, StoreValue)>)
    ensures
        params@.len() == 1,
        params@[0].0@ == "data"@,
        params@[0].1 matches StoreValue::List(rows) && (rows@.len() == resources@.len()
            && forall|i: int| 0 <= i < rows@.len() ==> ((#[trigger] rows@[i]) matches StoreValue::List(
            cols,
        ) && resources@[i].full_row_matches(cols@))),
{
    let rows = build_put_batch(resources);
    let mut params: Vec<(String, StoreValue)> = Vec::new();
    params.push(("data".to_owned(), StoreValue::List(rows)));
    params
}

/// Bulk-upserts one kind's batch into the store in a single write script
/// execution — `put_script` bound to the batch of `bind_put_batch`, both
/// fixed by their contracts — with the natural key as the only conflict
/// policy (last writer wins). Returns the store's own error as text if it
/// rejects or fails the write.
pub fn load_kind(db: &cozo::DbInstance, resources: &Vec<Resource>) -> (r: Result<(), String>)
{
    let params = bind_put_batch(resources);
    match run_script_rows(db, put_script(), params, ScriptMode::Mutable) {
        Ok(_) => Ok(()),
        Err(e) => Err(e),
    }
}

} // verus!
