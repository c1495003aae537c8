//! The normalized resource model: the canonical tuple representation of one
//! cluster object, the derived edge model, and the bidirectional conversion
//! between both and the store's row format.

use vstd::prelude::*;

use crate::store::clone_payload;
use crate::store::default_payload;
use crate::store::list_of;
use crate::store::str_of;
use crate::store::StoreValue;

verus! {

/// Why a store row could not be decoded.
#[derive(Clone, Copy, Debug, PartialEq, Eq, Structural)]
pub enum ResourceError {
    /// A value at an expected position has the wrong shape; carries the
    /// column index it refers to and the shape that was expected there.
    Type(usize, ColumnType),
    /// The row is shorter than expected; carries the first column index that
    /// could not be fetched.
    ColumnCount(usize),
}

/// The shape a decoder expected of a column.
#[derive(Clone, Copy, Debug, PartialEq, Eq, Structural)]
pub enum ColumnType {
    /// A string column.
    String,
    /// An opaque structured column.
    Json,
}

/// One cluster object in normalized form. The 4-tuple
/// (api, kind, namespace-or-empty, name) is its natural key.
#[derive(Debug, PartialEq)]
pub struct Resource {
    /// API group/version string, e.g. `"apps/v1"`.
    pub api: String,
    /// Object kind, e.g. `"Deployment"`.
    pub kind: String,
    /// Absent for cluster-scoped objects. In the encoded key the absence is
    /// written as the empty string, so a present namespace is never empty.
    pub namespace: Option<String>,
    /// Object name.
    pub name: String,
    /// The full serialized object: present when freshly loaded, absent when
    /// reconstructed from a query result that did not project it.
    pub obj: Option<serde_json::Value>,
}

/// The namespace as it stands in the encoded key: its own characters when
/// present, the empty string as the sentinel for absence.
pub open spec fn ns_seq(ns: Option<String>) -> Seq<char> {
    match ns {
        Some(s) => s@,
        None => Seq::empty(),
    }
}

/// The namespace by characters, keeping presence apart from absence.
pub open spec fn ns_view(ns: Option<String>) -> Option<Seq<char>> {
    match ns {
        Some(s) => Some(s@),
        None => None,
    }
}

/// A row of at least 4 columns whose first 4 are strings: exactly the rows
/// that decode as a resource.
pub open spec fn row_decodes(row: Seq<StoreValue>) -> bool {
    &&& row.len() >= 4
    &&& row[0] is Str
    &&& row[1] is Str
    &&& row[2] is Str
    &&& row[3] is Str
}

/// The first of the 4 key columns that is not a string; meaningful only
/// when such a column exists.
pub open spec fn first_non_str_col(row: Seq<StoreValue>) -> int {
    if !(row[0] is Str) {
        0
    } else if !(row[1] is Str) {
        1
    } else if !(row[2] is Str) {
        2
    } else {
        3
    }
}

/// The error a failed resource decode reports: a short row always fails on
/// its length, regardless of content; a long enough row fails on the first
/// of its 4 key columns that is not a string, referencing that column.
pub open spec fn row_decode_err(row: Seq<StoreValue>) -> ResourceError {
    if row.len() < 4 {
        ResourceError::ColumnCount(row.len() as usize)
    } else {
        ResourceError::Type(first_non_str_col(row) as usize, ColumnType::String)
    }
}

/// How a decoded resource relates to the row it was read from: the key
/// fields are the first 4 columns, the empty namespace column decodes to an
/// absent namespace, and the payload is never projected back.
pub open spec fn decodes_to(row: Seq<StoreValue>, r: Resource) -> bool {
    &&& r.api@ == str_of(row[0])
    &&& r.kind@ == str_of(row[1])
    &&& (if str_of(row[2]).len() == 0 {
        r.namespace is None
    } else {
        r.namespace matches Some(s) && s@ == str_of(row[2])
    })
    &&& r.name@ == str_of(row[3])
    &&& r.obj is None
}

impl Resource {
    /// A well-formed resource never carries an empty present namespace:
    /// the empty string is the key's sentinel for absence.
    pub open spec fn wf(self) -> bool {
        self.namespace matches Some(s) ==> s@.len() > 0
    }

    /// The first 4 columns of `row` hold this resource's natural key in
    /// order: api, kind, namespace-or-empty, name.
    pub open spec fn key_cols_match(self, row: Seq<StoreValue>) -> bool {
        &&& row[0] is Str && str_of(row[0]) == self.api@
        &&& row[1] is Str && str_of(row[1]) == self.kind@
        &&& row[2] is Str && str_of(row[2]) == ns_seq(self.namespace)
        &&& row[3] is Str && str_of(row[3]) == self.name@
    }

    /// `row` is exactly this resource's 4-column key row.
    pub open spec fn key_row_matches(self, row: Seq<StoreValue>) -> bool {
        &&& row.len() == 4
        &&& self.key_cols_match(row)
    }

    /// `row` is exactly this resource's 5-column full row: the key columns
    /// followed by the payload column, which holds exactly the resource's
    /// own payload when one is present, and the empty structured value when
    /// not.
    pub open spec fn full_row_matches(self, row: Seq<StoreValue>) -> bool {
        &&& row.len() == 5
        &&& self.key_cols_match(row)
        &&& row[4] is Json
        &&& (self.obj matches Some(v) ==> row[4] == StoreValue::Json(v))
        &&& (self.obj is None ==> row[4] == StoreValue::Json(crate::store::empty_payload(())))
    }

    /// The namespace column of the encoded key: the namespace itself, or the
    /// empty string when the resource is cluster-scoped.
    fn ns_or_empty(&self) -> (r: String)
        ensures
            r@ == ns_seq(self.namespace),
    {
        match &self.namespace {
            Some(s) => s.as_str().to_owned(),
            None => String::new(),
        }
    }

    /// The 4-value key row (api, kind, namespace-or-empty, name), used where
    /// only identity is needed.
    pub fn as_cozo_key(&self) -> (r: StoreValue)
        ensures
            r matches StoreValue::List(cols) && self.key_row_matches(cols@),
    {
        let mut cols: Vec<StoreValue> = Vec::new();
        cols.push(StoreValue::Str(self.api.as_str().to_owned()));
        cols.push(StoreValue::Str(self.kind.as_str().to_owned()));
        cols.push(StoreValue::Str(self.ns_or_empty()));
        cols.push(StoreValue::Str(self.name.as_str().to_owned()));
        StoreValue::List(cols)
    }

    /// The 5-value full row: the key row followed by the payload, with the
    /// empty structured value standing in for an absent payload. Used for
    /// writes.
    pub fn as_cozo_full(&self) -> (r: StoreValue)
        ensures
            r matches StoreValue::List(cols) && self.full_row_matches(cols@),
    {
        let mut cols: Vec<StoreValue> = Vec::new();
        cols.push(StoreValue::Str(self.api.as_str().to_owned()));
        cols.push(StoreValue::Str(self.kind.as_str().to_owned()));
        cols.push(StoreValue::Str(self.ns_or_empty()));
        cols.push(StoreValue::Str(self.name.as_str().to_owned()));
        let payload = match &self.obj {
            Some(v) => clone_payload(v),
            None => default_payload(),
        };
        cols.push(StoreValue::Json(payload));
        StoreValue::List(cols)
    }

    /// Reconstructs a resource from a row of at least 4 columns, with the
    /// payload absent. A row shorter than 4 always fails on its length,
    /// whatever it holds; a long enough row whose first 4 columns are not
    /// all strings fails on the first wrongly shaped one.
    pub fn from_cozo(row: &Vec<StoreValue>) -> (r: Result<Resource, ResourceError>)
        ensures
            row_decodes(row@) ==> (r matches Ok(res) && decodes_to(row@, res) && res.wf()),
            !row_decodes(row@) ==> r == Err::<Resource, ResourceError>(row_decode_err(row@)),
            row@.len() < 4 ==> r == Err::<Resource, ResourceError>(
                ResourceError::ColumnCount(row@.len() as usize),
            ),
            row@.len() >= 4 && !(row@[0] is Str) ==> r == Err::<Resource, ResourceError>(
                ResourceError::Type(0, ColumnType::String),
            ),
    {
        if row.len() < 4 {
            return Err(ResourceError::ColumnCount(row.len()));
        }
        let api = row_string(row, 0)?;
        let kind = row_string(row, 1)?;
        let ns = row_string(row, 2)?;
        let name = row_string(row, 3)?;
        let namespace = if ns.as_str().is_empty() {
            None
        } else {
            Some(ns)
        };
        Ok(Resource { api, kind, namespace, name, obj: None })
    }
}

/// Law: a resource's full store row always decodes — it is long enough and
/// its key columns are all strings.
pub proof fn lemma_full_row_decodes(r: Resource, row: Seq<StoreValue>)
    requires
        r.full_row_matches(row),
    ensures
        row_decodes(row),
{
}

/// Law: encoding a resource as its full store row and then decoding that row
/// reconstructs the resource — the identity fields are unchanged and the
/// payload becomes absent, whether or not one was present.
pub proof fn lemma_full_row_round_trip(r: Resource, row: Seq<StoreValue>, d: Resource)
    requires
        r.wf(),
        r.full_row_matches(row),
        decodes_to(row, d),
    ensures
        d.api@ == r.api@,
        d.kind@ == r.kind@,
        ns_view(d.namespace) == ns_view(r.namespace),
        d.name@ == r.name@,
        d.obj is None,
{
}

/// Law: the namespace sentinel — an absent namespace is encoded as the empty
/// string in the key's third column, and a present, non-empty namespace
/// decodes back to exactly itself.
pub proof fn lemma_namespace_sentinel(r: Resource, row: Seq<StoreValue>, d: Resource)
    requires
        r.key_row_matches(row),
        decodes_to(row, d),
    ensures
        r.namespace is None ==> str_of(row[2]).len() == 0,
        r.namespace matches Some(s) ==> (s@.len() > 0 ==> (d.namespace matches Some(t) && t@
            == s@)),
{
}

/// A relationship surfaced by a query: two resources and a label. Edges are
/// never persisted; they exist only as a query-result shape.
#[derive(Debug, PartialEq)]
pub struct Edge {
    /// The source resource.
    pub from: Resource,
    /// The target resource.
    pub to: Resource,
    /// The relationship label.
    pub label: String,
}

/// Column `i` of `row` is present and holds a nested row that decodes as a
/// resource.
pub open spec fn col_resource_ok(row: Seq<StoreValue>, i: int) -> bool {
    &&& i < row.len()
    &&& row[i] is List
    &&& row_decodes(list_of(row[i]))
}

/// The error a failed nested-resource column reports: a missing column
/// fails on the row's length, a column that is not a nested row fails on
/// its shape, and a nested row that does not decode propagates its own
/// decode error.
pub open spec fn col_resource_err(row: Seq<StoreValue>, i: int) -> ResourceError {
    if i >= row.len() {
        ResourceError::ColumnCount(i as usize)
    } else if !(row[i] is List) {
        ResourceError::Type(i as usize, ColumnType::String)
    } else {
        row_decode_err(list_of(row[i]))
    }
}

/// A row whose columns 0 and 1 are nested resource rows and whose column 2
/// is a string: exactly the rows that decode as an edge.
pub open spec fn edge_row_decodes(row: Seq<StoreValue>) -> bool {
    &&& col_resource_ok(row, 0)
    &&& col_resource_ok(row, 1)
    &&& row.len() > 2
    &&& row[2] is Str
}

/// The error a failed edge decode reports: the columns are checked in
/// order, source resource first, then target, then label.
pub open spec fn edge_decode_err(row: Seq<StoreValue>) -> ResourceError {
    if !col_resource_ok(row, 0) {
        col_resource_err(row, 0)
    } else if !col_resource_ok(row, 1) {
        col_resource_err(row, 1)
    } else if row.len() <= 2 {
        ResourceError::ColumnCount(2)
    } else {
        ResourceError::Type(2, ColumnType::String)
    }
}

/// How a decoded edge relates to the row it was read from.
pub open spec fn edge_decodes_to(row: Seq<StoreValue>, e: Edge) -> bool {
    &&& decodes_to(list_of(row[0]), e.from)
    &&& decodes_to(list_of(row[1]), e.to)
    &&& e.label@ == str_of(row[2])
}

impl Edge {
    /// Reconstructs an edge from a row whose columns 0 and 1 are nested
    /// resource rows and whose column 2 is the label. A missing column
    /// fails on the row's length, a wrongly shaped one on its shape, and a
    /// nested resource row that does not decode propagates its own error.
    pub fn from_cozo(row: &Vec<StoreValue>) -> (r: Result<Edge, ResourceError>)
        ensures
            edge_row_decodes(row@) ==> (r matches Ok(e) && edge_decodes_to(row@, e)
                && e.from.wf() && e.to.wf()),
            !edge_row_decodes(row@) ==> r == Err::<Edge, ResourceError>(edge_decode_err(row@)),
    {
        let from = row_resource(row, 0)?;
        let to = row_resource(row, 1)?;
        let label = row_string(row, 2)?;
        Ok(Edge { from, to, label })
    }
}

/// The string at the given column of a row, or why it is not there: a
/// missing column fails on the row's length, a non-string one on its shape.
fn row_string(row: &Vec<StoreValue>, index: usize) -> (r: Result<String, ResourceError>)
    ensures
        index >= row@.len() ==> r == Err::<String, ResourceError>(
            ResourceError::ColumnCount(index),
        ),
        index < row@.len() && !(row@[index as int] is Str) ==> r == Err::<String, ResourceError>(
            ResourceError::Type(index, ColumnType::String),
        ),
        index < row@.len() && row@[index as int] is Str ==> (r matches Ok(s)
            && s@ == str_of(row@[index as int])),
{
    if index >= row.len() {
        return Err(ResourceError::ColumnCount(index));
    }
    match &row[index] {
        StoreValue::Str(s) => Ok(s.as_str().to_owned()),
        _ => Err(ResourceError::Type(index, ColumnType::String)),
    }
}

/// The resource decoded from the nested row at the given column, or why
/// there is none.
fn row_resource(row: &Vec<StoreValue>, index: usize) -> (r: Result<Resource, ResourceError>)
    ensures
        col_resource_ok(row@, index as int) ==> (r matches Ok(res)
            && decodes_to(list_of(row@[index as int]), res) && res.wf()),
        !col_resource_ok(row@, index as int) ==> r == Err::<Resource, ResourceError>(
            col_resource_err(row@, index as int),
        ),
{
    if index >= row.len() {
        return Err(ResourceError::ColumnCount(index));
    }
    match &row[index] {
        StoreValue::List(inner) => Resource::from_cozo(inner),
        _ => Err(ResourceError::Type(index, ColumnType::String)),
    }
}

} // verus!
