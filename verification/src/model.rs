use crate::identifier::Identifier;
use crate::json::{json_eq, Json};
use crate::timestamp::Timestamp;
use crate::vertex_id::VertexId;
use vstd::prelude::*;

verus! {

/// One operation of a fuzzing run, applied to a datastore.
#[derive(Debug, Clone, PartialEq)]
pub enum Op {
    BulkInsert(Vec<BulkInsertItem>),
    CreateVertex(Vertex),
    GetVertices(VertexQuery),
    DeleteVertices(VertexQuery),
    GetVertexCount,
    CreateEdge(EdgeKey),
    GetEdges(EdgeQuery),
    DeleteEdges(EdgeQuery),
    GetEdgeCount(VertexId, Option<Identifier>, EdgeDirection),
    GetVertexProperties(VertexPropertyQuery),
    GetAllVertexProperties(VertexQuery),
    SetVertexProperties(VertexPropertyQuery, Json),
    DeleteVertexProperties(VertexPropertyQuery),
    GetEdgeProperties(EdgePropertyQuery),
    GetAllEdgeProperties(EdgeQuery),
    SetEdgeProperties(EdgePropertyQuery, Json),
    DeleteEdgeProperties(EdgePropertyQuery),
    IndexProperty(Identifier),
}

/// One item of a bulk insert.
#[derive(Debug, Clone, PartialEq)]
pub enum BulkInsertItem {
    Vertex(Vertex),
    Edge(EdgeKey),
    VertexProperty(VertexId, Identifier, Json),
    EdgeProperty(EdgeKey, Identifier, Json),
}

/// A vertex: its id and its type.
#[derive(Debug, PartialEq)]
pub struct Vertex {
    pub id: VertexId,
    pub t: Identifier,
}

/// Which end of an edge a vertex is on.
#[derive(Debug, Clone, Copy, PartialEq, Eq, Structural)]
pub enum EdgeDirection {
    Outbound,
    Inbound,
}

/// A query that selects vertices.
#[derive(Debug, PartialEq)]
pub enum VertexQuery {
    Range(RangeVertexQuery),
    Specific(SpecificVertexQuery),
    Pipe(PipeVertexQuery),
    PropertyPresence(PropertyPresenceVertexQuery),
    PropertyValue(PropertyValueVertexQuery),
    PipePropertyPresence(PipePropertyPresenceVertexQuery),
    PipePropertyValue(PipePropertyValueVertexQuery),
}

/// Up to `limit` vertices in id order, optionally of one type and from a
/// starting id on.
#[derive(Debug, PartialEq)]
pub struct RangeVertexQuery {
    pub limit: u32,
    pub t: Option<Identifier>,
    pub start_id: Option<VertexId>,
}

/// The vertices with the given ids.
#[derive(Debug, PartialEq)]
pub struct SpecificVertexQuery {
    pub ids: Vec<VertexId>,
}

/// The vertices at one end of the edges that an edge query selects.
#[derive(Debug, PartialEq)]
pub struct PipeVertexQuery {
    pub inner: Box<EdgeQuery>,
    pub direction: EdgeDirection,
    pub limit: u32,
    pub t: Option<Identifier>,
}

/// The vertices that have a property of the given name.
#[derive(Debug, PartialEq)]
pub struct PropertyPresenceVertexQuery {
    pub name: Identifier,
}

/// The vertices whose property of the given name has the given value.
#[derive(Debug, PartialEq)]
pub struct PropertyValueVertexQuery {
    pub name: Identifier,
    pub value: Json,
}

/// The vertices of an inner query that have (or, with `exists` false, lack) a
/// property of the given name.
#[derive(Debug, PartialEq)]
pub struct PipePropertyPresenceVertexQuery {
    pub inner: Box<VertexQuery>,
    pub name: Identifier,
    pub exists: bool,
}

/// The vertices of an inner query whose property of the given name equals
/// (or, with `equal` false, differs from) the given value.
#[derive(Debug, PartialEq)]
pub struct PipePropertyValueVertexQuery {
    pub inner: Box<VertexQuery>,
    pub name: Identifier,
    pub value: Json,
    pub equal: bool,
}

/// One named property of the vertices that a query selects.
#[derive(Debug, PartialEq)]
pub struct VertexPropertyQuery {
    pub inner: VertexQuery,
    pub name: Identifier,
}

/// A query that selects edges.
#[derive(Debug, PartialEq)]
pub enum EdgeQuery {
    Specific(SpecificEdgeQuery),
    Pipe(PipeEdgeQuery),
    PropertyPresence(PropertyPresenceEdgeQuery),
    PropertyValue(PropertyValueEdgeQuery),
    PipePropertyPresence(PipePropertyPresenceEdgeQuery),
    PipePropertyValue(PipePropertyValueEdgeQuery),
}

/// The edges with the given keys.
#[derive(Debug, PartialEq)]
pub struct SpecificEdgeQuery {
    pub keys: Vec<EdgeKey>,
}

/// The edges going out of, or into, the vertices that a vertex query selects,
/// optionally of one type and created within a time window.
#[derive(Debug, PartialEq)]
pub struct PipeEdgeQuery {
    pub inner: Box<VertexQuery>,
    pub direction: EdgeDirection,
    pub limit: u32,
    pub t: Option<Identifier>,
    pub high: Option<Timestamp>,
    pub low: Option<Timestamp>,
}

/// The edges that have a property of the given name.
#[derive(Debug, PartialEq)]
pub struct PropertyPresenceEdgeQuery {
    pub name: Identifier,
}

/// The edges whose property of the given name has the given value.
#[derive(Debug, PartialEq)]
pub struct PropertyValueEdgeQuery {
    pub name: Identifier,
    pub value: Json,
}

/// The edges of an inner query that have (or, with `exists` false, lack) a
/// property of the given name.
#[derive(Debug, PartialEq)]
pub struct PipePropertyPresenceEdgeQuery {
    pub inner: Box<EdgeQuery>,
    pub name: Identifier,
    pub exists: bool,
}

/// The edges of an inner query whose property of the given name equals (or,
/// with `equal` false, differs from) the given value.
#[derive(Debug, PartialEq)]
pub struct PipePropertyValueEdgeQuery {
    pub inner: Box<EdgeQuery>,
    pub name: Identifier,
    pub value: Json,
    pub equal: bool,
}

/// One named property of the edges that a query selects.
#[derive(Debug, PartialEq)]
pub struct EdgePropertyQuery {
    pub inner: EdgeQuery,
    pub name: Identifier,
}

/// The value of a property of one vertex.
#[derive(Debug, Clone, PartialEq)]
pub struct VertexProperty {
    pub id: VertexId,
    pub value: Json,
}

/// A property's name and value.
#[derive(Debug, Clone, PartialEq)]
pub struct NamedProperty {
    pub name: Identifier,
    pub value: Json,
}

/// A vertex with all of its properties.
#[derive(Debug, Clone, PartialEq)]
pub struct VertexProperties {
    pub vertex: Vertex,
    pub props: Vec<NamedProperty>,
}

/// An edge with all of its properties.
#[derive(Debug, Clone, PartialEq)]
pub struct EdgeProperties {
    pub edge: Edge,
    pub props: Vec<NamedProperty>,
}

/// The value of a property of one edge.
#[derive(Debug, Clone, PartialEq)]
pub struct EdgeProperty {
    pub key: EdgeKey,
    pub value: Json,
}

/// What names an edge: the vertex it leaves, its type and the vertex it
/// enters.
#[derive(Debug, PartialEq)]
pub struct EdgeKey {
    pub outbound_id: VertexId,
    pub t: Identifier,
    pub inbound_id: VertexId,
}

/// An edge and the moment it was created.
#[derive(Debug, PartialEq)]
pub struct Edge {
    pub key: EdgeKey,
    pub created_datetime: Timestamp,
}

/// Whether `b` is the same vertex query as `a`: the same kind, and the same
/// parts, JSON values compared by `json_eq`.
pub open spec fn same_vertex_query(a: VertexQuery, b: VertexQuery) -> bool
    decreases a,
{
    match a {
        VertexQuery::Range(x) => b == VertexQuery::Range(x),
        VertexQuery::Specific(x) => b matches VertexQuery::Specific(y) && y.ids@ == x.ids@,
        VertexQuery::Pipe(x) => b matches VertexQuery::Pipe(y) && same_edge_query(*x.inner, *y.inner)
            && y.direction == x.direction && y.limit == x.limit && y.t == x.t,
        VertexQuery::PropertyPresence(x) => b == VertexQuery::PropertyPresence(x),
        VertexQuery::PropertyValue(x) => b matches VertexQuery::PropertyValue(y) && y.name == x.name
            && json_eq(x.value, y.value),
        VertexQuery::PipePropertyPresence(x) => b matches VertexQuery::PipePropertyPresence(y)
            && same_vertex_query(*x.inner, *y.inner) && y.name == x.name && y.exists == x.exists,
        VertexQuery::PipePropertyValue(x) => b matches VertexQuery::PipePropertyValue(y)
            && same_vertex_query(*x.inner, *y.inner) && y.name == x.name && json_eq(x.value, y.value)
            && y.equal == x.equal,
    }
}

/// Whether `b` is the same edge query as `a`: the same kind, and the same
/// parts, JSON values compared by `json_eq`.
pub open spec fn same_edge_query(a: EdgeQuery, b: EdgeQuery) -> bool
    decreases a,
{
    match a {
        EdgeQuery::Specific(x) => b matches EdgeQuery::Specific(y) && y.keys@ == x.keys@,
        EdgeQuery::Pipe(x) => b matches EdgeQuery::Pipe(y) && same_vertex_query(*x.inner, *y.inner)
            && y.direction == x.direction && y.limit == x.limit && y.t == x.t && y.high == x.high
            && y.low == x.low,
        EdgeQuery::PropertyPresence(x) => b == EdgeQuery::PropertyPresence(x),
        EdgeQuery::PropertyValue(x) => b matches EdgeQuery::PropertyValue(y) && y.name == x.name
            && json_eq(x.value, y.value),
        EdgeQuery::PipePropertyPresence(x) => b matches EdgeQuery::PipePropertyPresence(y)
            && same_edge_query(*x.inner, *y.inner) && y.name == x.name && y.exists == x.exists,
        EdgeQuery::PipePropertyValue(x) => b matches EdgeQuery::PipePropertyValue(y)
            && same_edge_query(*x.inner, *y.inner) && y.name == x.name && json_eq(x.value, y.value)
            && y.equal == x.equal,
    }
}

/// A copy of an optional identifier.
fn clone_opt_identifier(t: &Option<Identifier>) -> (c: Option<Identifier>)
    ensures
        c == *t,
{
    match t {
        Some(id) => Some(id.clone()),
        None => None,
    }
}

/// A copy of a list of vertex ids.
fn clone_vertex_ids(ids: &Vec<VertexId>) -> (c: Vec<VertexId>)
    ensures
        c@ == ids@,
{
    let mut c: Vec<VertexId> = Vec::new();
    let mut i: usize = 0;
    while i < ids.len()
        invariant
            i <= ids@.len(),
            c@ == ids@.subrange(0, i as int),
        decreases ids@.len() - i,
    {
        c.push(ids[i]);
        i = i + 1;
        assert(c@ =~= ids@.subrange(0, i as int));
    }
    assert(ids@.subrange(0, i as int) =~= ids@);
    c
}

/// A copy of a list of edge keys.
fn clone_edge_keys(keys: &Vec<EdgeKey>) -> (c: Vec<EdgeKey>)
    ensures
        c@ == keys@,
{
    let mut c: Vec<EdgeKey> = Vec::new();
    let mut i: usize = 0;
    while i < keys.len()
        invariant
            i <= keys@.len(),
            c@ == keys@.subrange(0, i as int),
        decreases keys@.len() - i,
    {
        c.push(keys[i].clone());
        i = i + 1;
        assert(c@ =~= keys@.subrange(0, i as int));
    }
    assert(keys@.subrange(0, i as int) =~= keys@);
    c
}

/// A copy of a vertex query.
fn clone_vertex_query(q: &VertexQuery) -> (c: VertexQuery)
    ensures
        same_vertex_query(*q, c),
    decreases q,
{
    match q {
        VertexQuery::Range(r) => VertexQuery::Range(r.clone()),
        VertexQuery::Specific(r) => VertexQuery::Specific(r.clone()),
        VertexQuery::Pipe(p) => VertexQuery::Pipe(
            PipeVertexQuery {
                inner: Box::new(clone_edge_query(&p.inner)),
                direction: p.direction,
                limit: p.limit,
                t: clone_opt_identifier(&p.t),
            },
        ),
        VertexQuery::PropertyPresence(r) => VertexQuery::PropertyPresence(r.clone()),
        VertexQuery::PropertyValue(r) => VertexQuery::PropertyValue(r.clone()),
        VertexQuery::PipePropertyPresence(p) => VertexQuery::PipePropertyPresence(
            PipePropertyPresenceVertexQuery {
                inner: Box::new(clone_vertex_query(&p.inner)),
                name: p.name.clone(),
                exists: p.exists,
            },
        ),
        VertexQuery::PipePropertyValue(p) => VertexQuery::PipePropertyValue(
            PipePropertyValueVertexQuery {
                inner: Box::new(clone_vertex_query(&p.inner)),
                name: p.name.clone(),
                value: p.value.clone(),
                equal: p.equal,
            },
        ),
    }
}

/// A copy of an edge query.
fn clone_edge_query(q: &EdgeQuery) -> (c: EdgeQuery)
    ensures
        same_edge_query(*q, c),
    decreases q,
{
    match q {
        EdgeQuery::Specific(r) => EdgeQuery::Specific(r.clone()),
        EdgeQuery::Pipe(p) => EdgeQuery::Pipe(
            PipeEdgeQuery {
                inner: Box::new(clone_vertex_query(&p.inner)),
                direction: p.direction,
                limit: p.limit,
                t: clone_opt_identifier(&p.t),
                high: p.high,
                low: p.low,
            },
        ),
        EdgeQuery::PropertyPresence(r) => EdgeQuery::PropertyPresence(r.clone()),
        EdgeQuery::PropertyValue(r) => EdgeQuery::PropertyValue(r.clone()),
        EdgeQuery::PipePropertyPresence(p) => EdgeQuery::PipePropertyPresence(
            PipePropertyPresenceEdgeQuery {
                inner: Box::new(clone_edge_query(&p.inner)),
                name: p.name.clone(),
                exists: p.exists,
            },
        ),
        EdgeQuery::PipePropertyValue(p) => EdgeQuery::PipePropertyValue(
            PipePropertyValueEdgeQuery {
                inner: Box::new(clone_edge_query(&p.inner)),
                name: p.name.clone(),
                value: p.value.clone(),
                equal: p.equal,
            },
        ),
    }
}

impl Clone for Vertex {
    fn clone(&self) -> (c: Vertex)
        ensures
            c == *self,
    {
        Vertex { id: self.id, t: self.t.clone() }
    }
}

impl Clone for EdgeKey {
    fn clone(&self) -> (c: EdgeKey)
        ensures
            c == *self,
    {
        EdgeKey { outbound_id: self.outbound_id, t: self.t.clone(), inbound_id: self.inbound_id }
    }
}

impl Clone for Edge {
    fn clone(&self) -> (c: Edge)
        ensures
            c == *self,
    {
        Edge { key: self.key.clone(), created_datetime: self.created_datetime }
    }
}

impl Clone for RangeVertexQuery {
    fn clone(&self) -> (c: RangeVertexQuery)
        ensures
            c == *self,
    {
        RangeVertexQuery { limit: self.limit, t: clone_opt_identifier(&self.t), start_id: self.start_id }
    }
}

impl Clone for SpecificVertexQuery {
    fn clone(&self) -> (c: SpecificVertexQuery)
        ensures
            c.ids@ == self.ids@,
    {
        SpecificVertexQuery { ids: clone_vertex_ids(&self.ids) }
    }
}

impl Clone for PropertyPresenceVertexQuery {
    fn clone(&self) -> (c: PropertyPresenceVertexQuery)
        ensures
            c == *self,
    {
        PropertyPresenceVertexQuery { name: self.name.clone() }
    }
}

impl Clone for PropertyValueVertexQuery {
    fn clone(&self) -> (c: PropertyValueVertexQuery)
        ensures
            c.name == self.name,
            json_eq(self.value, c.value),
    {
        PropertyValueVertexQuery { name: self.name.clone(), value: self.value.clone() }
    }
}

impl Clone for VertexPropertyQuery {
    fn clone(&self) -> (c: VertexPropertyQuery)
        ensures
            same_vertex_query(self.inner, c.inner),
            c.name == self.name,
    {
        VertexPropertyQuery { inner: clone_vertex_query(&self.inner), name: self.name.clone() }
    }
}

impl Clone for SpecificEdgeQuery {
    fn clone(&self) -> (c: SpecificEdgeQuery)
        ensures
            c.keys@ == self.keys@,
    {
        SpecificEdgeQuery { keys: clone_edge_keys(&self.keys) }
    }
}

impl Clone for PropertyPresenceEdgeQuery {
    fn clone(&self) -> (c: PropertyPresenceEdgeQuery)
        ensures
            c == *self,
    {
        PropertyPresenceEdgeQuery { name: self.name.clone() }
    }
}

impl Clone for PropertyValueEdgeQuery {
    fn clone(&self) -> (c: PropertyValueEdgeQuery)
        ensures
            c.name == self.name,
            json_eq(self.value, c.value),
    {
        PropertyValueEdgeQuery { name: self.name.clone(), value: self.value.clone() }
    }
}

impl Clone for EdgePropertyQuery {
    fn clone(&self) -> (c: EdgePropertyQuery)
        ensures
            same_edge_query(self.inner, c.inner),
            c.name == self.name,
    {
        EdgePropertyQuery { inner: clone_edge_query(&self.inner), name: self.name.clone() }
    }
}

impl Clone for VertexQuery {
    fn clone(&self) -> (c: VertexQuery)
        ensures
            same_vertex_query(*self, c),
    {
        clone_vertex_query(self)
    }
}

impl Clone for EdgeQuery {
    fn clone(&self) -> (c: EdgeQuery)
        ensures
            same_edge_query(*self, c),
    {
        clone_edge_query(self)
    }
}

impl Clone for PipeVertexQuery {
    fn clone(&self) -> (c: PipeVertexQuery)
        ensures
            same_vertex_query(VertexQuery::Pipe(*self), VertexQuery::Pipe(c)),
    {
        PipeVertexQuery {
            inner: Box::new(clone_edge_query(&self.inner)),
            direction: self.direction,
            limit: self.limit,
            t: clone_opt_identifier(&self.t),
        }
    }
}

impl Clone for PipePropertyPresenceVertexQuery {
    fn clone(&self) -> (c: PipePropertyPresenceVertexQuery)
        ensures
            same_vertex_query(
                VertexQuery::PipePropertyPresence(*self),
                VertexQuery::PipePropertyPresence(c),
            ),
    {
        PipePropertyPresenceVertexQuery {
            inner: Box::new(clone_vertex_query(&self.inner)),
            name: self.name.clone(),
            exists: self.exists,
        }
    }
}

impl Clone for PipePropertyValueVertexQuery {
    fn clone(&self) -> (c: PipePropertyValueVertexQuery)
        ensures
            same_vertex_query(
                VertexQuery::PipePropertyValue(*self),
                VertexQuery::PipePropertyValue(c),
            ),
    {
        PipePropertyValueVertexQuery {
            inner: Box::new(clone_vertex_query(&self.inner)),
            name: self.name.clone(),
            value: self.value.clone(),
            equal: self.equal,
        }
    }
}

impl Clone for PipeEdgeQuery {
    fn clone(&self) -> (c: PipeEdgeQuery)
        ensures
            same_edge_query(EdgeQuery::Pipe(*self), EdgeQuery::Pipe(c)),
    {
        PipeEdgeQuery {
            inner: Box::new(clone_vertex_query(&self.inner)),
            direction: self.direction,
            limit: self.limit,
            t: clone_opt_identifier(&self.t),
            high: self.high,
            low: self.low,
        }
    }
}

impl Clone for PipePropertyPresenceEdgeQuery {
    fn clone(&self) -> (c: PipePropertyPresenceEdgeQuery)
        ensures
            same_edge_query(
                EdgeQuery::PipePropertyPresence(*self),
                EdgeQuery::PipePropertyPresence(c),
            ),
    {
        PipePropertyPresenceEdgeQuery {
            inner: Box::new(clone_edge_query(&self.inner)),
            name: self.name.clone(),
            exists: self.exists,
        }
    }
}

impl Clone for PipePropertyValueEdgeQuery {
    fn clone(&self) -> (c: PipePropertyValueEdgeQuery)
        ensures
            same_edge_query(EdgeQuery::PipePropertyValue(*self), EdgeQuery::PipePropertyValue(c)),
    {
        PipePropertyValueEdgeQuery {
            inner: Box::new(clone_edge_query(&self.inner)),
            name: self.name.clone(),
            value: self.value.clone(),
            equal: self.equal,
        }
    }
}

/// Law: a vertex query that is the same as another is of the same kind and
/// keeps each of its parts: the same limit, type, start id, ids, direction,
/// property name and `exists` / `equal` flag, JSON values equal as JSON, and
/// an inner query that is the same as the other's.
pub proof fn law_same_vertex_query(a: VertexQuery, b: VertexQuery)
    requires
        same_vertex_query(a, b),
    ensures
        a matches VertexQuery::Range(x) ==> (b matches VertexQuery::Range(y) && y.limit == x.limit
            && y.t == x.t && y.start_id == x.start_id),
        a matches VertexQuery::Specific(x) ==> (b matches VertexQuery::Specific(y) && y.ids@
            == x.ids@),
        a matches VertexQuery::Pipe(x) ==> (b matches VertexQuery::Pipe(y) && y.direction
            == x.direction && y.limit == x.limit && y.t == x.t && same_edge_query(
            *x.inner,
            *y.inner,
        )),
        a matches VertexQuery::PropertyPresence(x) ==> (b matches VertexQuery::PropertyPresence(y)
            && y.name == x.name),
        a matches VertexQuery::PropertyValue(x) ==> (b matches VertexQuery::PropertyValue(y)
            && y.name == x.name && json_eq(x.value, y.value)),
        a matches VertexQuery::PipePropertyPresence(x) ==> (b matches VertexQuery::PipePropertyPresence(
            y,
        ) && y.exists == x.exists && y.name == x.name && same_vertex_query(*x.inner, *y.inner)),
        a matches VertexQuery::PipePropertyValue(x) ==> (b matches VertexQuery::PipePropertyValue(y)
            && y.equal == x.equal && y.name == x.name && json_eq(x.value, y.value)
            && same_vertex_query(*x.inner, *y.inner)),
{
}

/// Law: an edge query that is the same as another is of the same kind and
/// keeps each of its parts: the same keys, direction, limit, type, time
/// window, property name and `exists` / `equal` flag, JSON values equal as
/// JSON, and an inner query that is the same as the other's.
pub proof fn law_same_edge_query(a: EdgeQuery, b: EdgeQuery)
    requires
        same_edge_query(a, b),
    ensures
        a matches EdgeQuery::Specific(x) ==> (b matches EdgeQuery::Specific(y) && y.keys@
            == x.keys@),
        a matches EdgeQuery::Pipe(x) ==> (b matches EdgeQuery::Pipe(y) && y.direction == x.direction
            && y.limit == x.limit && y.t == x.t && y.high == x.high && y.low == x.low
            && same_vertex_query(*x.inner, *y.inner)),
        a matches EdgeQuery::PropertyPresence(x) ==> (b matches EdgeQuery::PropertyPresence(y)
            && y.name == x.name),
        a matches EdgeQuery::PropertyValue(x) ==> (b matches EdgeQuery::PropertyValue(y) && y.name
            == x.name && json_eq(x.value, y.value)),
        a matches EdgeQuery::PipePropertyPresence(x) ==> (b matches EdgeQuery::PipePropertyPresence(
            y,
        ) && y.exists == x.exists && y.name == x.name && same_edge_query(*x.inner, *y.inner)),
        a matches EdgeQuery::PipePropertyValue(x) ==> (b matches EdgeQuery::PipePropertyValue(y)
            && y.equal == x.equal && y.name == x.name && json_eq(x.value, y.value)
            && same_edge_query(*x.inner, *y.inner)),
{
}

} // verus!
