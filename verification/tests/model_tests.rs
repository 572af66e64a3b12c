use indradb_lib::{
    EdgeQuery, Json, PipeEdgeQuery, PipePropertyValueVertexQuery, PropertyPresenceEdgeQuery,
    EdgeDirection, EdgeKey, Identifier, Op, RangeVertexQuery, Timestamp, Vertex, VertexId, VertexQuery,
};

#[test]
fn edge_directions_differ() {
    assert_ne!(EdgeDirection::Outbound, EdgeDirection::Inbound);
    assert_eq!(EdgeDirection::Inbound, EdgeDirection::Inbound.clone());
}

#[test]
fn build_operations() {
    let t = Identifier::new("user".to_string()).unwrap();
    let v = Vertex { id: VertexId::from_arbitrary(7), t: t.clone() };
    let op = Op::CreateVertex(v.clone());
    assert_eq!(op, Op::CreateVertex(v));
    let key = EdgeKey {
        outbound_id: VertexId::from_arbitrary(1),
        t: t.clone(),
        inbound_id: VertexId::from_arbitrary(2),
    };
    let edge = indradb_lib::Edge { key: key.clone(), created_datetime: Timestamp::from_arbitrary(10, 0).unwrap() };
    assert_eq!(edge.key, key);
    let q = VertexQuery::Range(RangeVertexQuery { limit: 5, t: Some(t), start_id: None });
    assert_eq!(Op::GetVertices(q), Op::GetVertices(VertexQuery::Range(RangeVertexQuery {
        limit: 5,
        t: Some(Identifier::new("user".to_string()).unwrap()),
        start_id: None,
    })));
}

#[test]
fn queries_clone_equal() {
    let name = Identifier::new("age".to_string()).unwrap();
    let edges = EdgeQuery::PropertyPresence(PropertyPresenceEdgeQuery { name: name.clone() });
    let q = VertexQuery::PipePropertyValue(PipePropertyValueVertexQuery {
        inner: Box::new(VertexQuery::Range(RangeVertexQuery { limit: 1, t: None, start_id: None })),
        name: name.clone(),
        value: Json::object(vec![("k".to_string(), Json::Bool(true))]),
        equal: false,
    });
    assert_eq!(q.clone(), q);
    let pipe = EdgeQuery::Pipe(PipeEdgeQuery {
        inner: Box::new(q),
        direction: EdgeDirection::Outbound,
        limit: 3,
        t: Some(name),
        high: Some(Timestamp::from_arbitrary(100, 0).unwrap()),
        low: None,
    });
    assert_eq!(pipe.clone(), pipe);
    assert_eq!(edges.clone(), edges);
    let op = Op::DeleteEdges(pipe);
    assert_eq!(op.clone(), op);
}
