use vstd::prelude::*;

verus! {

#[verifier::external_type_specification]
#[verifier::external_body]
pub struct ExUuid(uuid::Uuid);

/// What `uuid::Uuid::from_u128` returns for `v`: the UUID whose sixteen
/// bytes are `v` in big-endian order.
pub uninterp spec fn uuid_of_u128(v: u128) -> uuid::Uuid;

/// Calls `uuid::Uuid::from_u128`. Claimed: the result is the named
/// `uuid_of_u128(v)`, and no other `u128` gives the same UUID (the source
/// builds it from `v.to_be_bytes()`, which keeps every bit of `v`).
#[verifier::external_body]
fn uuid_from_u128(v: u128) -> (u: uuid::Uuid)
    ensures
        u == uuid_of_u128(v),
        forall|w: u128| #[trigger] uuid_of_u128(w) == u ==> w == v,
{
    uuid::Uuid::from_u128(v)
}

/// The id of a vertex.
#[derive(Debug, Clone, Copy, PartialEq)]
pub struct VertexId(uuid::Uuid);

impl View for VertexId {
    type V = uuid::Uuid;

    closed spec fn view(&self) -> uuid::Uuid {
        self.0
    }
}

impl VertexId {
    /// The id built from a 128-bit value drawn from the fuzzer's input.
    pub fn from_arbitrary(raw: u128) -> (id: VertexId)
        ensures
            id@ == uuid_of_u128(raw),
            forall|w: u128| #[trigger] uuid_of_u128(w) == id@ ==> w == raw,
    {
        VertexId(uuid_from_u128(raw))
    }

    /// The UUID this id holds.
    pub fn into_uuid(self) -> (u: uuid::Uuid)
        ensures
            u == self@,
    {
        self.0
    }
}

} // verus!
