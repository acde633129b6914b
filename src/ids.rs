use vstd::prelude::*;

verus! {

/// Identity of a document-database record: the twelve bytes of a generated
/// object id. It is fixed when the value is built and never derived again.
#[derive(Clone, Copy, Debug)]
pub struct DocId {
    pub bytes: [u8; 12],
}

impl DocId {
    /// An identity made from raw bytes (as read back from the backend).
    pub fn from_bytes(bytes: [u8; 12]) -> (r: DocId)
        ensures
            r.bytes@ == bytes@,
    {
        DocId { bytes }
    }

    pub fn to_bytes(&self) -> (r: [u8; 12])
        ensures
            r@ == self.bytes@,
    {
        self.bytes
    }
}

impl PartialEq for DocId {
    fn eq(&self, other: &DocId) -> (r: bool) {
        let mut i: usize = 0;
        while i < 12
            invariant
                i <= 12,
                forall|j: int| 0 <= j < i ==> self.bytes@[j] == other.bytes@[j],
            decreases 12 - i,
        {
            if self.bytes[i] != other.bytes[i] {
                return false;
            }
            i = i + 1;
        }
        proof {
            assert(self.bytes@ =~= other.bytes@);
        }
        true
    }
}

impl vstd::std_specs::cmp::PartialEqSpecImpl for DocId {
    open spec fn obeys_eq_spec() -> bool {
        true
    }

    open spec fn eq_spec(&self, other: &DocId) -> bool {
        self.bytes@ == other.bytes@
    }
}

/// Relies on bson::oid::ObjectId::new, which draws on the clock, the process
/// and a counter: nothing is promised of the bytes it hands out.
#[verifier::external_body]
pub(crate) fn fresh_doc_id() -> (r: DocId) {
    DocId { bytes: bson::oid::ObjectId::new().bytes() }
}

} // verus!
