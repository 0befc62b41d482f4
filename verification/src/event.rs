//! The record the beacon emits, and its fixed wire layout.

use crate::identity::PublicKey;
use vstd::prelude::*;

verus! {

/// Length in bytes of an encoded [`ExecutionObserved`].
pub const EVENT_LEN: usize = 64;

/// The fact that a signer attests the execution of a quote.
#[derive(Clone, Copy, Debug, PartialEq, Eq)]
pub struct ExecutionObserved {
    /// Public key of the authenticated signer.
    pub payer: PublicKey,
    /// The caller's 32-byte reference to the quote.
    pub quote_id: [u8; 32],
}

impl ExecutionObserved {
    /// The encoded record: the payer's 32 bytes, then the quote's 32 bytes.
    pub open spec fn wire(self) -> Seq<u8> {
        self.payer.bytes@ + self.quote_id@
    }

    /// Encodes the record in its wire layout.
    pub fn to_bytes(&self) -> (out: [u8; 64])
        ensures
            out@ == self.wire(),
    {
        let mut out = [0u8; 64];
        let mut i: usize = 0;
        while i < 32
            invariant
                i <= 32,
                forall|j: int| 0 <= j < i ==> out@[j] == self.payer.bytes@[j],
                forall|j: int| 0 <= j < i ==> out@[32 + j] == self.quote_id@[j],
            decreases 32 - i,
        {
            out[i] = self.payer.bytes[i];
            out[i + 32] = self.quote_id[i];
            i += 1;
        }
        assert(out@ =~= self.wire());
        out
    }

    /// Decodes a record from its wire layout. Exactly the inputs of
    /// `EVENT_LEN` bytes decode, each to the one record that encodes to it.
    pub fn from_bytes(bytes: &[u8]) -> (decoded: Option<ExecutionObserved>)
        ensures
            decoded is Some <==> bytes@.len() == EVENT_LEN,
            decoded matches Some(record) ==> record.wire() == bytes@,
    {
        if bytes.len() != EVENT_LEN {
            return None;
        }
        let mut payer = [0u8; 32];
        let mut quote_id = [0u8; 32];
        let mut i: usize = 0;
        while i < 32
            invariant
                i <= 32,
                bytes@.len() == 64,
                forall|j: int| 0 <= j < i ==> payer@[j] == bytes@[j],
                forall|j: int| 0 <= j < i ==> quote_id@[j] == bytes@[32 + j],
            decreases 32 - i,
        {
            payer[i] = bytes[i];
            quote_id[i] = bytes[i + 32];
            i += 1;
        }
        let record = ExecutionObserved { payer: PublicKey { bytes: payer }, quote_id };
        assert(record.wire() =~= bytes@);
        Some(record)
    }
}

/// Every record encodes to exactly `EVENT_LEN` bytes, the payer in the first
/// half and the quote in the second.
pub proof fn lemma_wire_layout(record: ExecutionObserved)
    ensures
        record.wire().len() == EVENT_LEN,
        record.wire().subrange(0, 32) == record.payer.bytes@,
        record.wire().subrange(32, 64) == record.quote_id@,
{
    assert(record.wire().subrange(0, 32) =~= record.payer.bytes@);
    assert(record.wire().subrange(32, 64) =~= record.quote_id@);
}

/// Two records with the same encoding are the same record.
pub proof fn lemma_wire_injective(a: ExecutionObserved, b: ExecutionObserved)
    requires
        a.wire() == b.wire(),
    ensures
        a == b,
{
    lemma_wire_layout(a);
    lemma_wire_layout(b);
    assert(a.payer.bytes =~= b.payer.bytes);
    assert(a.quote_id =~= b.quote_id);
}

} // verus!
