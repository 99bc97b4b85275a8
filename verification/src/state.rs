//! The vending state record and its fixed 48-byte binary layout:
//! stock and price as little-endian `u64`, then the 32-byte owner key,
//! with no padding and no version tag.

use vstd::prelude::*;
use vstd::bytes::{
    spec_u64_from_le_bytes, spec_u64_to_le_bytes, u64_from_le_bytes, u64_to_le_bytes,
    lemma_auto_spec_u64_to_from_le_bytes,
};
use vstd::slice::{slice_subrange, slice_to_vec};
use crate::errors::VendingError;
use crate::ids::AccountId;

verus! {

/// The length of an encoded state image: 8 + 8 + 32 bytes.
pub const STATE_LEN: usize = 48;

/// The remote vending record: current stock, unit price, and the owner key.
#[derive(Debug)]
pub struct VendingState {
    pub stock: u64,
    pub price: u64,
    pub owner: AccountId,
}

/// The bytes of an encoded state image with the given fields.
pub open spec fn state_bytes(stock: u64, price: u64, owner: Seq<u8>) -> Seq<u8> {
    spec_u64_to_le_bytes(stock) + spec_u64_to_le_bytes(price) + owner
}

impl VendingState {
    /// The owner field is a 32-byte identifier.
    pub open spec fn wf(&self) -> bool {
        self.owner.wf()
    }

    /// The encoding of this record.
    pub open spec fn spec_encoding(&self) -> Seq<u8> {
        state_bytes(self.stock, self.price, self.owner@)
    }

    /// Serializes the record into its 48-byte layout.
    pub fn encode(&self) -> (r: Vec<u8>)
        requires
            self.wf(),
        ensures
            r@ == self.spec_encoding(),
            r@.len() == 48,
    {
        proof {
            lemma_auto_spec_u64_to_from_le_bytes();
        }
        let mut out = u64_to_le_bytes(self.stock);
        let price_bytes = u64_to_le_bytes(self.price);
        append_bytes(&mut out, price_bytes.as_slice());
        append_bytes(&mut out, self.owner.as_bytes());
        proof {
            assert(out@ =~= self.spec_encoding());
        }
        out
    }

    /// Deserializes a 48-byte state image; any other length fails with
    /// `MalformedState`, all or nothing.
    pub fn decode(bytes: &[u8]) -> (r: Result<VendingState, VendingError>)
        ensures
            bytes@.len() == 48 ==> (r matches Ok(s) && {
                &&& s.stock == spec_u64_from_le_bytes(bytes@.subrange(0, 8))
                &&& s.price == spec_u64_from_le_bytes(bytes@.subrange(8, 16))
                &&& s.owner@ == bytes@.subrange(16, 48)
                &&& s.wf()
            }),
            bytes@.len() != 48 ==> r == Err::<VendingState, VendingError>(
                VendingError::MalformedState,
            ),
    {
        if bytes.len() != STATE_LEN {
            return Err(VendingError::MalformedState);
        }
        let stock = u64_from_le_bytes(slice_subrange(bytes, 0, 8));
        let price = u64_from_le_bytes(slice_subrange(bytes, 8, 16));
        let owner_bytes = slice_to_vec(slice_subrange(bytes, 16, 48));
        match AccountId::from_bytes(owner_bytes) {
            Some(owner) => Ok(VendingState { stock, price, owner }),
            None => Err(VendingError::MalformedState),
        }
    }
}

/// Appends the bytes of `src` to `out`.
pub fn append_bytes(out: &mut Vec<u8>, src: &[u8])
    ensures
        final(out)@ == old(out)@ + src@,
{
    let mut i: usize = 0;
    while i < src.len()
        invariant
            i <= src.len(),
            out@ == old(out)@ + src@.subrange(0, i as int),
        decreases src.len() - i,
    {
        let b = *vstd::slice::slice_index_get(src, i);
        out.push(b);
        i = i + 1;
        proof {
            assert(out@ =~= old(out)@ + src@.subrange(0, i as int));
        }
    }
    proof {
        assert(out@ =~= old(out)@ + src@);
    }
}

/// Law: decoding a 48-byte state image and re-encoding the decoded record
/// yields the identical bytes.
pub proof fn lemma_state_round_trip(bytes: Seq<u8>)
    requires
        bytes.len() == 48,
    ensures
        state_bytes(
            spec_u64_from_le_bytes(bytes.subrange(0, 8)),
            spec_u64_from_le_bytes(bytes.subrange(8, 16)),
            bytes.subrange(16, 48),
        ) == bytes,
{
    lemma_auto_spec_u64_to_from_le_bytes();
    assert(state_bytes(
        spec_u64_from_le_bytes(bytes.subrange(0, 8)),
        spec_u64_from_le_bytes(bytes.subrange(8, 16)),
        bytes.subrange(16, 48),
    ) =~= bytes);
}

/// Law: an encoded record decodes back to its own fields.
pub proof fn lemma_state_encode_decode(stock: u64, price: u64, owner: Seq<u8>)
    requires
        owner.len() == 32,
    ensures
        state_bytes(stock, price, owner).len() == 48,
        spec_u64_from_le_bytes(state_bytes(stock, price, owner).subrange(0, 8)) == stock,
        spec_u64_from_le_bytes(state_bytes(stock, price, owner).subrange(8, 16)) == price,
        state_bytes(stock, price, owner).subrange(16, 48) == owner,
{
    lemma_auto_spec_u64_to_from_le_bytes();
    let enc = state_bytes(stock, price, owner);
    assert(enc.subrange(0, 8) =~= spec_u64_to_le_bytes(stock));
    assert(enc.subrange(8, 16) =~= spec_u64_to_le_bytes(price));
    assert(enc.subrange(16, 48) =~= owner);
}

} // verus!
