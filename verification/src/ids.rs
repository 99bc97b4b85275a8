//! Persistent account identifiers: 32-byte public keys, carried as plain
//! bytes, with trusted conversions to and from their base-58 textual form.

use vstd::prelude::*;
use std::str::FromStr;

verus! {

/// What `solana_program::pubkey::Pubkey::from_str` yields on a given text:
/// `Some` of the 32 decoded bytes when the text is valid base 58 of a 32-byte
/// key, `None` otherwise. The result depends on the characters alone.
pub uninterp spec fn pubkey_of_text(s: Seq<char>) -> Option<Seq<u8>>;

/// The base-58 text that the `Display` impl of
/// `solana_program::pubkey::Pubkey` writes for 32 given key bytes.
pub uninterp spec fn text_of_pubkey(b: Seq<u8>) -> Seq<char>;

/// A persistent account identifier on the remote ledger: exactly 32 bytes.
#[derive(Debug)]
pub struct AccountId {
    bytes: Vec<u8>,
}

impl View for AccountId {
    type V = Seq<u8>;

    closed spec fn view(&self) -> Seq<u8> {
        self.bytes@
    }
}

/// Relies on `solana_program::pubkey::Pubkey::from_str`: base-58 decoding of
/// the text, `Ok` exactly when it denotes 32 bytes.
#[verifier::external_body]
fn pubkey_from_text(s: &str) -> (r: Option<Vec<u8>>)
    ensures
        match r {
            Some(b) => pubkey_of_text(s@) == Some(b@) && b@.len() == 32,
            None => pubkey_of_text(s@) is None,
        },
{
    match solana_program::pubkey::Pubkey::from_str(s) {
        Ok(pk) => Some(pk.to_bytes().to_vec()),
        Err(_) => None,
    }
}

/// Relies on the `Display` impl of `solana_program::pubkey::Pubkey`: it writes
/// the base-58 encoding of the 32 key bytes, and `Pubkey::from_str` decodes
/// that encoding back to the same 32 bytes.
#[verifier::external_body]
fn pubkey_to_text(b: &Vec<u8>) -> (r: String)
    requires
        b@.len() == 32,
    ensures
        r@ == text_of_pubkey(b@),
        pubkey_of_text(r@) == Some(b@),
{
    let arr: [u8; 32] = b.as_slice().try_into().unwrap();
    solana_program::pubkey::Pubkey::new_from_array(arr).to_string()
}

fn copy_bytes(v: &Vec<u8>) -> (r: Vec<u8>)
    ensures
        r@ == v@,
{
    let mut out: Vec<u8> = Vec::new();
    let mut i: usize = 0;
    while i < v.len()
        invariant
            i <= v.len(),
            out@ == v@.subrange(0, i as int),
        decreases v.len() - i,
    {
        out.push(v[i]);
        i = i + 1;
    }
    proof {
        assert(out@ =~= v@);
    }
    out
}

impl AccountId {
    /// An identifier is exactly 32 bytes long.
    pub open spec fn wf(&self) -> bool {
        self@.len() == 32
    }

    /// Wraps 32 raw bytes as an identifier; rejects any other length.
    pub fn from_bytes(bytes: Vec<u8>) -> (r: Option<AccountId>)
        ensures
            bytes@.len() == 32 ==> (r matches Some(id) && id@ == bytes@ && id.wf()),
            bytes@.len() != 32 ==> r is None,
    {
        if bytes.len() == 32 {
            Some(AccountId { bytes })
        } else {
            None
        }
    }

    /// The all-zero identifier, the conventional placeholder value.
    pub fn zeroed() -> (r: AccountId)
        ensures
            r.wf(),
            forall|i: int| 0 <= i < 32 ==> r@[i] == 0u8,
    {
        let mut bytes: Vec<u8> = Vec::new();
        let mut i: usize = 0;
        while i < 32
            invariant
                i <= 32,
                bytes@.len() == i,
                forall|j: int| 0 <= j < i ==> bytes@[j] == 0u8,
            decreases 32 - i,
        {
            bytes.push(0u8);
            i = i + 1;
        }
        AccountId { bytes }
    }

    /// The raw 32 bytes.
    pub fn as_bytes(&self) -> (r: &[u8])
        ensures
            r@ == self@,
    {
        self.bytes.as_slice()
    }

    /// An owned copy of the identifier.
    pub fn duplicate(&self) -> (r: AccountId)
        ensures
            r@ == self@,
    {
        AccountId { bytes: copy_bytes(&self.bytes) }
    }

    /// Byte-for-byte equality of two identifiers.
    pub fn same_as(&self, other: &AccountId) -> (r: bool)
        ensures
            r == (self@ == other@),
    {
        if self.bytes.len() != other.bytes.len() {
            return false;
        }
        let mut i: usize = 0;
        while i < self.bytes.len()
            invariant
                i <= self.bytes.len(),
                self@.len() == other@.len(),
                forall|j: int| 0 <= j < i ==> self@[j] == other@[j],
            decreases self.bytes.len() - i,
        {
            if self.bytes[i] != other.bytes[i] {
                return false;
            }
            i = i + 1;
        }
        proof {
            assert(self@ =~= other@);
        }
        true
    }

    /// Parses the base-58 textual form of an identifier, as read from the
    /// local cache line.
    pub fn parse_text(s: &str) -> (r: Option<AccountId>)
        ensures
            r matches Some(id) ==> pubkey_of_text(s@) == Some(id@) && id.wf(),
            r is None ==> pubkey_of_text(s@) is None,
    {
        match pubkey_from_text(s) {
            Some(b) => Some(AccountId { bytes: b }),
            None => None,
        }
    }

    /// Renders the identifier in its base-58 textual form; parsing the text
    /// back yields this identifier again.
    pub fn to_text(&self) -> (r: String)
        requires
            self.wf(),
        ensures
            r@ == text_of_pubkey(self@),
            pubkey_of_text(r@) == Some(self@),
    {
        pubkey_to_text(&self.bytes)
    }
}

} // verus!
