//! Identity keys, the ownership check and address derivation.
use crate::ErrorCode;
use vstd::prelude::*;

verus! {

/// A 32-byte identity or address.
#[derive(Clone, Copy, Debug, PartialEq, Eq)]
pub struct Pubkey {
    pub bytes: [u8; 32],
}

impl View for Pubkey {
    type V = Seq<u8>;

    open spec fn view(&self) -> Seq<u8> {
        self.bytes@
    }
}

impl Pubkey {
    /// The all-zero key, which a fresh record holds before it is written.
    pub fn zeroed() -> (r: Pubkey)
        ensures
            r@ == Seq::new(32, |i: int| 0u8),
    {
        let r = Pubkey { bytes: [0u8; 32] };
        assert(r@ =~= Seq::new(32, |i: int| 0u8));
        r
    }

    /// Compares two keys byte by byte.
    pub fn same_as(&self, other: &Pubkey) -> (r: bool)
        ensures
            r == (self@ == other@),
    {
        let mut i: usize = 0;
        while i < 32
            invariant
                0 <= i <= 32,
                self@.len() == 32,
                other@.len() == 32,
                forall|j: int| 0 <= j < i ==> self@[j] == other@[j],
            decreases 32 - i,
        {
            if self.bytes[i] != other.bytes[i] {
                return false;
            }
            i = i + 1;
        }
        assert(self@ =~= other@);
        true
    }

    /// The key's bytes as a vector.
    pub fn to_vec(&self) -> (r: Vec<u8>)
        ensures
            r@ == self@,
    {
        let mut r: Vec<u8> = Vec::new();
        let mut i: usize = 0;
        while i < 32
            invariant
                0 <= i <= 32,
                self@.len() == 32,
                r@ == self@.subrange(0, i as int),
            decreases 32 - i,
        {
            r.push(self.bytes[i]);
            i = i + 1;
            assert(r@ =~= self@.subrange(0, i as int));
        }
        assert(self@.subrange(0, 32) =~= self@);
        r
    }
}

/// The all-zero key as a sequence of bytes.
pub open spec fn zero_key() -> Seq<u8> {
    Seq::new(32, |i: int| 0u8)
}

/// The ownership rule: a caller may change a record only if it is the
/// record's owner.
pub open spec fn authorized(caller: Seq<u8>, owner: Seq<u8>) -> Result<(), ErrorCode> {
    if caller == owner {
        Ok(())
    } else {
        Err(ErrorCode::Forbidden)
    }
}

/// Checks that `caller` is the owner recorded in a record.
pub fn authorize(caller: &Pubkey, owner: &Pubkey) -> (r: Result<(), ErrorCode>)
    ensures
        r == authorized(caller@, owner@),
{
    if caller.same_as(owner) {
        Ok(())
    } else {
        Err(ErrorCode::Forbidden)
    }
}

/// The address that the host derives from two seeds and a program id, if
/// one can be derived.
pub uninterp spec fn program_address_of(first: Seq<u8>, second: Seq<u8>, program: Seq<u8>) -> Option<Seq<u8>>;

/// Relies on anchor_lang's `Pubkey::try_find_program_address`: the address
/// found (its bump seed set aside) depends on the seeds and the program id
/// alone, and none is found when a seed is longer than 32 bytes.
#[verifier::external_body]
fn try_find_address(first: &[u8], second: &[u8], program: &Pubkey) -> (r: Option<Pubkey>)
    ensures
        match r {
            Some(a) => program_address_of(first@, second@, program@) == Some(a@),
            None => program_address_of(first@, second@, program@) is None,
        },
        (first@.len() > 32 || second@.len() > 32) ==> r is None,
{
    let program = anchor_lang::prelude::Pubkey::new_from_array(program.bytes);
    anchor_lang::prelude::Pubkey::try_find_program_address(&[first, second], &program)
        .map(|found| Pubkey { bytes: found.0.to_bytes() })
}

/// Derives the address of a record from two seeds and the program id.
pub fn derive_address(first: &[u8], second: &[u8], program: &Pubkey) -> (r: Option<Pubkey>)
    ensures
        match r {
            Some(a) => program_address_of(first@, second@, program@) == Some(a@),
            None => program_address_of(first@, second@, program@) is None,
        },
        (first@.len() > 32 || second@.len() > 32) ==> r is None,
{
    try_find_address(first, second, program)
}

} // verus!
