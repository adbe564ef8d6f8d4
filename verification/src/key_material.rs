//! Key material in memory: bytes that are set to zero when their holder
//! lets go of them.

use vstd::prelude::*;
use std::ops::Deref;

verus! {

/// Overwrites every byte with zero and keeps the length.
///
/// Not verified: the body calls `fill` of the slices of the standard
/// library, which sets every element to the given value.
#[verifier::external_body]
fn fill_with_zeros(bytes: &mut Vec<u8>)
    ensures
        final(bytes)@ == Seq::new(old(bytes)@.len(), |i: int| 0u8),
    opens_invariants none
    no_unwind
{
    bytes.fill(0);
}

/// The plaintext material of a key. When the value is dropped, its bytes
/// are set to zero before the memory is released. A copy is a second
/// value, whose bytes are set to zero when it is dropped itself.
///
/// The zeros are written like any other bytes: nothing here keeps a
/// compiler from leaving out a write that no code reads afterwards.
pub struct KeyMaterial {
    bytes: Vec<u8>,
}

impl View for KeyMaterial {
    type V = Seq<u8>;

    closed spec fn view(&self) -> Seq<u8> {
        self.bytes@
    }
}

/// The view of optional key material.
pub open spec fn material_view(material: Option<KeyMaterial>) -> Option<Seq<u8>> {
    match material {
        Some(m) => Some(m@),
        None => None,
    }
}

impl KeyMaterial {
    /// Takes over the bytes, without copying them.
    pub fn new(bytes: Vec<u8>) -> (material: Self)
        ensures
            material@ == bytes@,
    {
        KeyMaterial { bytes }
    }

    /// The bytes of the material.
    pub fn as_slice(&self) -> (bytes: &[u8])
        ensures
            bytes@ == self@,
    {
        self.bytes.as_slice()
    }

    /// Overwrites the material with zeros, ahead of its drop.
    pub fn zeroize(&mut self)
        ensures
            final(self)@ == Seq::new(old(self)@.len(), |i: int| 0u8),
    {
        fill_with_zeros(&mut self.bytes);
    }
}

impl Clone for KeyMaterial {
    fn clone(&self) -> (copy: Self)
        ensures
            copy@ == self@,
    {
        KeyMaterial { bytes: self.bytes.clone() }
    }
}

/// Dereferencing gives the bytes of the material.
impl Deref for KeyMaterial {
    type Target = [u8];

    fn deref(&self) -> (bytes: &[u8])
        ensures
            bytes@ == self@,
    {
        self.bytes.as_slice()
    }
}

impl Drop for KeyMaterial {
    fn drop(&mut self)
        opens_invariants none
        no_unwind
    {
        fill_with_zeros(&mut self.bytes);
    }
}

} // verus!
