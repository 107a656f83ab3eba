//! XOR obfuscation with a repeating key.

use vstd::prelude::*;
use vstd::slice::slice_to_vec;
use vstd::string::*;
use crate::crypto::Block;
use crate::crypto::CipherError;

verus! {

/// `data` with each byte XORed with the key byte at its position, the key
/// repeating.
pub open spec fn xor_with(key: Seq<u8>, data: Seq<u8>) -> Seq<u8> {
    Seq::new(data.len(), |i: int| data[i] ^ key[i % (key.len() as int)])
}

/// XORing twice with the same key gives the data back.
pub proof fn lemma_xor_twice(key: Seq<u8>, data: Seq<u8>)
    requires
        key.len() > 0,
    ensures
        xor_with(key, xor_with(key, data)) == data,
{
    assert forall|i: int| 0 <= i < data.len() implies xor_with(key, xor_with(key, data))[i]
        == data[i] by {
        let a = data[i];
        let k = key[i % (key.len() as int)];
        assert((a ^ k) ^ k == a) by (bit_vector);
    }
    assert(xor_with(key, xor_with(key, data)) =~= data);
}

/// A cipher that XORs the buffer with a repeating key. It hides the payload
/// from a casual look and protects nothing.
pub struct XorBlock {
    key: Vec<u8>,
}

impl XorBlock {
    #[verifier::type_invariant]
    spec fn nonempty(&self) -> bool {
        self.key@.len() > 0
    }

    /// The key bytes.
    pub closed spec fn key(&self) -> Seq<u8> {
        self.key@
    }

    /// Makes the cipher for a key, which must not be empty.
    pub fn new(key: &[u8]) -> (r: Self)
        requires
            key@.len() > 0,
        ensures
            r.key() == key@,
    {
        Self { key: slice_to_vec(key) }
    }

    /// Makes the cipher for the bytes of a string, which must not be empty.
    pub fn from_string(s: &str) -> (r: Self)
        requires
            s.spec_bytes().len() > 0,
        ensures
            r.key() == s.spec_bytes(),
    {
        Self { key: slice_to_vec(s.as_bytes()) }
    }

    /// XORs `data` with the key in place.
    pub fn xor_data(&self, data: &mut Vec<u8>)
        ensures
            final(data)@ == xor_with(self.key(), old(data)@),
    {
        proof {
            use_type_invariant(self);
        }
        let key_len = self.key.len();
        let n = data.len();
        let mut i: usize = 0;
        while i < n
            invariant
                i <= n,
                n == data@.len(),
                data@.len() == old(data)@.len(),
                key_len == self.key@.len(),
                key_len > 0,
                forall|j: int|
                    0 <= j < i ==> data@[j] == old(data)@[j] ^ self.key@[j % (key_len as int)],
                forall|j: int| i <= j < n ==> data@[j] == old(data)@[j],
            decreases n - i,
        {
            let b = data[i] ^ self.key[i % key_len];
            data[i] = b;
            i += 1;
        }
        assert(data@ =~= xor_with(self.key(), old(data)@));
    }
}

impl Block for XorBlock {
    open spec fn opened(&self, data: Seq<u8>) -> Option<Seq<u8>> {
        Some(xor_with(self.key(), data))
    }

    open spec fn accepts(&self, plain: Seq<u8>) -> bool {
        true
    }

    open spec fn sealed_len(&self, plain_len: nat) -> nat {
        plain_len
    }

    open spec fn deterministic(&self) -> bool {
        true
    }

    fn encrypt(&self, data: &mut Vec<u8>) -> (r: Result<(), CipherError>)
        ensures
            r is Ok,
            final(data)@ == xor_with(self.key(), old(data)@),
    {
        proof {
            use_type_invariant(self);
            lemma_xor_twice(self.key(), data@);
        }
        self.xor_data(data);
        Ok(())
    }

    fn decrypt(&self, data: &mut Vec<u8>) -> (r: Result<(), CipherError>)
        ensures
            r is Ok,
            final(data)@ == xor_with(self.key(), old(data)@),
    {
        self.xor_data(data);
        Ok(())
    }
}

} // verus!
