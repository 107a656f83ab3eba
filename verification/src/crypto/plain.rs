//! The pass-through cipher.

use vstd::prelude::*;
use crate::crypto::Block;
use crate::crypto::CipherError;

verus! {

/// A cipher that leaves every buffer as it is. For development only: the
/// payload travels in the clear.
pub struct PlainBlock {}

impl PlainBlock {
    /// Makes the pass-through cipher.
    pub fn new() -> (r: Self)
        ensures
            forall|data: Seq<u8>| #[trigger] r.opened(data) == Some(data),
            forall|plain: Seq<u8>| #[trigger] r.accepts(plain),
    {
        Self {  }
    }
}

impl Block for PlainBlock {
    open spec fn opened(&self, data: Seq<u8>) -> Option<Seq<u8>> {
        Some(data)
    }

    open spec fn accepts(&self, plain: Seq<u8>) -> bool {
        true
    }

    open spec fn sealed_len(&self, plain_len: nat) -> nat {
        plain_len
    }

    open spec fn deterministic(&self) -> bool {
        true
    }

    fn encrypt(&self, data: &mut Vec<u8>) -> (r: Result<(), CipherError>)
        ensures
            r is Ok,
            final(data)@ == old(data)@,
    {
        Ok(())
    }

    fn decrypt(&self, data: &mut Vec<u8>) -> (r: Result<(), CipherError>)
        ensures
            r is Ok,
            final(data)@ == old(data)@,
    {
        Ok(())
    }
}

impl Default for PlainBlock {
    fn default() -> (r: Self)
        ensures
            forall|data: Seq<u8>| #[trigger] r.opened(data) == Some(data),
            forall|plain: Seq<u8>| #[trigger] r.accepts(plain),
    {
        Self::new()
    }
}

} // verus!
