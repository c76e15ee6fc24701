//! Hash digests and their equality.

use vstd::prelude::*;
use crate::error::Kind;

verus! {

/// Output size in bytes of the SHA-256 hash function.
pub const SHA256_HASH_SIZE: usize = 32;

/// Hash algorithms.
#[derive(Clone, Copy, Debug)]
pub enum Algorithm {
    /// SHA-256
    Sha256,
}

/// A hash digest: 32 bytes produced by the SHA-256 hash function.
#[derive(Clone, Copy, Debug)]
pub struct Hash([u8; SHA256_HASH_SIZE]);

impl View for Hash {
    type V = Seq<u8>;

    closed spec fn view(&self) -> Seq<u8> {
        self.0@
    }
}

impl Hash {
    /// Create a new `Hash` for the given algorithm from a digest slice.
    ///
    /// Succeeds exactly when the slice length matches the digest size of the
    /// algorithm; any other length is a `Parse` error.
    pub fn new(alg: Algorithm, bytes: &[u8]) -> (r: Result<Hash, Kind>)
        ensures
            bytes@.len() == SHA256_HASH_SIZE ==> (r matches Ok(h) && h@ == bytes@),
            bytes@.len() != SHA256_HASH_SIZE ==> r == Err::<Hash, Kind>(Kind::Parse),
    {
        match alg {
            Algorithm::Sha256 => {
                if bytes.len() == SHA256_HASH_SIZE {
                    let mut h = [0u8; SHA256_HASH_SIZE];
                    let mut i: usize = 0;
                    while i < SHA256_HASH_SIZE
                        invariant
                            i <= SHA256_HASH_SIZE,
                            bytes@.len() == SHA256_HASH_SIZE,
                            h@.len() == SHA256_HASH_SIZE,
                            forall|j: int| 0 <= j < i ==> h@[j] == bytes@[j],
                        decreases SHA256_HASH_SIZE - i,
                    {
                        h[i] = bytes[i];
                        i = i + 1;
                    }
                    proof {
                        assert(h@ =~= bytes@);
                    }
                    Ok(Hash(h))
                } else {
                    Err(Kind::Parse)
                }
            }
        }
    }
}

impl PartialEq for Hash {
    /// Byte-wise equality over the full digest.
    ///
    /// The loop inspects all 32 byte positions whatever the data holds: the
    /// iteration count is fixed and the bytes are folded into an accumulator
    /// with bitwise operations, so the comparison does not short-circuit on
    /// the first differing byte.
    fn eq(&self, other: &Self) -> (r: bool) {
        let mut diff: u8 = 0;
        let mut i: usize = 0;
        while i < SHA256_HASH_SIZE
            invariant
                i <= SHA256_HASH_SIZE,
                self.0@.len() == SHA256_HASH_SIZE,
                other.0@.len() == SHA256_HASH_SIZE,
                (diff == 0) == (forall|j: int| 0 <= j < i ==> self.0@[j] == other.0@[j]),
            decreases SHA256_HASH_SIZE - i,
        {
            let x = self.0[i];
            let y = other.0[i];
            let ghost prev = diff;
            diff = diff | (x ^ y);
            proof {
                assert((prev | (x ^ y)) == 0 <==> (prev == 0 && x == y)) by (bit_vector);
            }
            i = i + 1;
        }
        proof {
            if diff == 0 {
                assert(self.0@ =~= other.0@);
            }
        }
        diff == 0
    }
}

impl vstd::std_specs::cmp::PartialEqSpecImpl for Hash {
    open spec fn obeys_eq_spec() -> bool {
        true
    }

    open spec fn eq_spec(&self, other: &Hash) -> bool {
        self@ == other@
    }
}

} // verus!
