//! Transient byte buffer for exposed secret material.
//!
//! A [`Bytes`] owns a copy of the secret bytes for a short-lived scope,
//! typically while a borrow guard of a container is live.  Its equality
//! check runs over every byte whatever the contents, so the time it takes
//! does not depend on where two inputs first differ; only a length
//! mismatch answers early, and lengths are not secret.  Its printable form
//! masks every byte.  Page-locking of the backing storage is an effect on
//! real memory that the embedding program applies to the buffer's slice.

use vstd::prelude::*;
use vstd::slice::slice_to_vec;
use vstd::string::StringExecFns;

verus! {

/// Byte buffer for transient secret material, compared in constant time.
pub struct Bytes {
    data: Vec<u8>,
}

impl View for Bytes {
    type V = Seq<u8>;

    closed spec fn view(&self) -> Seq<u8> {
        self.data@
    }
}

impl Bytes {
    /// Copies `input` into a fresh buffer.
    pub fn new(input: &[u8]) -> (r: Bytes)
        ensures
            r@ == input@,
    {
        Bytes { data: slice_to_vec(input) }
    }

    /// Takes ownership of `v` as the buffer's storage, copying nothing.
    pub fn from_vec(v: Vec<u8>) -> (r: Bytes)
        ensures
            r@ == v@,
    {
        Bytes { data: v }
    }

    /// Gives the buffer's storage back to the caller, copying nothing.
    pub fn into_vec(self) -> (v: Vec<u8>)
        ensures
            v@ == self@,
    {
        self.data
    }

    /// An empty buffer.
    pub fn empty() -> (r: Bytes)
        ensures
            r@ == Seq::<u8>::empty(),
    {
        Bytes { data: Vec::new() }
    }

    /// How many bytes the buffer holds.
    pub fn len(&self) -> (n: usize)
        ensures
            n == self@.len(),
    {
        self.data.len()
    }

    /// True when the buffer holds no bytes.
    pub fn is_empty(&self) -> (b: bool)
        ensures
            b == (self@.len() == 0),
    {
        self.data.len() == 0
    }

    /// The buffer's bytes as a slice.
    pub fn as_slice(&self) -> (s: &[u8])
        ensures
            s@ == self@,
    {
        self.data.as_slice()
    }

    /// Equality against an arbitrary byte slice.  Buffers of differing
    /// length never compare equal, and that case answers at once; when the
    /// lengths match, every byte is visited and folded into one
    /// accumulator, with no branch on the bytes' values, so the running
    /// time does not depend on where the inputs first differ.
    pub fn eq(&self, rhs: &[u8]) -> (r: bool)
        ensures
            r == (self@ == rhs@),
            self@.len() != rhs@.len() ==> !r,
    {
        let n = self.data.len();
        if n != rhs.len() {
            proof {
                assert(self@ != rhs@);
            }
            return false;
        }
        let mut acc: u8 = 0;
        let mut i: usize = 0;
        while i < n
            invariant
                n == self@.len(),
                self@.len() == rhs@.len(),
                i <= n,
                (acc == 0) <==> (forall|j: int| 0 <= j < i ==> self@[j] == rhs@[j]),
            decreases n - i,
        {
            let a: u8 = self.data[i];
            let b: u8 = rhs[i];
            let d: u8 = a ^ b;
            let next: u8 = acc | d;
            proof {
                assert((d == 0) == (a == b)) by (bit_vector)
                    requires
                        d == (a ^ b),
                ;
                assert((next == 0) == (acc == 0 && d == 0)) by (bit_vector)
                    requires
                        next == (acc | d),
                ;
            }
            acc = next;
            i = i + 1;
        }
        if acc == 0 {
            proof {
                assert(self@ =~= rhs@);
            }
            true
        } else {
            proof {
                assert(exists|j: int| 0 <= j < n && self@[j] != rhs@[j]);
                let j = choose|j: int| 0 <= j < n && self@[j] != rhs@[j];
                assert(self@[j] != rhs@[j]);
            }
            false
        }
    }

    /// The buffer's printable form: one `'*'` for each byte it holds, so
    /// its length tells the size and nothing tells the contents.
    pub fn masked(&self) -> (r: String)
        ensures
            r@.len() == self@.len(),
            forall|i: int| 0 <= i < r@.len() ==> r@[i] == '*',
    {
        let n = self.data.len();
        let mut s = String::new();
        let mut i: usize = 0;
        while i < n
            invariant
                n == self@.len(),
                i <= n,
                s@.len() == i,
                forall|j: int| 0 <= j < s@.len() ==> s@[j] == '*',
            decreases n - i,
        {
            proof {
                reveal_strlit("*");
            }
            s.append("*");
            i = i + 1;
        }
        s
    }
}

impl Clone for Bytes {
    /// Duplicates the buffer; the copy holds the same bytes.
    fn clone(&self) -> (r: Self)
        ensures
            r@ == self@,
    {
        Bytes { data: slice_to_vec(self.data.as_slice()) }
    }
}

} // verus!
