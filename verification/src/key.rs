//! Keys of the store.

use vstd::prelude::*;

verus! {

/// A key: the byte string that names a row. Two keys are the same key exactly
/// when their bytes are equal.
#[derive(Debug, PartialEq, Eq, PartialOrd, Ord, Hash)]
pub struct Key(pub Vec<u8>);

impl View for Key {
    type V = Seq<u8>;

    open spec fn view(&self) -> Seq<u8> {
        self.0@
    }
}

impl Clone for Key {
    fn clone(&self) -> (res: Key)
        ensures
            res@ == self@,
    {
        Key(self.0.clone())
    }
}

impl Key {
    /// The key for the given user-visible bytes.
    pub fn from_raw(raw: &[u8]) -> (res: Key)
        ensures
            res@ == raw@,
    {
        Key(slice_to_vec(raw))
    }

    /// The user-visible bytes of the key.
    pub fn to_raw(&self) -> (res: Vec<u8>)
        ensures
            res@ == self@,
    {
        self.0.clone()
    }

    /// The user-visible bytes of the key, consuming it.
    pub fn into_raw(self) -> (res: Vec<u8>)
        ensures
            res@ == self@,
    {
        self.0
    }

    /// Whether `self` and `other` are the same key.
    pub fn same_as(&self, other: &Key) -> (res: bool)
        ensures
            res == (self@ == other@),
    {
        bytes_eq(self.0.as_slice(), other.0.as_slice())
    }

    /// Whether the key names the given user-visible bytes.
    pub fn is_encoded_from(&self, raw: &[u8]) -> (res: bool)
        ensures
            res == (self@ == raw@),
    {
        bytes_eq(self.0.as_slice(), raw)
    }
}

/// Byte-wise equality of two byte strings.
pub fn bytes_eq(a: &[u8], b: &[u8]) -> (res: bool)
    ensures
        res == (a@ == b@),
{
    if a.len() != b.len() {
        return false;
    }
    let mut i: usize = 0;
    while i < a.len()
        invariant
            a.len() == b.len(),
            i <= a.len(),
            forall|j: int| 0 <= j < i ==> a@[j] == b@[j],
        decreases a.len() - i,
    {
        if a[i] != b[i] {
            return false;
        }
        i += 1;
    }
    assert(a@ =~= b@);
    true
}

/// A fresh vector holding the bytes of a slice.
pub fn slice_to_vec(s: &[u8]) -> (res: Vec<u8>)
    ensures
        res@ == s@,
{
    let mut v: Vec<u8> = Vec::new();
    let mut i: usize = 0;
    while i < s.len()
        invariant
            i <= s.len(),
            v@ == s@.subrange(0, i as int),
        decreases s.len() - i,
    {
        v.push(s[i]);
        i += 1;
        assert(v@ =~= s@.subrange(0, i as int));
    }
    assert(v@ =~= s@);
    v
}

} // verus!
