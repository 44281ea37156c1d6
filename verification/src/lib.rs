//! Textual representations of raw byte buffers.
//!
//! A [`Binary`] wraps a byte buffer, either borrowed from the caller or
//! owned, and the `repr` module renders it in several canonical textual
//! forms (bracketed array, underscore-delimited quoted string, multi-line
//! dump, base64) and parses the reversible forms back into bytes.

use vstd::prelude::*;
use vstd::slice::{slice_index_get, slice_to_vec};
use vstd::string::{StrSliceExecFns, StringSliceAdditionalSpecFns};

pub mod error;
pub mod repr;

verus! {

/// A byte buffer that is either borrowed from the caller or owned.
///
/// The buffer's identity is purely its content: every operation is
/// specified against the sequence of bytes `self@`, never against the
/// storage mode, which only `is_borrowed`/`is_owned` observe.
#[derive(Debug)]
pub enum Binary<'a> {
    /// A buffer borrowed from the caller.
    Borrowed(&'a [u8]),
    /// A buffer owned by this value.
    Owned(Vec<u8>),
}

impl<'a> View for Binary<'a> {
    type V = Seq<u8>;

    open spec fn view(&self) -> Seq<u8> {
        match self {
            Binary::Borrowed(s) => s@,
            Binary::Owned(v) => v@,
        }
    }
}

impl<'a> Binary<'a> {
    /// Take the bytes out as an owned vector, copying only if borrowed.
    pub fn into_owned(self) -> (r: Vec<u8>)
        ensures
            r@ == self@,
    {
        match self {
            Binary::Borrowed(s) => slice_to_vec(s),
            Binary::Owned(v) => v,
        }
    }

    /// Whether the buffer is borrowed from the caller.
    pub fn is_borrowed(&self) -> (r: bool)
        ensures
            r == (self is Borrowed),
    {
        match self {
            Binary::Borrowed(_) => true,
            Binary::Owned(_) => false,
        }
    }

    /// Whether the buffer is owned by this value.
    pub fn is_owned(&self) -> (r: bool)
        ensures
            r == (self is Owned),
    {
        match self {
            Binary::Borrowed(_) => false,
            Binary::Owned(_) => true,
        }
    }

    /// Whether the buffer holds no bytes.
    pub fn is_empty(&self) -> (r: bool)
        ensures
            r == (self@.len() == 0),
    {
        self.len() == 0
    }

    /// The number of bytes in the buffer.
    pub fn len(&self) -> (r: usize)
        ensures
            r == self@.len(),
    {
        match self {
            Binary::Borrowed(s) => s.len(),
            Binary::Owned(v) => v.len(),
        }
    }

    /// The bytes as a slice, whatever the storage mode.
    pub fn as_slice(&self) -> (r: &[u8])
        ensures
            r@ == self@,
    {
        match self {
            Binary::Borrowed(s) => s,
            Binary::Owned(v) => v.as_slice(),
        }
    }

    /// Take ownership of the bytes, copying a borrowed buffer.
    fn make_owned(&mut self)
        ensures
            (*final(self)) is Owned,
            final(self)@ == old(self)@,
    {
        match self {
            Binary::Borrowed(s) => {
                let v = slice_to_vec(s);
                *self = Binary::Owned(v);
            },
            Binary::Owned(_) => {},
        }
    }

    /// The bytes as a fresh vector, to iterate over; the verified core
    /// cannot hand out a std iterator itself.
    pub fn iter(&self) -> (r: Vec<u8>)
        ensures
            r@ == self@,
    {
        slice_to_vec(self.as_slice())
    }

    /// A mutable view of the bytes as a vector, copying a borrowed buffer
    /// first; whatever the caller leaves in the vector is what the buffer
    /// holds afterwards.
    pub fn to_mut(&mut self) -> (r: &mut Vec<u8>)
        ensures
            r@ == old(self)@,
            *final(self) == Binary::Owned(*final(r)),
    {
        self.make_owned();
        match self {
            Binary::Owned(v) => v,
            Binary::Borrowed(_) => {
                proof {
                    assert(false);
                }
                vstd::pervasive::unreached()
            },
        }
    }

    /// Append a byte at the end; the buffer becomes owned.
    pub fn push(&mut self, byte: u8)
        ensures
            final(self)@ == old(self)@.push(byte),
            (*final(self)) is Owned,
    {
        self.make_owned();
        match self {
            Binary::Owned(v) => v.push(byte),
            Binary::Borrowed(_) => {
                proof {
                    assert(false);
                }
            },
        }
    }

    /// Remove and return the last byte, if any; the buffer becomes owned.
    pub fn pop(&mut self) -> (r: Option<u8>)
        ensures
            (*final(self)) is Owned,
            old(self)@.len() == 0 ==> r is None && final(self)@ == old(self)@,
            old(self)@.len() > 0 ==> r == Some(old(self)@.last()) && final(self)@ == old(
                self,
            )@.drop_last(),
    {
        self.make_owned();
        match self {
            Binary::Owned(v) => v.pop(),
            Binary::Borrowed(_) => {
                proof {
                    assert(false);
                }
                None
            },
        }
    }

    /// Insert a byte at the given position; the buffer becomes owned.
    pub fn insert(&mut self, index: usize, byte: u8)
        requires
            index <= old(self)@.len(),
        ensures
            final(self)@ == old(self)@.insert(index as int, byte),
            (*final(self)) is Owned,
    {
        self.make_owned();
        match self {
            Binary::Owned(v) => v.insert(index, byte),
            Binary::Borrowed(_) => {
                proof {
                    assert(false);
                }
            },
        }
    }

    /// Remove and return the byte at the given position; the buffer
    /// becomes owned.
    pub fn remove(&mut self, index: usize) -> (r: u8)
        requires
            index < old(self)@.len(),
        ensures
            r == old(self)@[index as int],
            final(self)@ == old(self)@.remove(index as int),
            (*final(self)) is Owned,
    {
        self.make_owned();
        match self {
            Binary::Owned(v) => v.remove(index),
            Binary::Borrowed(_) => {
                proof {
                    assert(false);
                }
                0
            },
        }
    }

    /// Remove every byte; the buffer becomes owned.
    pub fn clear(&mut self)
        ensures
            final(self)@ == Seq::<u8>::empty(),
            (*final(self)) is Owned,
    {
        self.make_owned();
        match self {
            Binary::Owned(v) => v.clear(),
            Binary::Borrowed(_) => {
                proof {
                    assert(false);
                }
            },
        }
        proof {
            assert(self@ =~= Seq::<u8>::empty());
        }
    }
}

impl<'a> PartialEq for Binary<'a> {
    /// Two buffers are equal exactly when they hold the same bytes,
    /// whatever their storage modes.
    fn eq(&self, other: &Binary<'a>) -> (r: bool) {
        let a = self.as_slice();
        let b = other.as_slice();
        let n = a.len();
        if n != b.len() {
            proof {
                assert(self@ != other@);
            }
            return false;
        }
        let mut i: usize = 0;
        while i < n
            invariant
                0 <= i <= n,
                n == a@.len() == b@.len(),
                a@ == self@ && b@ == other@,
                forall|j: int| 0 <= j < i ==> a@[j] == b@[j],
            decreases n - i,
        {
            if *slice_index_get(a, i) != *slice_index_get(b, i) {
                proof {
                    assert(self@[i as int] != other@[i as int]);
                }
                return false;
            }
            i = i + 1;
        }
        proof {
            assert(self@ =~= other@);
        }
        true
    }
}

impl<'a> Eq for Binary<'a> {

}

impl<'a> vstd::std_specs::cmp::PartialEqSpecImpl for Binary<'a> {
    open spec fn obeys_eq_spec() -> bool {
        true
    }

    open spec fn eq_spec(&self, other: &Binary<'a>) -> bool {
        self@ == other@
    }
}

impl<'a> From<&'a [u8]> for Binary<'a> {
    /// Borrow the bytes of a slice.
    fn from(value: &'a [u8]) -> (r: Self) {
        Binary::Borrowed(value)
    }
}

impl<'a> vstd::std_specs::convert::FromSpecImpl<&'a [u8]> for Binary<'a> {
    open spec fn obeys_from_spec() -> bool {
        true
    }

    open spec fn from_spec(value: &'a [u8]) -> Self {
        Binary::Borrowed(value)
    }
}

impl<'a> From<Vec<u8>> for Binary<'a> {
    /// Take ownership of a vector of bytes.
    fn from(value: Vec<u8>) -> (r: Self) {
        Binary::Owned(value)
    }
}

impl<'a> vstd::std_specs::convert::FromSpecImpl<Vec<u8>> for Binary<'a> {
    open spec fn obeys_from_spec() -> bool {
        true
    }

    open spec fn from_spec(value: Vec<u8>) -> Self {
        Binary::Owned(value)
    }
}

impl<'a, const N: usize> From<&'a [u8; N]> for Binary<'a> {
    /// Borrow the bytes of an array.
    fn from(value: &'a [u8; N]) -> (r: Self)
        ensures
            r@ == value@,
    {
        Binary::Borrowed(value.as_slice())
    }
}

impl<'a, const N: usize> vstd::std_specs::convert::FromSpecImpl<&'a [u8; N]> for Binary<'a> {
    open spec fn obeys_from_spec() -> bool {
        false
    }

    open spec fn from_spec(value: &'a [u8; N]) -> Self {
        vstd::pervasive::arbitrary()
    }
}

impl<'a, const N: usize> From<[u8; N]> for Binary<'a> {
    /// Copy the bytes of an array into an owned buffer.
    fn from(value: [u8; N]) -> (r: Self)
        ensures
            r@ == value@,
    {
        Binary::Owned(slice_to_vec(value.as_slice()))
    }
}

impl<'a, const N: usize> vstd::std_specs::convert::FromSpecImpl<[u8; N]> for Binary<'a> {
    open spec fn obeys_from_spec() -> bool {
        false
    }

    open spec fn from_spec(value: [u8; N]) -> Self {
        vstd::pervasive::arbitrary()
    }
}

impl<'a> From<&'a str> for Binary<'a> {
    /// Borrow the UTF-8 bytes of a string slice.
    fn from(value: &'a str) -> (r: Self)
        ensures
            r@ == value.spec_bytes(),
    {
        Binary::Borrowed(value.as_bytes())
    }
}

impl<'a> vstd::std_specs::convert::FromSpecImpl<&'a str> for Binary<'a> {
    open spec fn obeys_from_spec() -> bool {
        false
    }

    open spec fn from_spec(value: &'a str) -> Self {
        vstd::pervasive::arbitrary()
    }
}

impl<'a> From<String> for Binary<'a> {
    /// Copy the UTF-8 bytes of a string into an owned buffer.
    fn from(value: String) -> (r: Self) {
        Binary::Owned(value.as_str().as_bytes_vec())
    }
}

impl<'a> vstd::std_specs::convert::FromSpecImpl<String> for Binary<'a> {
    open spec fn obeys_from_spec() -> bool {
        false
    }

    open spec fn from_spec(value: String) -> Self {
        vstd::pervasive::arbitrary()
    }
}

impl<'a> From<u8> for Binary<'a> {
    /// An owned buffer of the one byte.
    fn from(value: u8) -> (r: Self)
        ensures
            r@ == seq![value],
    {
        let mut v: Vec<u8> = Vec::new();
        v.push(value);
        proof {
            assert(v@ =~= seq![value]);
        }
        Binary::Owned(v)
    }
}

impl<'a> vstd::std_specs::convert::FromSpecImpl<u8> for Binary<'a> {
    open spec fn obeys_from_spec() -> bool {
        false
    }

    open spec fn from_spec(value: u8) -> Self {
        vstd::pervasive::arbitrary()
    }
}

impl<'a> From<bool> for Binary<'a> {
    /// An owned buffer of one byte: 1 for true, 0 for false.
    fn from(value: bool) -> (r: Self)
        ensures
            r@ == seq![(if value { 1u8 } else { 0u8 })],
    {
        Binary::from(if value { 1u8 } else { 0u8 })
    }
}

impl<'a> vstd::std_specs::convert::FromSpecImpl<bool> for Binary<'a> {
    open spec fn obeys_from_spec() -> bool {
        false
    }

    open spec fn from_spec(value: bool) -> Self {
        vstd::pervasive::arbitrary()
    }
}

} // verus!
