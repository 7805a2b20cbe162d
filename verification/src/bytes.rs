//! Ownership abstraction for raw input bytes.
//!
//! A [`Bytes`] value either borrows a caller-owned buffer (zero-copy, tied to
//! the caller's lifetime) or owns a reference-counted buffer that is cheap to
//! share across calls. Either way `as_slice` is valid and the view is the
//! byte sequence itself.

use std::sync::Arc;

use vstd::prelude::*;
use vstd::slice::slice_to_vec;

verus! {

/// Zero-copy-friendly byte storage used by the byte frame. Never performs
/// I/O; no copy is made when borrowing or when sharing an owned buffer.
#[derive(Debug, Clone)]
pub enum Bytes<'a> {
    /// Borrowed bytes, valid for the caller's buffer lifetime.
    Borrowed(&'a [u8]),
    /// Owned, reference-counted bytes, cheap to clone across layers.
    Owned(Arc<Vec<u8>>),
}

impl<'a> View for Bytes<'a> {
    type V = Seq<u8>;

    open spec fn view(&self) -> Seq<u8> {
        match self {
            Bytes::Borrowed(b) => b@,
            Bytes::Owned(a) => a@,
        }
    }
}

impl<'a> Bytes<'a> {
    /// The stored bytes, whichever variant holds them.
    pub fn as_slice(&self) -> (r: &[u8])
        ensures
            r@ == self@,
    {
        match self {
            Bytes::Borrowed(b) => b,
            Bytes::Owned(a) => a.as_slice(),
        }
    }

    /// Byte length.
    pub fn len(&self) -> (n: usize)
        ensures
            n == self@.len(),
    {
        self.as_slice().len()
    }

    /// True when no bytes are stored.
    pub fn is_empty(&self) -> (r: bool)
        ensures
            r == (self@.len() == 0),
    {
        self.len() == 0
    }

    /// Ensures ownership; no copy is made when the bytes are already owned.
    pub fn into_owned(self) -> (r: Arc<Vec<u8>>)
        ensures
            r@ == self@,
    {
        match self {
            Bytes::Owned(a) => a,
            Bytes::Borrowed(b) => Arc::new(slice_to_vec(b)),
        }
    }
}

} // verus!
