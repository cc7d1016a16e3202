//! The identifier of a commit.

use crate::backend::{oid_bytes, oid_contents};
use crate::text::{hex, push_hex};
use vstd::prelude::*;

verus! {

/// The identifier of a commit: the twenty bytes of its hash.
#[derive(Clone, Copy, Debug, PartialEq, Eq)]
pub struct ObjectId {
    pub bytes: [u8; 20],
}

impl ObjectId {
    /// The identifier as text: forty lower-case hexadecimal digits.
    pub open spec fn text(self) -> Seq<char> {
        hex(self.bytes@)
    }

    /// The identifier with the bytes `bytes`.
    pub fn from_bytes(bytes: [u8; 20]) -> (id: ObjectId)
        ensures
            id.bytes == bytes,
    {
        ObjectId { bytes }
    }

    /// The identifier that the backend holds as `oid`: it has the bytes of
    /// `oid`.
    pub(crate) fn from_oid(oid: git2::Oid) -> (id: ObjectId)
        ensures
            id.bytes@ == oid_contents(oid),
    {
        ObjectId { bytes: oid_bytes(oid) }
    }

    /// The identifier as text: forty lower-case hexadecimal digits.
    pub fn to_hex(&self) -> (text: String)
        ensures
            text@ == self.text(),
            text@.len() == 40,
    {
        let mut text = String::new();
        push_hex(&mut text, self.bytes.as_slice());
        assert(text@ =~= self.text());
        text
    }
}

} // verus!
