//! Object ids: the twenty bytes by which Git names a commit, tree, blob or tag.

use crate::digits::{hex_digits, push_hex};
use vstd::prelude::*;

verus! {

/// How many bytes an object id has.
pub const OBJECT_ID_BYTES: usize = 20;

/// The id of one Git object.
#[derive(Clone, Copy, Debug, PartialEq, Eq)]
pub struct ObjectId {
    /// The id's bytes, as Git stores them.
    pub bytes: [u8; 20],
}

impl View for ObjectId {
    type V = Seq<u8>;

    open spec fn view(&self) -> Seq<u8> {
        self.bytes@
    }
}

/// Whether every byte is zero: the id that stands for "no object".
pub open spec fn all_zero(bytes: Seq<u8>) -> bool {
    forall|i: int| 0 <= i < bytes.len() ==> #[trigger] bytes[i] == 0
}

impl ObjectId {
    /// The id made of zero bytes.
    pub fn zero() -> (id: ObjectId)
        ensures
            id@.len() == OBJECT_ID_BYTES,
            all_zero(id@),
    {
        ObjectId { bytes: [0u8; 20] }
    }

    /// The id with the given bytes, if there are twenty of them.
    pub fn from_bytes(raw: &[u8]) -> (id: Option<ObjectId>)
        ensures
            id is Some <==> raw@.len() == OBJECT_ID_BYTES,
            id matches Some(found) ==> found@ == raw@,
    {
        if raw.len() != OBJECT_ID_BYTES {
            return None;
        }
        let mut bytes = [0u8; 20];
        let mut i: usize = 0;
        while i < OBJECT_ID_BYTES
            invariant
                i <= OBJECT_ID_BYTES,
                raw@.len() == OBJECT_ID_BYTES,
                bytes@.len() == OBJECT_ID_BYTES,
                forall|j: int| 0 <= j < i ==> bytes@[j] == raw@[j],
            decreases OBJECT_ID_BYTES - i,
        {
            bytes[i] = raw[i];
            i += 1;
        }
        Some(ObjectId { bytes })
    }

    /// Whether this is the zero id.
    pub fn is_zero(&self) -> (zero: bool)
        ensures
            zero == all_zero(self@),
    {
        let mut i: usize = 0;
        while i < OBJECT_ID_BYTES
            invariant
                i <= OBJECT_ID_BYTES,
                self.bytes@.len() == OBJECT_ID_BYTES,
                forall|j: int| 0 <= j < i ==> self.bytes@[j] == 0,
            decreases OBJECT_ID_BYTES - i,
        {
            if self.bytes[i] != 0 {
                return false;
            }
            i += 1;
        }
        true
    }

    /// The id as forty lower-case hexadecimal digits.
    pub fn to_hex(&self) -> (text: String)
        ensures
            text@ == hex_digits(self@),
            text@.len() == 2 * OBJECT_ID_BYTES,
    {
        let mut text = String::new();
        push_hex(&mut text, self.bytes.as_slice());
        text
    }
}

} // verus!
