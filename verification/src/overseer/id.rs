//! Task identifiers: twelve bytes, written as twenty-four hexadecimal digits.

use crate::hex;
use vstd::prelude::*;
use vstd::std_specs::cmp::PartialEqSpecImpl;

verus! {

/// The identifier of a task. The repository assigns it when the task is
/// created; it never changes afterwards.
#[derive(Clone, Copy, Debug)]
pub struct TaskId {
    pub bytes: [u8; 12],
}

impl View for TaskId {
    type V = Seq<u8>;

    open spec fn view(&self) -> Seq<u8> {
        self.bytes@
    }
}

impl PartialEq for TaskId {
    fn eq(&self, other: &Self) -> (r: bool) {
        let mut i: usize = 0;
        while i < 12
            invariant
                i <= 12,
                forall|k: int| 0 <= k < i ==> self.bytes[k] == other.bytes[k],
            decreases 12 - i,
        {
            if self.bytes[i] != other.bytes[i] {
                return false;
            }
            i += 1;
        }
        assert(self.bytes@ =~= other.bytes@);
        true
    }
}

impl Eq for TaskId {

}

impl PartialEqSpecImpl for TaskId {
    open spec fn obeys_eq_spec() -> bool {
        true
    }

    open spec fn eq_spec(&self, other: &Self) -> bool {
        self@ == other@
    }
}

/// `text` writes an identifier: twenty-four hexadecimal digits, in either
/// case.
pub open spec fn is_id_text(text: Seq<char>) -> bool {
    text.len() == 24 && hex::all_digits(text)
}

/// Calls `bson::oid::ObjectId::with_string` and hands out the bytes of the
/// object id it built. That function decodes the text with `hex::decode` and
/// accepts exactly the texts that give twelve bytes, so the contract claims:
/// an identifier comes back if and only if the text is twenty-four
/// hexadecimal digits, and its bytes are the digits' values, two digits to a
/// byte, high digit first.
#[verifier::external_body]
fn object_id_with_string(text: &str) -> (r: Option<TaskId>)
    ensures
        r is Some <==> is_id_text(text@),
        r matches Some(id) ==> id@ == hex::decode(text@),
{
    match bson::oid::ObjectId::with_string(text) {
        Ok(oid) => Some(TaskId { bytes: oid.bytes() }),
        Err(_) => None,
    }
}

/// Calls `bson::oid::ObjectId::to_hex` on the object id with these bytes.
/// That function is `hex::encode` of the twelve bytes, so the contract
/// claims the lower-case encoding, two digits to a byte, high digit first.
#[verifier::external_body]
fn object_id_to_hex(id: &TaskId) -> (r: String)
    ensures
        r@ == hex::encode(id@),
{
    bson::oid::ObjectId::with_bytes(id.bytes).to_hex()
}

/// Calls `bson::oid::ObjectId::new`, which builds an object id from the
/// clock, a random number of the process and a counter. Nothing is claimed of
/// the bytes. (It panics when the system clock stands before 1970 or after
/// 2106.)
#[verifier::external_body]
fn object_id_new() -> TaskId {
    TaskId { bytes: bson::oid::ObjectId::new().bytes() }
}

impl TaskId {
    /// Reads an identifier from its text, or `None` where the text is not
    /// twenty-four hexadecimal digits.
    pub fn parse(text: &str) -> (r: Option<TaskId>)
        ensures
            r is Some <==> is_id_text(text@),
            r matches Some(id) ==> id@ == hex::decode(text@),
    {
        object_id_with_string(text)
    }

    /// The identifier's text: twenty-four lower-case hexadecimal digits.
    pub fn to_hex(&self) -> (r: String)
        ensures
            r@ == hex::encode(self@),
            is_id_text(r@),
    {
        proof {
            hex::lemma_encode_all_digits(self@);
        }
        object_id_to_hex(self)
    }

    /// A new identifier from the clock, the process and a counter.
    pub fn generate() -> TaskId {
        object_id_new()
    }
}

/// An identifier's text is well-formed, and read back it gives the same
/// identifier.
pub proof fn lemma_parse_to_hex(id: TaskId)
    ensures
        is_id_text(hex::encode(id@)),
        hex::decode(hex::encode(id@)) == id@,
{
    hex::lemma_encode_all_digits(id@);
    hex::lemma_decode_encode(id@);
}

/// Two identifiers with the same text are the same identifier.
pub proof fn lemma_text_names_one_id(a: TaskId, b: TaskId)
    requires
        hex::encode(a@) == hex::encode(b@),
    ensures
        a@ == b@,
{
    hex::lemma_encode_injective(a@, b@);
}

} // verus!
