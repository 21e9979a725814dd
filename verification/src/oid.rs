//! Object ids of commits, held as their raw bytes; their text form and the
//! zero test come from `git2::Oid`.
use vstd::prelude::*;

verus! {

/// The lowercase hexadecimal digit for a value below sixteen.
pub open spec fn hex_digit(d: nat) -> char {
    if d < 10 {
        (d + 48) as char
    } else {
        (d + 87) as char
    }
}

/// Lowercase hexadecimal text of a byte sequence, high nibble first.
pub open spec fn lower_hex(b: Seq<u8>) -> Seq<char>
    decreases b.len(),
{
    if b.len() == 0 {
        Seq::empty()
    } else {
        seq![hex_digit((b[0] / 16) as nat), hex_digit((b[0] % 16) as nat)] + lower_hex(
            b.drop_first(),
        )
    }
}

/// Two hex digits per byte.
pub proof fn lemma_lower_hex_len(b: Seq<u8>)
    ensures
        lower_hex(b).len() == 2 * b.len(),
    decreases b.len(),
{
    if b.len() > 0 {
        lemma_lower_hex_len(b.drop_first());
    }
}

/// A commit id: the twenty raw bytes of a SHA-1 object id.
#[derive(Clone, Copy, Debug, PartialEq, Eq)]
pub struct ObjectId {
    pub bytes: [u8; 20],
}

/// `git2::Oid::zero()`: the id whose bytes are all zero.
#[verifier::external_body]
fn oid_zero_bytes() -> (r: [u8; 20])
    ensures
        forall|i: int| 0 <= i < 20 ==> r@[i] == 0,
{
    let mut out = [0u8; 20];
    out.copy_from_slice(git2::Oid::zero().as_bytes());
    out
}

/// `git2::Oid::is_zero`: whether every byte of the id is zero.
#[verifier::external_body]
fn oid_is_zero(bytes: &[u8; 20]) -> (r: bool)
    ensures
        r == (forall|i: int| 0 <= i < 20 ==> bytes@[i] == 0),
{
    git2::Oid::from_bytes(bytes).unwrap().is_zero()
}

/// The `Display` text of a `git2::Oid`: lowercase hex of its bytes.
#[verifier::external_body]
fn oid_hex(bytes: &[u8; 20]) -> (r: String)
    ensures
        r@ == lower_hex(bytes@),
{
    git2::Oid::from_bytes(bytes).unwrap().to_string()
}

impl ObjectId {
    /// Whether all bytes of the id are zero.
    pub open spec fn spec_is_zero(self) -> bool {
        forall|i: int| 0 <= i < 20 ==> self.bytes@[i] == 0
    }

    /// The all-zero id, as `git2::Oid::zero` makes it.
    pub fn zero() -> (r: ObjectId)
        ensures
            r.spec_is_zero(),
    {
        ObjectId { bytes: oid_zero_bytes() }
    }

    /// Whether this is the all-zero id.
    pub fn is_zero(&self) -> (r: bool)
        ensures
            r == self.spec_is_zero(),
    {
        oid_is_zero(&self.bytes)
    }

    /// The forty-digit lowercase hex text of the id.
    pub fn to_hex(&self) -> (r: String)
        ensures
            r@ == lower_hex(self.bytes@),
            r@.len() == 40,
    {
        proof {
            lemma_lower_hex_len(self.bytes@);
        }
        oid_hex(&self.bytes)
    }
}

} // verus!
