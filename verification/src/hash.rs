//! Opaque 128-bit content fingerprints with lossless hexadecimal text
//! form and order-independent XOR combination.

use vstd::prelude::*;
use vstd::string::StringExecFns;
use crate::error::Error;
use crate::text::all_hex_digits;
use crate::text::format_hex_u128;
use crate::text::hex_str;
use crate::text::hex_value;
use crate::text::lemma_u128_hex_round_trip;
use crate::text::parse_hex_u128;

verus! {

/// An opaque 128-bit content fingerprint. It carries no arithmetic
/// semantics except bitwise XOR, and its textual form is exactly 32
/// lowercase hexadecimal digits, zero-padded.
#[derive(Clone, Copy, PartialEq, Eq, Structural, Ord, Hash, Debug)]
pub struct FileHash(pub u128);

impl FileHash {
    /// Renders the fingerprint as exactly 32 lowercase hexadecimal
    /// digits, zero-padded on the left.
    pub fn format(&self) -> (r: String)
        ensures
            r@ == hex_str(self.0 as int, 32),
            r@.len() == 32,
            all_hex_digits(r@),
            hex_value(r@) == self.0 as int,
    {
        format_hex_u128(self.0)
    }

    /// Renders the fingerprint as [`format`](Self::format) does, then
    /// pads the result on the right with spaces to the requested width.
    pub fn format_padded(&self, width: usize) -> (r: String)
        ensures
            width <= 32 ==> r@ == hex_str(self.0 as int, 32),
            width > 32 ==> r@ == hex_str(self.0 as int, 32)
                + Seq::new((width - 32) as nat, |i: int| ' '),
    {
        crate::text::pad_right(self.format(), width)
    }

    /// Parses the textual form back into a fingerprint. Exactly the
    /// strings of 32 lowercase hexadecimal digits are accepted; any
    /// other input yields a format error naming the rejected text.
    pub fn from_str(s: &str) -> (r: Result<FileHash, Error>)
        ensures
            (s@.len() == 32 && all_hex_digits(s@)) <==> r is Ok,
            r is Ok ==> r->Ok_0.0 as int == hex_value(s@),
            r is Err ==> r->Err_0.message@ == "not a 32-digit lowercase hex string: "@ + s@,
    {
        match parse_hex_u128(s) {
            Some(v) => Ok(FileHash(v)),
            None => {
                let m = String::from_str("not a 32-digit lowercase hex string: ").concat(s);
                Err(Error::new(m))
            },
        }
    }

    /// Combines two fingerprints by bitwise XOR. Whether that
    /// combination is meaningful is the caller's decision; this type
    /// only guarantees the bit-level result.
    pub fn bitxor(self, rhs: FileHash) -> (r: FileHash)
        ensures
            r.0 == self.0 ^ rhs.0,
    {
        proof {
            let x = self.0;
            let y = rhs.0;
            assert(y ^ x == x ^ y) by (bit_vector);
        }
        FileHash(rhs.0 ^ self.0)
    }
}

impl PartialOrd for FileHash {
    fn partial_cmp(&self, other: &FileHash) -> (r: Option<core::cmp::Ordering>) {
        if self.0 < other.0 {
            Some(core::cmp::Ordering::Less)
        } else if self.0 == other.0 {
            Some(core::cmp::Ordering::Equal)
        } else {
            Some(core::cmp::Ordering::Greater)
        }
    }
}

impl vstd::std_specs::cmp::PartialOrdSpecImpl for FileHash {
    open spec fn obeys_partial_cmp_spec() -> bool {
        true
    }

    open spec fn partial_cmp_spec(&self, other: &FileHash) -> Option<core::cmp::Ordering> {
        if self.0 < other.0 {
            Some(core::cmp::Ordering::Less)
        } else if self.0 == other.0 {
            Some(core::cmp::Ordering::Equal)
        } else {
            Some(core::cmp::Ordering::Greater)
        }
    }
}

/// Anything that carries a content fingerprint, such as a fingerprint
/// paired with the value it identifies.
pub trait AsFileHash {
    /// The fingerprint carried.
    spec fn file_hash_view(&self) -> FileHash;

    /// The fingerprint itself.
    fn as_file_hash(&self) -> (r: &FileHash)
        ensures
            *r == self.file_hash_view(),
    ;
}

impl AsFileHash for FileHash {
    open spec fn file_hash_view(&self) -> FileHash {
        *self
    }

    fn as_file_hash(&self) -> (r: &FileHash) {
        self
    }
}

impl<T> AsFileHash for (T, FileHash) {
    open spec fn file_hash_view(&self) -> FileHash {
        self.1
    }

    fn as_file_hash(&self) -> (r: &FileHash) {
        &self.1
    }
}

/// Writing any fingerprint as text and reading the text back yields the
/// fingerprint exactly: its 32 hexadecimal digits denote its value.
pub proof fn lemma_hash_text_round_trip(h: FileHash)
    ensures
        hex_str(h.0 as int, 32).len() == 32,
        all_hex_digits(hex_str(h.0 as int, 32)),
        hex_value(hex_str(h.0 as int, 32)) == h.0 as int,
{
    lemma_u128_hex_round_trip(h.0);
}

/// XOR combination is self-inverse: combining with the same fingerprint
/// twice yields the original.
pub proof fn lemma_hash_xor_self_inverse(a: FileHash, b: FileHash)
    ensures
        FileHash((a.0 ^ b.0) ^ b.0) == a,
        (a.0 ^ b.0) ^ b.0 == a.0,
{
    let x = a.0;
    let y = b.0;
    assert((x ^ y) ^ y == x) by (bit_vector);
}

/// XOR combination is commutative: the aggregate fingerprint does not
/// depend on the order of its parts.
pub proof fn lemma_hash_xor_commutes(a: FileHash, b: FileHash)
    ensures
        a.0 ^ b.0 == b.0 ^ a.0,
{
    let x = a.0;
    let y = b.0;
    assert(x ^ y == y ^ x) by (bit_vector);
}

} // verus!
