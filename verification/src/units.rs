//! Typed wrappers for byte offsets (`FilePos`) and byte lengths
//! (`FileLen`), with checked arithmetic, human-readable formatting and
//! parsing of size strings.

use vstd::prelude::*;
use vstd::string::StringExecFns;
use vstd::string::StrSliceExecFns;
use crate::error::Error;
use crate::text::dec_str;
use crate::text::format_dec_u64;

verus! {

/// Data position in a file, counted in bytes from the beginning.
/// Provides more type safety and nicer formatting than a raw `u64`:
/// a position and a length cannot be confused, and ordering is numeric.
#[derive(Clone, Copy, PartialEq, Eq, Structural, Ord, Hash, Debug)]
pub struct FilePos(pub u64);

impl FilePos {
    /// The position of the first byte of a file.
    pub fn zero() -> (r: FilePos)
        ensures
            r.0 == 0,
    {
        FilePos(0)
    }

    /// Advances the position by a length.
    pub fn add(self, rhs: FileLen) -> (r: FilePos)
        requires
            self.0 + rhs.0 <= u64::MAX,
        ensures
            r.0 == self.0 + rhs.0,
    {
        FilePos(self.0 + rhs.0)
    }

    /// Moves the position back by a length.
    pub fn sub(self, rhs: FileLen) -> (r: FilePos)
        requires
            rhs.0 <= self.0,
        ensures
            r.0 == self.0 - rhs.0,
    {
        FilePos(self.0 - rhs.0)
    }

    /// Renders the position as a plain decimal integer.
    pub fn format(&self) -> (r: String)
        ensures
            r@ == dec_str(self.0 as nat),
    {
        format_dec_u64(self.0)
    }
}

impl PartialOrd for FilePos {
    fn partial_cmp(&self, other: &FilePos) -> (r: Option<core::cmp::Ordering>) {
        if self.0 < other.0 {
            Some(core::cmp::Ordering::Less)
        } else if self.0 == other.0 {
            Some(core::cmp::Ordering::Equal)
        } else {
            Some(core::cmp::Ordering::Greater)
        }
    }
}

impl vstd::std_specs::cmp::PartialOrdSpecImpl for FilePos {
    open spec fn obeys_partial_cmp_spec() -> bool {
        true
    }

    open spec fn partial_cmp_spec(&self, other: &FilePos) -> Option<core::cmp::Ordering> {
        if self.0 < other.0 {
            Some(core::cmp::Ordering::Less)
        } else if self.0 == other.0 {
            Some(core::cmp::Ordering::Equal)
        } else {
            Some(core::cmp::Ordering::Greater)
        }
    }
}

impl From<u64> for FilePos {
    fn from(pos: u64) -> (r: FilePos) {
        FilePos(pos)
    }
}

impl vstd::std_specs::convert::FromSpecImpl<u64> for FilePos {
    open spec fn obeys_from_spec() -> bool {
        true
    }

    open spec fn from_spec(pos: u64) -> FilePos {
        FilePos(pos)
    }
}

impl From<usize> for FilePos {
    fn from(pos: usize) -> (r: FilePos) {
        FilePos(pos as u64)
    }
}

impl vstd::std_specs::convert::FromSpecImpl<usize> for FilePos {
    open spec fn obeys_from_spec() -> bool {
        true
    }

    open spec fn from_spec(pos: usize) -> FilePos {
        FilePos(pos as u64)
    }
}

impl From<FilePos> for u64 {
    fn from(pos: FilePos) -> (r: u64) {
        pos.0
    }
}

impl vstd::std_specs::convert::FromSpecImpl<FilePos> for u64 {
    open spec fn obeys_from_spec() -> bool {
        true
    }

    open spec fn from_spec(pos: FilePos) -> u64 {
        pos.0
    }
}

impl From<FilePos> for usize {
    fn from(pos: FilePos) -> (r: usize) {
        pos.0 as usize
    }
}

impl vstd::std_specs::convert::FromSpecImpl<FilePos> for usize {
    open spec fn obeys_from_spec() -> bool {
        true
    }

    open spec fn from_spec(pos: FilePos) -> usize {
        pos.0 as usize
    }
}

/// Converting a 64-bit value to a position and back yields the value
/// exactly; so for lengths.
pub proof fn lemma_u64_conversion_round_trip(v: u64)
    ensures
        <FilePos as vstd::std_specs::convert::FromSpec<u64>>::from_spec(v).0 == v,
        <u64 as vstd::std_specs::convert::FromSpec<FilePos>>::from_spec(FilePos(v)) == v,
        <FileLen as vstd::std_specs::convert::FromSpec<u64>>::from_spec(v).0 == v,
        <u64 as vstd::std_specs::convert::FromSpec<FileLen>>::from_spec(FileLen(v)) == v,
{
}

/// Length of data, in bytes.
/// Provides more type safety and nicer formatting than a raw `u64`.
#[derive(Clone, Copy, PartialEq, Eq, Structural, Ord, Hash, Debug)]
pub struct FileLen(pub u64);

impl Default for FileLen {
    fn default() -> (r: FileLen)
        ensures
            r.0 == 0,
    {
        FileLen(0)
    }
}

/// The total number of bytes in a sequence of lengths.
pub open spec fn len_sum(s: Seq<FileLen>) -> int
    decreases s.len(),
{
    if s.len() == 0 {
        0
    } else {
        len_sum(s.drop_last()) + s.last().0
    }
}

/// Summing an empty sequence of lengths yields zero.
pub proof fn lemma_len_sum_empty()
    ensures
        len_sum(Seq::<FileLen>::empty()) == 0,
{
}

/// Summation is associative: the total of two runs of lengths taken
/// together is the sum of their separate totals.
pub proof fn lemma_len_sum_concat(s1: Seq<FileLen>, s2: Seq<FileLen>)
    ensures
        len_sum(s1 + s2) == len_sum(s1) + len_sum(s2),
    decreases s2.len(),
{
    if s2.len() == 0 {
        assert(s1 + s2 =~= s1);
    } else {
        lemma_len_sum_concat(s1, s2.drop_last());
        assert((s1 + s2).drop_last() =~= s1 + s2.drop_last());
        assert((s1 + s2).last() == s2.last());
    }
}

/// Summation is commutative: two runs of lengths total the same in
/// either order.
pub proof fn lemma_len_sum_commutes(s1: Seq<FileLen>, s2: Seq<FileLen>)
    ensures
        len_sum(s1 + s2) == len_sum(s2 + s1),
{
    lemma_len_sum_concat(s1, s2);
    lemma_len_sum_concat(s2, s1);
}

/// Removing one length from a run lowers the total by exactly it.
proof fn lemma_len_sum_remove(s: Seq<FileLen>, i: int)
    requires
        0 <= i < s.len(),
    ensures
        len_sum(s.remove(i)) == len_sum(s) - s[i].0,
    decreases s.len(),
{
    if i == s.len() - 1 {
        assert(s.remove(i) =~= s.drop_last());
    } else {
        assert(s.remove(i).drop_last() =~= s.drop_last().remove(i));
        assert(s.remove(i).last() == s.last());
        lemma_len_sum_remove(s.drop_last(), i);
    }
}

/// Summation is order-independent: two runs holding the same lengths,
/// each the same number of times, total the same.
pub proof fn lemma_len_sum_permutation(s1: Seq<FileLen>, s2: Seq<FileLen>)
    requires
        s1.to_multiset() == s2.to_multiset(),
    ensures
        len_sum(s1) == len_sum(s2),
    decreases s1.len(),
{
    broadcast use vstd::seq_lib::group_to_multiset_ensures;

    if s1.len() == 0 {
        assert(s2.to_multiset().len() == 0);
        assert(s2.len() == 0);
    } else {
        let x = s1.last();
        let n = s1.len() - 1;
        assert(s1.contains(x));
        assert(s1.to_multiset().count(x) > 0);
        assert(s2.to_multiset().count(x) > 0);
        assert(s2.contains(x));
        let j = choose|j: int| 0 <= j < s2.len() && s2[j] == x;
        assert(s1.drop_last() =~= s1.remove(n));
        assert(s1.remove(n).to_multiset() == s1.to_multiset().remove(x));
        assert(s2.remove(j).to_multiset() == s2.to_multiset().remove(x));
        lemma_len_sum_permutation(s1.drop_last(), s2.remove(j));
        lemma_len_sum_remove(s2, j);
    }
}

impl FileLen {
    /// The largest representable length, with all bits set; used as a
    /// sentinel.
    pub fn max() -> (r: FileLen)
        ensures
            r.0 == u64::MAX,
    {
        FileLen(0xFFFF_FFFF_FFFF_FFFF)
    }

    /// Reinterprets the length as a position from the start of a file.
    pub fn as_pos(self) -> (r: FilePos)
        ensures
            r.0 == self.0,
    {
        FilePos(self.0)
    }

    /// Adds two lengths.
    pub fn add(self, rhs: FileLen) -> (r: FileLen)
        requires
            self.0 + rhs.0 <= u64::MAX,
        ensures
            r.0 == self.0 + rhs.0,
    {
        FileLen(self.0 + rhs.0)
    }

    /// Adds a length in place.
    pub fn add_assign(&mut self, rhs: FileLen)
        requires
            old(self).0 + rhs.0 <= u64::MAX,
        ensures
            final(self).0 == old(self).0 + rhs.0,
    {
        self.0 = self.0 + rhs.0;
    }

    /// Subtracts a length from a larger one.
    pub fn sub(self, rhs: FileLen) -> (r: FileLen)
        requires
            rhs.0 <= self.0,
        ensures
            r.0 == self.0 - rhs.0,
    {
        FileLen(self.0 - rhs.0)
    }

    /// Scales a length by a scalar factor.
    pub fn mul(self, rhs: u64) -> (r: FileLen)
        requires
            self.0 * rhs <= u64::MAX,
        ensures
            r.0 == self.0 * rhs,
    {
        FileLen(self.0 * rhs)
    }

    /// Sums a sequence of lengths; yields nothing when the total does
    /// not fit in 64 bits.
    pub fn sum(items: &Vec<FileLen>) -> (r: Option<FileLen>)
        ensures
            len_sum(items@) <= u64::MAX <==> r is Some,
            r is Some ==> r->Some_0.0 == len_sum(items@),
    {
        let mut total: u64 = 0;
        let mut i: usize = 0;
        while i < items.len()
            invariant
                i <= items@.len(),
                total == len_sum(items@.subrange(0, i as int)),
            decreases items@.len() - i,
        {
            let ghost prefix = items@.subrange(0, i as int);
            proof {
                let prefix2 = items@.subrange(0, i + 1);
                assert(prefix2.drop_last() =~= prefix);
                assert(prefix2.last() == items@[i as int]);
                lemma_len_sum_concat(prefix2, items@.subrange(i + 1, items@.len() as int));
                assert(prefix2 + items@.subrange(i + 1, items@.len() as int) =~= items@);
                lemma_len_sum_nonnegative(items@.subrange(i + 1, items@.len() as int));
            }
            if items[i].0 > u64::MAX - total {
                proof {
                    assert(len_sum(items@) > u64::MAX);
                }
                return None;
            }
            total = total + items[i].0;
            i = i + 1;
        }
        proof {
            assert(items@.subrange(0, items@.len() as int) =~= items@);
        }
        Some(FileLen(total))
    }

    /// Renders the length with a human-readable byte-unit abbreviation.
    pub fn format(&self) -> (r: String)
        ensures
            r@ == byte_size_display(self.0),
    {
        format_byte_size(self.0)
    }

    /// Renders the length as [`format`](Self::format) does, then pads
    /// the result on the right with spaces to the requested width.
    pub fn format_padded(&self, width: usize) -> (r: String)
        ensures
            byte_size_display(self.0).len() >= width ==> r@ == byte_size_display(self.0),
            byte_size_display(self.0).len() < width ==> r@ == byte_size_display(self.0)
                + Seq::new((width - byte_size_display(self.0).len()) as nat, |i: int| ' '),
    {
        crate::text::pad_right(format_byte_size(self.0), width)
    }

    /// Parses a human-readable size string such as "16K" or "1.5 GB";
    /// a malformed string yields an error carrying a message that names
    /// the rejected input. A string with more than 17 digit characters
    /// is rejected up front: beyond that magnitude the unit arithmetic
    /// of the parsing crate is no longer exact, and no byte count it
    /// could denote fits in 64 bits anyway. A well-formed size above
    /// the 64-bit range is likewise an error, never a wrapped value.
    pub fn from_str(s: &str) -> (r: Result<FileLen, Error>)
        ensures
            r is Ok <==> digit_count(s@) <= 17
                && (parsed_size(s@) matches Some(v) && v <= u64::MAX),
            r is Ok ==> Some(r->Ok_0.0 as u128) == parsed_size(s@),
            r is Err ==> r->Err_0.message@ == "cannot parse file size: "@ + s@,
    {
        if count_digit_chars(s) > 17 {
            return Err(parse_error(s));
        }
        match parse_byte_size(s) {
            Some(v) => {
                if v <= 0xFFFF_FFFF_FFFF_FFFF {
                    Ok(FileLen(v as u64))
                } else {
                    Err(parse_error(s))
                }
            },
            None => Err(parse_error(s)),
        }
    }
}

/// The error reported for a size string that cannot be parsed.
fn parse_error(s: &str) -> (r: Error)
    ensures
        r.message@ == "cannot parse file size: "@ + s@,
{
    Error::new(String::from_str("cannot parse file size: ").concat(s))
}

/// Whether `c` is a decimal digit character.
pub open spec fn is_dec_digit(c: char) -> bool {
    '0' as int <= c as int && c as int <= '9' as int
}

/// The number of decimal digit characters in `s`.
pub open spec fn digit_count(s: Seq<char>) -> int
    decreases s.len(),
{
    if s.len() == 0 {
        0
    } else {
        digit_count(s.drop_last()) + if is_dec_digit(s.last()) { 1int } else { 0int }
    }
}

/// Counts the decimal digit characters of `s`.
fn count_digit_chars(s: &str) -> (r: usize)
    ensures
        r == digit_count(s@),
{
    let n = s.unicode_len();
    let mut count: usize = 0;
    let mut i: usize = 0;
    while i < n
        invariant
            i <= n,
            n == s@.len(),
            count <= i,
            count == digit_count(s@.subrange(0, i as int)),
        decreases n - i,
    {
        let c = s.get_char(i);
        let x = c as u32;
        if 48 <= x && x <= 57 {
            count = count + 1;
        }
        i = i + 1;
        proof {
            let prefix2 = s@.subrange(0, i as int);
            assert(prefix2.drop_last() =~= s@.subrange(0, i - 1));
            assert(prefix2.last() == c);
        }
    }
    proof {
        assert(s@.subrange(0, n as int) =~= s@);
    }
    count
}

/// Every total of lengths is non-negative.
pub proof fn lemma_len_sum_nonnegative(s: Seq<FileLen>)
    ensures
        len_sum(s) >= 0,
    decreases s.len(),
{
    if s.len() > 0 {
        lemma_len_sum_nonnegative(s.drop_last());
    }
}

impl PartialOrd for FileLen {
    fn partial_cmp(&self, other: &FileLen) -> (r: Option<core::cmp::Ordering>) {
        if self.0 < other.0 {
            Some(core::cmp::Ordering::Less)
        } else if self.0 == other.0 {
            Some(core::cmp::Ordering::Equal)
        } else {
            Some(core::cmp::Ordering::Greater)
        }
    }
}

impl vstd::std_specs::cmp::PartialOrdSpecImpl for FileLen {
    open spec fn obeys_partial_cmp_spec() -> bool {
        true
    }

    open spec fn partial_cmp_spec(&self, other: &FileLen) -> Option<core::cmp::Ordering> {
        if self.0 < other.0 {
            Some(core::cmp::Ordering::Less)
        } else if self.0 == other.0 {
            Some(core::cmp::Ordering::Equal)
        } else {
            Some(core::cmp::Ordering::Greater)
        }
    }
}

impl From<u64> for FileLen {
    fn from(l: u64) -> (r: FileLen) {
        FileLen(l)
    }
}

impl vstd::std_specs::convert::FromSpecImpl<u64> for FileLen {
    open spec fn obeys_from_spec() -> bool {
        true
    }

    open spec fn from_spec(l: u64) -> FileLen {
        FileLen(l)
    }
}

impl From<usize> for FileLen {
    fn from(l: usize) -> (r: FileLen) {
        FileLen(l as u64)
    }
}

impl vstd::std_specs::convert::FromSpecImpl<usize> for FileLen {
    open spec fn obeys_from_spec() -> bool {
        true
    }

    open spec fn from_spec(l: usize) -> FileLen {
        FileLen(l as u64)
    }
}

impl From<FileLen> for u64 {
    fn from(l: FileLen) -> (r: u64) {
        l.0
    }
}

impl vstd::std_specs::convert::FromSpecImpl<FileLen> for u64 {
    open spec fn obeys_from_spec() -> bool {
        true
    }

    open spec fn from_spec(l: FileLen) -> u64 {
        l.0
    }
}

impl From<FileLen> for usize {
    fn from(l: FileLen) -> (r: usize) {
        l.0 as usize
    }
}

impl vstd::std_specs::convert::FromSpecImpl<FileLen> for usize {
    open spec fn obeys_from_spec() -> bool {
        true
    }

    open spec fn from_spec(l: FileLen) -> usize {
        l.0 as usize
    }
}

/// The human-readable rendering of a byte count, as `bytesize` writes
/// it: a decimal unit abbreviation with one fractional digit.
pub uninterp spec fn byte_size_display(n: u64) -> Seq<char>;

/// Relies on `bytesize::to_string` with SI prefixes disabled: the
/// rendering is a pure function of the value, and a value below 1000
/// is written as the plain decimal count followed by " B". The unit is
/// chosen through the platform's floating-point logarithm, so the
/// rendering is fixed within any one build; at an exact unit boundary
/// another platform's math library could in principle pick differently.
#[verifier::external_body]
fn format_byte_size(n: u64) -> (r: String)
    ensures
        r@ == byte_size_display(n),
        n < 1000 ==> r@ == dec_str(n as nat) + " B"@,
{
    bytesize::to_string(n, false)
}

/// The byte count denoted by a human-readable size string, or nothing
/// when the string is malformed.
pub uninterp spec fn parsed_size(s: Seq<char>) -> Option<u128>;

/// Relies on `byte_unit::Byte::from_str` and `Byte::get_bytes`: the
/// parsed byte count is a pure function of the input characters, and
/// malformed input is rejected. The crate converts the parsed number
/// with unchecked 128-bit unit multiplications that can overflow once
/// the number reaches 2^58; the `requires` keeps every digit run, and
/// so the number itself, below 10^17, where each unit's multiplication
/// stays within 128 bits.
#[verifier::external_body]
fn parse_byte_size(s: &str) -> (r: Option<u128>)
    requires
        digit_count(s@) <= 17,
    ensures
        r == parsed_size(s@),
{
    match byte_unit::Byte::from_str(s) {
        Ok(b) => Some(b.get_bytes()),
        Err(_) => None,
    }
}

} // verus!
