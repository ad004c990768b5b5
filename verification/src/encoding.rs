//! The canonical encoding: how a value is folded into a hash state.

use crate::hasher::{checksum_of, truncate_digest, u64_le_bytes, ChecksumHasher};
use std::rc::Rc;
use std::sync::Arc;
use vstd::prelude::*;
use vstd::utf8::{
    encode_utf8, encode_utf8_decode_utf8, encode_utf8_valid_utf8, length_of_first_scalar,
    pop_first_scalar, valid_utf8,
};

verus! {

/// A value that can be folded into a hash state.
///
/// The bytes that a value contributes depend on its logical content alone
/// (its deep view), and no two contents of one type contribute byte strings
/// of which one is a prefix of the other.
pub trait Checksum: DeepView {
    /// The bytes that a value with logical content `v` contributes.
    spec fn encoding(v: Self::V) -> Seq<u8>;

    /// Writes the encoding of `self` to `state`.
    fn checksum(&self, state: &mut ChecksumHasher)
        ensures
            final(state)@ == old(state)@ + Self::encoding(self.deep_view()),
    ;

    /// An encoding can be told apart from whatever follows it: if two byte
    /// streams agree and each starts with an encoding of this type, the two
    /// values have the same content and the streams agree behind them.
    proof fn lemma_prefix_free(a: &Self, b: &Self, rest_a: Seq<u8>, rest_b: Seq<u8>)
        requires
            Self::encoding(a.deep_view()) + rest_a == Self::encoding(b.deep_view()) + rest_b,
        ensures
            a.deep_view() == b.deep_view(),
            rest_a == rest_b,
    ;
}

/// Concatenation does not depend on how it is grouped.
pub proof fn lemma_concat_assoc(a: Seq<u8>, b: Seq<u8>, c: Seq<u8>)
    ensures
        (a + b) + c == a + (b + c),
{
    assert((a + b) + c =~= a + (b + c));
}

/// Nothing appended changes nothing.
pub proof fn lemma_concat_empty(a: Seq<u8>)
    ensures
        a + Seq::<u8>::empty() == a,
{
    assert(a + Seq::<u8>::empty() =~= a);
}

/// Two streams that agree and start with blocks of one length agree block by
/// block.
pub proof fn lemma_split_at_equal_len(a: Seq<u8>, rest_a: Seq<u8>, b: Seq<u8>, rest_b: Seq<u8>)
    requires
        a + rest_a == b + rest_b,
        a.len() == b.len(),
    ensures
        a == b,
        rest_a == rest_b,
{
    let n = a.len() as int;
    assert(a =~= (a + rest_a).subrange(0, n));
    assert(b =~= (b + rest_b).subrange(0, n));
    assert(rest_a =~= (a + rest_a).subrange(n, n + rest_a.len()));
    assert((a + rest_a).len() == (b + rest_b).len());
    assert(rest_b =~= (b + rest_b).subrange(n, n + rest_b.len()));
}

/// Different integers have different little-endian bytes.
pub proof fn lemma_u64_le_bytes_injective(a: u64, b: u64)
    requires
        u64_le_bytes(a) == u64_le_bytes(b),
    ensures
        a == b,
{
    let sa = u64_le_bytes(a);
    let sb = u64_le_bytes(b);
    assert(sa[0] == sb[0] && sa[1] == sb[1] && sa[2] == sb[2] && sa[3] == sb[3]);
    assert(sa[4] == sb[4] && sa[5] == sb[5] && sa[6] == sb[6] && sa[7] == sb[7]);
    assert(a == b) by (bit_vector)
        requires
            (a & 0xff) as u8 == (b & 0xff) as u8,
            ((a >> 8) & 0xff) as u8 == ((b >> 8) & 0xff) as u8,
            ((a >> 16) & 0xff) as u8 == ((b >> 16) & 0xff) as u8,
            ((a >> 24) & 0xff) as u8 == ((b >> 24) & 0xff) as u8,
            ((a >> 32) & 0xff) as u8 == ((b >> 32) & 0xff) as u8,
            ((a >> 40) & 0xff) as u8 == ((b >> 40) & 0xff) as u8,
            ((a >> 48) & 0xff) as u8 == ((b >> 48) & 0xff) as u8,
            ((a >> 56) & 0xff) as u8 == ((b >> 56) & 0xff) as u8,
    ;
}

/// The prefix-free law for an eight-byte integer block.
pub proof fn lemma_u64_prefix_free(a: u64, b: u64, rest_a: Seq<u8>, rest_b: Seq<u8>)
    requires
        u64_le_bytes(a) + rest_a == u64_le_bytes(b) + rest_b,
    ensures
        a == b,
        rest_a == rest_b,
{
    lemma_split_at_equal_len(u64_le_bytes(a), rest_a, u64_le_bytes(b), rest_b);
    lemma_u64_le_bytes_injective(a, b);
}

/// A boolean is one byte, 0 or 1.
impl Checksum for bool {
    open spec fn encoding(v: bool) -> Seq<u8> {
        seq![if v { 1u8 } else { 0u8 }]
    }

    fn checksum(&self, state: &mut ChecksumHasher) {
        state.write_u8(if *self { 1 } else { 0 });
    }

    proof fn lemma_prefix_free(a: &Self, b: &Self, rest_a: Seq<u8>, rest_b: Seq<u8>) {
        let ea = Self::encoding(*a);
        let eb = Self::encoding(*b);
        lemma_split_at_equal_len(ea, rest_a, eb, rest_b);
        assert(ea[0] == eb[0]);
    }
}

/// An unsigned 64-bit integer is its eight bytes, least significant first.
impl Checksum for u64 {
    open spec fn encoding(v: u64) -> Seq<u8> {
        u64_le_bytes(v)
    }

    fn checksum(&self, state: &mut ChecksumHasher) {
        state.write_u64(*self);
    }

    proof fn lemma_prefix_free(a: &Self, b: &Self, rest_a: Seq<u8>, rest_b: Seq<u8>) {
        lemma_u64_prefix_free(*a, *b, rest_a, rest_b);
    }
}

/// A signed 64-bit integer is the eight bytes of its two's complement, least
/// significant first.
impl Checksum for i64 {
    open spec fn encoding(v: i64) -> Seq<u8> {
        u64_le_bytes(v as u64)
    }

    fn checksum(&self, state: &mut ChecksumHasher) {
        state.write_u64(*self as u64);
    }

    proof fn lemma_prefix_free(a: &Self, b: &Self, rest_a: Seq<u8>, rest_b: Seq<u8>) {
        let x = *a;
        let y = *b;
        lemma_u64_prefix_free(x as u64, y as u64, rest_a, rest_b);
        assert(x == y) by (bit_vector)
            requires
                x as u64 == y as u64,
        ;
    }
}

/// A 32-bit integer is widened to 64 bits.
impl Checksum for u32 {
    open spec fn encoding(v: u32) -> Seq<u8> {
        u64_le_bytes(v as u64)
    }

    fn checksum(&self, state: &mut ChecksumHasher) {
        state.write_u64(*self as u64);
    }

    proof fn lemma_prefix_free(a: &Self, b: &Self, rest_a: Seq<u8>, rest_b: Seq<u8>) {
        lemma_u64_prefix_free(*a as u64, *b as u64, rest_a, rest_b);
    }
}

/// A 16-bit integer is widened to 64 bits.
impl Checksum for u16 {
    open spec fn encoding(v: u16) -> Seq<u8> {
        u64_le_bytes(v as u64)
    }

    fn checksum(&self, state: &mut ChecksumHasher) {
        state.write_u64(*self as u64);
    }

    proof fn lemma_prefix_free(a: &Self, b: &Self, rest_a: Seq<u8>, rest_b: Seq<u8>) {
        lemma_u64_prefix_free(*a as u64, *b as u64, rest_a, rest_b);
    }
}

/// The encoding of a text: its UTF-8 bytes, then the terminator byte `0xFF`.
pub open spec fn text_encoding(chars: Seq<char>) -> Seq<u8> {
    encode_utf8(chars) + seq![0xffu8]
}

/// The terminator byte occurs in no well-formed UTF-8.
pub proof fn lemma_utf8_has_no_terminator(bytes: Seq<u8>)
    requires
        valid_utf8(bytes),
    ensures
        forall|i: int| 0 <= i < bytes.len() ==> #[trigger] bytes[i] != 0xff,
    decreases bytes.len(),
{
    if bytes.len() != 0 {
        let k = length_of_first_scalar(bytes);
        let rest = pop_first_scalar(bytes);
        lemma_utf8_has_no_terminator(rest);
        assert forall|i: int| 0 <= i < bytes.len() implies #[trigger] bytes[i] != 0xff by {
            if i >= k {
                assert(bytes[i] == rest[i - k]);
            }
        }
    }
}

/// The prefix-free law for texts: the terminator marks where a text ends.
pub proof fn lemma_text_prefix_free(
    a: Seq<char>,
    b: Seq<char>,
    rest_a: Seq<u8>,
    rest_b: Seq<u8>,
)
    requires
        text_encoding(a) + rest_a == text_encoding(b) + rest_b,
    ensures
        a == b,
        rest_a == rest_b,
{
    let ua = encode_utf8(a);
    let ub = encode_utf8(b);
    let sa = text_encoding(a) + rest_a;
    let sb = text_encoding(b) + rest_b;
    encode_utf8_valid_utf8(a);
    encode_utf8_valid_utf8(b);
    lemma_utf8_has_no_terminator(ua);
    lemma_utf8_has_no_terminator(ub);
    assert(sa[ua.len() as int] == 0xff);
    assert(sb[ub.len() as int] == 0xff);
    if ua.len() < ub.len() {
        assert(sb[ua.len() as int] == ub[ua.len() as int]);
    }
    if ub.len() < ua.len() {
        assert(sa[ub.len() as int] == ua[ub.len() as int]);
    }
    lemma_split_at_equal_len(text_encoding(a), rest_a, text_encoding(b), rest_b);
    assert(ua =~= text_encoding(a).subrange(0, ua.len() as int));
    assert(ub =~= text_encoding(b).subrange(0, ub.len() as int));
    encode_utf8_decode_utf8(a);
    encode_utf8_decode_utf8(b);
}

/// The prefix-free law for a module path followed by a name.
pub proof fn lemma_qualified_name_prefix_free(
    path_a: Seq<char>,
    name_a: Seq<char>,
    path_b: Seq<char>,
    name_b: Seq<char>,
    rest_a: Seq<u8>,
    rest_b: Seq<u8>,
)
    requires
        text_encoding(path_a) + text_encoding(name_a) + rest_a == text_encoding(path_b)
            + text_encoding(name_b) + rest_b,
    ensures
        path_a == path_b,
        name_a == name_b,
        rest_a == rest_b,
{
    let tail_a = text_encoding(name_a) + rest_a;
    let tail_b = text_encoding(name_b) + rest_b;
    assert(text_encoding(path_a) + text_encoding(name_a) + rest_a =~= text_encoding(path_a)
        + tail_a);
    assert(text_encoding(path_b) + text_encoding(name_b) + rest_b =~= text_encoding(path_b)
        + tail_b);
    lemma_text_prefix_free(path_a, path_b, tail_a, tail_b);
    lemma_text_prefix_free(name_a, name_b, rest_a, rest_b);
}

/// A text is its UTF-8 bytes followed by the terminator byte `0xFF`.
impl Checksum for str {
    open spec fn encoding(v: Seq<char>) -> Seq<u8> {
        text_encoding(v)
    }

    fn checksum(&self, state: &mut ChecksumHasher) {
        state.write(self.as_bytes());
        state.write_u8(0xff);
        assert(state@ =~= old(state)@ + text_encoding(self@));
        assert(self.deep_view() == self@);
        assert(state@ == old(state)@ + Self::encoding(self.deep_view()));
    }

    proof fn lemma_prefix_free(a: &Self, b: &Self, rest_a: Seq<u8>, rest_b: Seq<u8>) {
        lemma_text_prefix_free(a@, b@, rest_a, rest_b);
    }
}

/// An owned text contributes as the text it holds.
impl Checksum for String {
    open spec fn encoding(v: Seq<char>) -> Seq<u8> {
        text_encoding(v)
    }

    fn checksum(&self, state: &mut ChecksumHasher) {
        self.as_str().checksum(state);
    }

    proof fn lemma_prefix_free(a: &Self, b: &Self, rest_a: Seq<u8>, rest_b: Seq<u8>) {
        lemma_text_prefix_free(a@, b@, rest_a, rest_b);
    }
}

/// A borrowed text contributes as the text it points to.
impl Checksum for &str {
    open spec fn encoding(v: Seq<char>) -> Seq<u8> {
        text_encoding(v)
    }

    fn checksum(&self, state: &mut ChecksumHasher) {
        (**self).checksum(state);
    }

    proof fn lemma_prefix_free(a: &Self, b: &Self, rest_a: Seq<u8>, rest_b: Seq<u8>) {
        lemma_text_prefix_free(a@, b@, rest_a, rest_b);
    }
}

/// A boxed value contributes exactly as the value it owns.
impl<T: Checksum> Checksum for Box<T> {
    open spec fn encoding(v: T::V) -> Seq<u8> {
        T::encoding(v)
    }

    fn checksum(&self, state: &mut ChecksumHasher) {
        (**self).checksum(state);
    }

    proof fn lemma_prefix_free(a: &Self, b: &Self, rest_a: Seq<u8>, rest_b: Seq<u8>) {
        T::lemma_prefix_free(&**a, &**b, rest_a, rest_b);
    }
}

/// A value behind a reference count contributes exactly as the value itself.
impl<T: Checksum> Checksum for Rc<T> {
    open spec fn encoding(v: T::V) -> Seq<u8> {
        T::encoding(v)
    }

    fn checksum(&self, state: &mut ChecksumHasher) {
        (**self).checksum(state);
    }

    proof fn lemma_prefix_free(a: &Self, b: &Self, rest_a: Seq<u8>, rest_b: Seq<u8>) {
        T::lemma_prefix_free(&**a, &**b, rest_a, rest_b);
    }
}

/// A value behind an atomic reference count contributes exactly as the value
/// itself.
impl<T: Checksum> Checksum for Arc<T> {
    open spec fn encoding(v: T::V) -> Seq<u8> {
        T::encoding(v)
    }

    fn checksum(&self, state: &mut ChecksumHasher) {
        (**self).checksum(state);
    }

    proof fn lemma_prefix_free(a: &Self, b: &Self, rest_a: Seq<u8>, rest_b: Seq<u8>) {
        T::lemma_prefix_free(&**a, &**b, rest_a, rest_b);
    }
}

/// An optional value is the integer 0 when absent, and the integer 1 followed
/// by the value when present.
impl<T: Checksum> Checksum for Option<T> {
    open spec fn encoding(v: Option<T::V>) -> Seq<u8> {
        match v {
            None => u64_le_bytes(0),
            Some(value) => u64_le_bytes(1) + T::encoding(value),
        }
    }

    fn checksum(&self, state: &mut ChecksumHasher) {
        match self {
            None => state.write_u64(0),
            Some(value) => {
                state.write_u64(1);
                value.checksum(state);
                assert(state@ =~= old(state)@ + (u64_le_bytes(1) + T::encoding(
                    value.deep_view(),
                )));
            },
        }
    }

    proof fn lemma_prefix_free(a: &Self, b: &Self, rest_a: Seq<u8>, rest_b: Seq<u8>) {
        let tag_a: u64 = if a.is_some() { 1 } else { 0 };
        let tag_b: u64 = if b.is_some() { 1 } else { 0 };
        let tail_a = match *a {
            None => rest_a,
            Some(value) => T::encoding(value.deep_view()) + rest_a,
        };
        let tail_b = match *b {
            None => rest_b,
            Some(value) => T::encoding(value.deep_view()) + rest_b,
        };
        assert(Self::encoding(a.deep_view()) + rest_a =~= u64_le_bytes(tag_a) + tail_a);
        assert(Self::encoding(b.deep_view()) + rest_b =~= u64_le_bytes(tag_b) + tail_b);
        lemma_u64_prefix_free(tag_a, tag_b, tail_a, tail_b);
        match (*a, *b) {
            (Some(x), Some(y)) => {
                T::lemma_prefix_free(&x, &y, rest_a, rest_b);
            },
            _ => {},
        }
    }
}

/// The encodings of the items of a sequence, one after the other.
pub open spec fn seq_encoding<T: Checksum>(items: Seq<T::V>) -> Seq<u8>
    decreases items.len(),
{
    if items.len() == 0 {
        Seq::empty()
    } else {
        T::encoding(items[0]) + seq_encoding::<T>(items.drop_first())
    }
}

/// The encoding of a sequence: its length as a 64-bit integer, then its items
/// in order.
pub open spec fn list_encoding<T: Checksum>(items: Seq<T::V>) -> Seq<u8> {
    u64_le_bytes(items.len() as u64) + seq_encoding::<T>(items)
}

/// Appending an item appends its encoding.
pub proof fn lemma_seq_encoding_push<T: Checksum>(items: Seq<T::V>, item: T::V)
    ensures
        seq_encoding::<T>(items.push(item)) == seq_encoding::<T>(items) + T::encoding(item),
    decreases items.len(),
{
    let longer = items.push(item);
    if items.len() == 0 {
        assert(longer.drop_first() =~= Seq::empty());
        assert(seq_encoding::<T>(longer.drop_first()) =~= Seq::empty());
        assert(seq_encoding::<T>(longer) =~= T::encoding(item));
        assert(seq_encoding::<T>(items) + T::encoding(item) =~= T::encoding(item));
    } else {
        lemma_seq_encoding_push::<T>(items.drop_first(), item);
        assert(longer.drop_first() =~= items.drop_first().push(item));
        assert(seq_encoding::<T>(longer) =~= seq_encoding::<T>(items) + T::encoding(item));
    }
}

/// The prefix-free law for the items of two sequences of one length.
pub proof fn lemma_seq_prefix_free<T: Checksum>(
    a: Seq<T>,
    b: Seq<T>,
    rest_a: Seq<u8>,
    rest_b: Seq<u8>,
)
    requires
        a.len() == b.len(),
        seq_encoding::<T>(a.map_values(|item: T| item.deep_view())) + rest_a == seq_encoding::<T>(
            b.map_values(|item: T| item.deep_view()),
        ) + rest_b,
    ensures
        a.map_values(|item: T| item.deep_view()) == b.map_values(|item: T| item.deep_view()),
        rest_a == rest_b,
    decreases a.len(),
{
    let da = a.map_values(|item: T| item.deep_view());
    let db = b.map_values(|item: T| item.deep_view());
    if a.len() == 0 {
        assert(da =~= db);
        assert(seq_encoding::<T>(da) + rest_a =~= rest_a);
        assert(seq_encoding::<T>(db) + rest_b =~= rest_b);
    } else {
        let ta = a.drop_first().map_values(|item: T| item.deep_view());
        let tb = b.drop_first().map_values(|item: T| item.deep_view());
        assert(da.drop_first() =~= ta);
        assert(db.drop_first() =~= tb);
        let tail_a = seq_encoding::<T>(ta) + rest_a;
        let tail_b = seq_encoding::<T>(tb) + rest_b;
        assert(seq_encoding::<T>(da) + rest_a =~= T::encoding(a[0].deep_view()) + tail_a);
        assert(seq_encoding::<T>(db) + rest_b =~= T::encoding(b[0].deep_view()) + tail_b);
        T::lemma_prefix_free(&a[0], &b[0], tail_a, tail_b);
        lemma_seq_prefix_free::<T>(a.drop_first(), b.drop_first(), rest_a, rest_b);
        assert(da =~= seq![da[0]] + ta);
        assert(db =~= seq![db[0]] + tb);
    }
}

/// The prefix-free law for two length-prefixed sequences.
pub proof fn lemma_list_prefix_free<T: Checksum>(
    a: Seq<T>,
    b: Seq<T>,
    rest_a: Seq<u8>,
    rest_b: Seq<u8>,
)
    requires
        a.len() <= u64::MAX,
        b.len() <= u64::MAX,
        list_encoding::<T>(a.map_values(|item: T| item.deep_view())) + rest_a == list_encoding::<T>(
            b.map_values(|item: T| item.deep_view()),
        ) + rest_b,
    ensures
        a.map_values(|item: T| item.deep_view()) == b.map_values(|item: T| item.deep_view()),
        rest_a == rest_b,
{
    let da = a.map_values(|item: T| item.deep_view());
    let db = b.map_values(|item: T| item.deep_view());
    let tail_a = seq_encoding::<T>(da) + rest_a;
    let tail_b = seq_encoding::<T>(db) + rest_b;
    assert(list_encoding::<T>(da) + rest_a =~= u64_le_bytes(a.len() as u64) + tail_a);
    assert(list_encoding::<T>(db) + rest_b =~= u64_le_bytes(b.len() as u64) + tail_b);
    lemma_u64_prefix_free(a.len() as u64, b.len() as u64, tail_a, tail_b);
    lemma_seq_prefix_free::<T>(a, b, rest_a, rest_b);
}

/// A slice is its length as a 64-bit integer, then its items in order.
impl<T: Checksum> Checksum for [T] {
    open spec fn encoding(v: Seq<T::V>) -> Seq<u8> {
        list_encoding::<T>(v)
    }

    fn checksum(&self, state: &mut ChecksumHasher) {
        let count = self.len();
        state.write_len(count);
        let ghost items = self.deep_view();
        let ghost start = state@;
        let mut i: usize = 0;
        assert(items.take(0) =~= Seq::empty());
        while i < count
            invariant
                i <= count,
                count == self@.len(),
                items == self.deep_view(),
                state@ == start + seq_encoding::<T>(items.take(i as int)),
            decreases count - i,
        {
            let ghost before = state@;
            self[i].checksum(state);
            proof {
                lemma_seq_encoding_push::<T>(items.take(i as int), items[i as int]);
                assert(items.take(i + 1) =~= items.take(i as int).push(items[i as int]));
                assert(state@ =~= start + seq_encoding::<T>(items.take(i + 1)));
            }
            i += 1;
        }
        assert(items.take(count as int) =~= items);
        assert(state@ =~= old(state)@ + list_encoding::<T>(items));
        assert(state@ == old(state)@ + Self::encoding(self.deep_view()));
    }

    proof fn lemma_prefix_free(a: &Self, b: &Self, rest_a: Seq<u8>, rest_b: Seq<u8>) {
        assert(a.deep_view() =~= a@.map_values(|item: T| item.deep_view()));
        assert(b.deep_view() =~= b@.map_values(|item: T| item.deep_view()));
        assert(a@.len() == a.len() && b@.len() == b.len());
        lemma_list_prefix_free::<T>(a@, b@, rest_a, rest_b);
    }
}

/// A vector contributes as the slice of its items.
impl<T: Checksum> Checksum for Vec<T> {
    open spec fn encoding(v: Seq<T::V>) -> Seq<u8> {
        list_encoding::<T>(v)
    }

    fn checksum(&self, state: &mut ChecksumHasher) {
        let items = self.as_slice();
        assert(items.deep_view() =~= self.deep_view());
        items.checksum(state);
    }

    proof fn lemma_prefix_free(a: &Self, b: &Self, rest_a: Seq<u8>, rest_b: Seq<u8>) {
        assert(a.deep_view() =~= a@.map_values(|item: T| item.deep_view()));
        assert(b.deep_view() =~= b@.map_values(|item: T| item.deep_view()));
        assert(a@.len() == a.len() && b@.len() == b.len());
        lemma_list_prefix_free::<T>(a@, b@, rest_a, rest_b);
    }
}

/// The last 16 bits of the SipHash-1-3 digest of the value's encoding.
pub fn checksum<T: Checksum>(val: &T) -> (sum: u16)
    ensures
        sum == checksum_of(T::encoding(val.deep_view())),
{
    let mut hasher = ChecksumHasher::new();
    val.checksum(&mut hasher);
    assert(hasher@ =~= T::encoding(val.deep_view()));
    truncate_digest(hasher.finish())
}

} // verus!
