//! `Line` -- A fixed capacity `String`
//!
//! Since a `Line` has a fixed capacity it can be allocated on the stack or in static memory.

use vstd::prelude::*;
use vstd::string::StringSliceAdditionalSpecFns;
use vstd::utf8::decode_utf8;
use vstd::utf8::valid_utf8;
use core::cmp::Ordering;
use core::hash::Hash;
use core::hash::Hasher;

verus! {

/// Error type for mutating `Line`s
#[derive(Debug, Clone, Copy, PartialEq, Eq, Structural)]
pub enum Error {
    /// The `Line` does not have enough capacity
    NoSpace,
}

impl Error {
    /// What went wrong, in words.
    pub fn message(&self) -> (text: &'static str)
        ensures
            text@ == "not enough capacity"@,
    {
        "not enough capacity"
    }
}

/// A `Line` is like a `String` with a fixed capacity
///
/// The capacity is not allowed to be larger than 255.
///
/// The text is the first `len` bytes of `content`, which are valid UTF-8.
/// The bytes behind them are zero, so that two lines of one capacity hold
/// the same text exactly if their fields are equal, and are ordered as
/// their texts are.
#[derive(Debug, Eq, Ord)]
pub struct Line<const CAPACITY: usize> {
    content: [u8; CAPACITY],
    len: u8,
}

/// A `Line` with a capacity of 15 bytes
pub type Line15 = Line<15>;

/// A `Line` with a capacity of 31 bytes
pub type Line31 = Line<31>;

/// A `Line` with a capacity of 63 bytes
pub type Line63 = Line<63>;

/// A `Line` with a capacity of 127 bytes
pub type Line127 = Line<127>;

/// A `Line` with a capacity of 255 bytes
pub type Line255 = Line<255>;

/// How two byte strings are ordered, byte by byte, a prefix before its
/// extensions: -1 where `a` comes first, 1 where `b` does, 0 where they are
/// equal.
pub open spec fn lexical(a: Seq<u8>, b: Seq<u8>) -> int
    decreases a.len(),
{
    if a.len() == 0 {
        if b.len() == 0 {
            0
        } else {
            -1
        }
    } else if b.len() == 0 {
        1
    } else if a[0] < b[0] {
        -1
    } else if a[0] > b[0] {
        1
    } else {
        lexical(a.drop_first(), b.drop_first())
    }
}

/// The ordering that a result of [`lexical`] stands for.
pub open spec fn ordering_of(sign: int) -> Ordering {
    if sign < 0 {
        Ordering::Less
    } else if sign == 0 {
        Ordering::Equal
    } else {
        Ordering::Greater
    }
}

/// Only equal byte strings are ordered as equal.
pub proof fn lemma_lexical_equal(a: Seq<u8>, b: Seq<u8>)
    ensures
        lexical(a, b) == 0 <==> a == b,
    decreases a.len(),
{
    if a.len() > 0 && b.len() > 0 {
        lemma_lexical_equal(a.drop_first(), b.drop_first());
        if a[0] == b[0] && a.drop_first() == b.drop_first() {
            assert(a =~= seq![a[0]] + a.drop_first());
            assert(b =~= seq![b[0]] + b.drop_first());
        }
    } else if a.len() == 0 && b.len() == 0 {
        assert(a =~= b);
    }
}

/// The text of two valid UTF-8 strings, one behind the other, is the text
/// of the first followed by the text of the second.
pub proof fn lemma_decode_concat(a: Seq<u8>, b: Seq<u8>)
    requires
        valid_utf8(a),
        valid_utf8(b),
    ensures
        valid_utf8(a + b),
        decode_utf8(a + b) == decode_utf8(a) + decode_utf8(b),
    decreases a.len(),
{
    vstd::utf8::valid_utf8_concat(a, b);
    if a.len() == 0 {
        assert(a + b =~= b);
        assert(decode_utf8(a) + decode_utf8(b) =~= decode_utf8(b));
    } else {
        let rest = vstd::utf8::pop_first_scalar(a);
        assert(vstd::utf8::pop_first_scalar(a + b) =~= rest + b);
        lemma_decode_concat(rest, b);
        assert(decode_utf8(a + b) =~= decode_utf8(a) + decode_utf8(b));
    }
}

/// Decodes bytes as UTF-8 with `core::str::from_utf8`: there is a text
/// exactly where the bytes are valid UTF-8, and the text is those bytes.
#[verifier::external_body]
fn utf8_text(bytes: &[u8]) -> (text: Option<&str>)
    ensures
        text is Some <==> valid_utf8(bytes@),
        text matches Some(s) ==> s.spec_bytes() == bytes@,
{
    match core::str::from_utf8(bytes) {
        Ok(s) => Some(s),
        Err(_) => None,
    }
}

/// Feeds a text to a hasher with `Hash::hash` of `str`. What the hasher
/// makes of it is not stated.
#[verifier::external_body]
fn hash_text<H: Hasher>(text: &str, state: &mut H) {
    text.hash(state)
}

/// Whether two byte strings are equal.
fn same_bytes(a: &[u8], b: &[u8]) -> (same: bool)
    ensures
        same == (a@ == b@),
{
    if a.len() != b.len() {
        return false;
    }
    let mut i: usize = 0;
    while i < a.len()
        invariant
            a@.len() == b@.len(),
            0 <= i <= a@.len(),
            a@.take(i as int) == b@.take(i as int),
        decreases a@.len() - i,
    {
        if a[i] != b[i] {
            return false;
        }
        i += 1;
        assert(a@.take(i as int) =~= a@.take(i - 1).push(a@[i - 1]));
        assert(b@.take(i as int) =~= b@.take(i - 1).push(b@[i - 1]));
    }
    assert(a@.take(i as int) =~= a@);
    assert(b@.take(i as int) =~= b@);
    true
}

/// How two byte strings are ordered: the sign of [`lexical`].
fn order_bytes(a: &[u8], b: &[u8]) -> (sign: i8)
    ensures
        sign == lexical(a@, b@),
{
    let mut i: usize = 0;
    proof {
        assert(a@.skip(0) =~= a@);
        assert(b@.skip(0) =~= b@);
    }
    while i < a.len() && i < b.len()
        invariant
            0 <= i <= a@.len(),
            i <= b@.len(),
            lexical(a@, b@) == lexical(a@.skip(i as int), b@.skip(i as int)),
        decreases a@.len() - i,
    {
        proof {
            assert(a@.skip(i as int).drop_first() =~= a@.skip(i + 1));
            assert(b@.skip(i as int).drop_first() =~= b@.skip(i + 1));
        }
        if a[i] < b[i] {
            return -1;
        }
        if a[i] > b[i] {
            return 1;
        }
        i += 1;
    }
    if i < b.len() {
        -1
    } else if i < a.len() {
        1
    } else {
        0
    }
}

impl<const N: usize> View for Line<N> {
    type V = Seq<char>;

    /// The text of the line.
    open spec fn view(&self) -> Seq<char> {
        decode_utf8(self.spec_bytes())
    }
}

impl<const N: usize> Line<N> {
    /// The bytes of the text.
    pub closed spec fn spec_bytes(&self) -> Seq<u8> {
        self.content@.take(self.len as int)
    }

    #[verifier::type_invariant]
    spec fn well_formed(&self) -> bool {
        &&& N < 256
        &&& self.len <= N
        &&& valid_utf8(self.spec_bytes())
        &&& forall|i: int| self.len <= i < N ==> self.content@[i] == 0
    }

    /// Create a new Line.
    pub fn new() -> (line: Self)
        requires
            N < 256,
        ensures
            line.spec_bytes() == Seq::<u8>::empty(),
            line@ == Seq::<char>::empty(),
    {
        let content = [0u8; N];
        proof {
            assert(content@.take(0) =~= Seq::<u8>::empty());
        }
        Line { content, len: 0 }
    }

    /// Clear the line and set its length to 0.
    pub fn clear(&mut self)
        ensures
            final(self).spec_bytes() == Seq::<u8>::empty(),
            final(self)@ == Seq::<char>::empty(),
    {
        proof {
            use_type_invariant(&*self);
        }
        *self = Self::new();
    }

    /// Returns the `Line`'s capacity in bytes.
    pub fn capacity(&self) -> (capacity: usize)
        ensures
            capacity == N,
            self.spec_bytes().len() <= N < 256,
    {
        proof {
            use_type_invariant(self);
        }
        N
    }

    /// Extracts a string slice containing the entire `Line`.
    pub fn as_str(&self) -> (text: &str)
        ensures
            text.spec_bytes() == self.spec_bytes(),
            text@ == self@,
    {
        proof {
            use_type_invariant(self);
        }
        let bytes = vstd::slice::slice_subrange(self.content.as_slice(), 0, self.len as usize);
        assert(bytes@ =~= self.spec_bytes());
        match utf8_text(bytes) {
            Some(text) => {
                proof {
                    vstd::utf8::encode_utf8_decode_utf8(text@);
                }
                text
            },
            // The bytes of a line are valid UTF-8, so there is always a text.
            None => "",
        }
    }

    /// Append the text to the `Line`.
    ///
    /// The text is appended whole where it fits, and not at all where it
    /// does not.
    pub fn push_str(&mut self, s: &str) -> (result: Result<(), Error>)
        ensures
            result is Ok <==> old(self).spec_bytes().len() + s.spec_bytes().len() <= N,
            result is Ok ==> final(self).spec_bytes() == old(self).spec_bytes() + s.spec_bytes(),
            result is Ok ==> final(self)@ == old(self)@ + s@,
            result is Err ==> *final(self) == *old(self),
    {
        proof {
            use_type_invariant(&*self);
        }
        let l = self.len as usize;
        let bytes = s.as_bytes();
        let n = bytes.len();
        if n <= N - l {
            let mut content = self.content;
            let mut i: usize = 0;
            while i < n
                invariant
                    N < 256,
                    l + n <= N,
                    0 <= i <= n,
                    n == bytes@.len(),
                    content@.take(l as int) == self.content@.take(l as int),
                    content@.subrange(l as int, l + i) == bytes@.take(i as int),
                    forall|j: int| l + i <= j < N ==> content@[j] == 0,
                decreases n - i,
            {
                content[l + i] = bytes[i];
                i += 1;
                assert(content@.take(l as int) =~= self.content@.take(l as int));
                assert(content@.subrange(l as int, l + i) =~= bytes@.take(i as int));
            }
            proof {
                assert(bytes@.take(n as int) =~= bytes@);
                assert(content@.take(l + n) =~= self.spec_bytes() + s.spec_bytes());
                vstd::utf8::encode_utf8_valid_utf8(s@);
                vstd::utf8::encode_utf8_decode_utf8(s@);
                lemma_decode_concat(self.spec_bytes(), s.spec_bytes());
            }
            *self = Line { content, len: (l + n) as u8 };
            Ok(())
        } else {
            Err(Error::NoSpace)
        }
    }
}

impl<const N: usize> Clone for Line<N> {
    fn clone(&self) -> (copy: Self)
        ensures
            copy == *self,
    {
        proof {
            use_type_invariant(self);
        }
        Line { content: self.content, len: self.len }
    }
}

impl<const N: usize> core::str::FromStr for Line<N> {
    type Err = Error;

    /// A line that holds `s`, where the capacity allows it.
    fn from_str(s: &str) -> (result: Result<Self, Error>)
        ensures
            result is Ok <==> N < 256 && s.spec_bytes().len() <= N,
            result matches Ok(line) ==> line.spec_bytes() == s.spec_bytes() && line@ == s@,
    {
        if N < 256 {
            let mut line = Self::new();
            match line.push_str(s) {
                Ok(()) => {
                    assert(line.spec_bytes() =~= s.spec_bytes());
                    assert(line@ =~= s@);
                    Ok(line)
                },
                Err(e) => Err(e),
            }
        } else {
            Err(Error::NoSpace)
        }
    }
}

impl<const N: usize> core::ops::Deref for Line<N> {
    type Target = str;

    fn deref(&self) -> (text: &str)
        ensures
            text.spec_bytes() == self.spec_bytes(),
            text@ == self@,
    {
        self.as_str()
    }
}

impl<const N: usize> AsRef<str> for Line<N> {
    fn as_ref(&self) -> (text: &str)
        ensures
            text.spec_bytes() == self.spec_bytes(),
            text@ == self@,
    {
        self.as_str()
    }
}

impl<const N: usize> core::borrow::Borrow<str> for Line<N> {
    fn borrow(&self) -> (text: &str)
        ensures
            str::spec_bytes(text) == self.spec_bytes(),
            text@ == self@,
    {
        self.as_str()
    }
}

impl<const N: usize> Hash for Line<N> {
    /// Hashes as the text does.
    fn hash<H: Hasher>(&self, state: &mut H) {
        hash_text(self.as_str(), state)
    }
}

impl<const N: usize, const M: usize> PartialEq<Line<M>> for Line<N> {
    fn eq(&self, other: &Line<M>) -> (same: bool) {
        same_bytes(self.as_str().as_bytes(), other.as_str().as_bytes())
    }
}

impl<const N: usize, const M: usize> vstd::std_specs::cmp::PartialEqSpecImpl<Line<M>> for Line<N> {
    open spec fn obeys_eq_spec() -> bool {
        true
    }

    open spec fn eq_spec(&self, other: &Line<M>) -> bool {
        self.spec_bytes() == other.spec_bytes()
    }
}

impl<const N: usize> PartialEq<str> for Line<N> {
    fn eq(&self, other: &str) -> (same: bool) {
        same_bytes(self.as_str().as_bytes(), other.as_bytes())
    }
}

impl<const N: usize> vstd::std_specs::cmp::PartialEqSpecImpl<str> for Line<N> {
    open spec fn obeys_eq_spec() -> bool {
        true
    }

    open spec fn eq_spec(&self, other: &str) -> bool {
        self.spec_bytes() == other.spec_bytes()
    }
}

impl<const N: usize> PartialEq<Line<N>> for str {
    fn eq(&self, other: &Line<N>) -> (same: bool) {
        same_bytes(self.as_bytes(), other.as_str().as_bytes())
    }
}

impl<const N: usize> vstd::std_specs::cmp::PartialEqSpecImpl<Line<N>> for str {
    open spec fn obeys_eq_spec() -> bool {
        true
    }

    open spec fn eq_spec(&self, other: &Line<N>) -> bool {
        self.spec_bytes() == other.spec_bytes()
    }
}

impl<'a, const N: usize> PartialEq<&'a str> for Line<N> {
    fn eq(&self, other: &&'a str) -> (same: bool) {
        same_bytes(self.as_str().as_bytes(), other.as_bytes())
    }
}

impl<'a, const N: usize> vstd::std_specs::cmp::PartialEqSpecImpl<&'a str> for Line<N> {
    open spec fn obeys_eq_spec() -> bool {
        true
    }

    open spec fn eq_spec(&self, other: &&'a str) -> bool {
        self.spec_bytes() == other.spec_bytes()
    }
}

impl<'a, const N: usize> PartialEq<Line<N>> for &'a str {
    fn eq(&self, other: &Line<N>) -> (same: bool) {
        same_bytes(self.as_bytes(), other.as_str().as_bytes())
    }
}

impl<'a, const N: usize> vstd::std_specs::cmp::PartialEqSpecImpl<Line<N>> for &'a str {
    open spec fn obeys_eq_spec() -> bool {
        true
    }

    open spec fn eq_spec(&self, other: &Line<N>) -> bool {
        self.spec_bytes() == other.spec_bytes()
    }
}

impl<const N: usize, const M: usize> PartialOrd<Line<M>> for Line<N> {
    fn partial_cmp(&self, other: &Line<M>) -> (order: Option<Ordering>) {
        let sign = order_bytes(self.as_str().as_bytes(), other.as_str().as_bytes());
        if sign < 0 {
            Some(Ordering::Less)
        } else if sign == 0 {
            Some(Ordering::Equal)
        } else {
            Some(Ordering::Greater)
        }
    }
}

impl<const N: usize, const M: usize> vstd::std_specs::cmp::PartialOrdSpecImpl<Line<M>> for Line<N> {
    open spec fn obeys_partial_cmp_spec() -> bool {
        true
    }

    open spec fn partial_cmp_spec(&self, other: &Line<M>) -> Option<Ordering> {
        Some(ordering_of(lexical(self.spec_bytes(), other.spec_bytes())))
    }
}

impl<const N: usize> PartialOrd<str> for Line<N> {
    fn partial_cmp(&self, other: &str) -> (order: Option<Ordering>) {
        let sign = order_bytes(self.as_str().as_bytes(), other.as_bytes());
        if sign < 0 {
            Some(Ordering::Less)
        } else if sign == 0 {
            Some(Ordering::Equal)
        } else {
            Some(Ordering::Greater)
        }
    }
}

impl<const N: usize> vstd::std_specs::cmp::PartialOrdSpecImpl<str> for Line<N> {
    open spec fn obeys_partial_cmp_spec() -> bool {
        true
    }

    open spec fn partial_cmp_spec(&self, other: &str) -> Option<Ordering> {
        Some(ordering_of(lexical(self.spec_bytes(), other.spec_bytes())))
    }
}

impl<const N: usize> PartialOrd<Line<N>> for str {
    fn partial_cmp(&self, other: &Line<N>) -> (order: Option<Ordering>) {
        let sign = order_bytes(self.as_bytes(), other.as_str().as_bytes());
        if sign < 0 {
            Some(Ordering::Less)
        } else if sign == 0 {
            Some(Ordering::Equal)
        } else {
            Some(Ordering::Greater)
        }
    }
}

impl<const N: usize> vstd::std_specs::cmp::PartialOrdSpecImpl<Line<N>> for str {
    open spec fn obeys_partial_cmp_spec() -> bool {
        true
    }

    open spec fn partial_cmp_spec(&self, other: &Line<N>) -> Option<Ordering> {
        Some(ordering_of(lexical(self.spec_bytes(), other.spec_bytes())))
    }
}

impl<'a, const N: usize> PartialOrd<&'a str> for Line<N> {
    fn partial_cmp(&self, other: &&'a str) -> (order: Option<Ordering>) {
        let sign = order_bytes(self.as_str().as_bytes(), other.as_bytes());
        if sign < 0 {
            Some(Ordering::Less)
        } else if sign == 0 {
            Some(Ordering::Equal)
        } else {
            Some(Ordering::Greater)
        }
    }
}

impl<'a, const N: usize> vstd::std_specs::cmp::PartialOrdSpecImpl<&'a str> for Line<N> {
    open spec fn obeys_partial_cmp_spec() -> bool {
        true
    }

    open spec fn partial_cmp_spec(&self, other: &&'a str) -> Option<Ordering> {
        Some(ordering_of(lexical(self.spec_bytes(), other.spec_bytes())))
    }
}

impl<'a, const N: usize> PartialOrd<Line<N>> for &'a str {
    fn partial_cmp(&self, other: &Line<N>) -> (order: Option<Ordering>) {
        let sign = order_bytes(self.as_bytes(), other.as_str().as_bytes());
        if sign < 0 {
            Some(Ordering::Less)
        } else if sign == 0 {
            Some(Ordering::Equal)
        } else {
            Some(Ordering::Greater)
        }
    }
}

impl<'a, const N: usize> vstd::std_specs::cmp::PartialOrdSpecImpl<Line<N>> for &'a str {
    open spec fn obeys_partial_cmp_spec() -> bool {
        true
    }

    open spec fn partial_cmp_spec(&self, other: &Line<N>) -> Option<Ordering> {
        Some(ordering_of(lexical(self.spec_bytes(), other.spec_bytes())))
    }
}

impl<'a, const N: usize> TryFrom<&'a str> for Line<N> {
    type Error = Error;

    /// A line that holds `value`, where the capacity allows it.
    fn try_from(value: &'a str) -> (result: Result<Self, Error>)
        ensures
            result is Ok <==> N < 256 && value.spec_bytes().len() <= N,
            result matches Ok(line) ==> line.spec_bytes() == value.spec_bytes() && line@ == value@,
    {
        <Self as core::str::FromStr>::from_str(value)
    }
}

/// The result of `try_from` is stated on `try_from` itself, over the bytes
/// of the line; no value is given here.
impl<'a, const N: usize> vstd::std_specs::convert::TryFromSpecImpl<&'a str> for Line<N> {
    open spec fn obeys_try_from_spec() -> bool {
        false
    }

    open spec fn try_from_spec(value: &'a str) -> Result<Self, Error> {
        Err(Error::NoSpace)
    }
}

/// The error of `core::fmt`, which says nothing but that writing failed.
#[verifier::external_type_specification]
#[verifier::external_body]
pub struct ExFmtError(core::fmt::Error);

/// Makes the one value of `core::fmt::Error`.
#[verifier::external_body]
fn fmt_error() -> core::fmt::Error {
    core::fmt::Error
}

impl<const N: usize> core::fmt::Write for Line<N> {
    /// Appends `s` as [`Line::push_str`] does.
    fn write_str(&mut self, s: &str) -> (result: Result<(), core::fmt::Error>)
        ensures
            result is Ok <==> old(self).spec_bytes().len() + s.spec_bytes().len() <= N,
            result is Ok ==> final(self).spec_bytes() == old(self).spec_bytes() + s.spec_bytes(),
            result is Ok ==> final(self)@ == old(self)@ + s@,
            result is Err ==> *final(self) == *old(self),
    {
        match self.push_str(s) {
            Ok(()) => Ok(()),
            Err(_) => Err(fmt_error()),
        }
    }
}

} // verus!
