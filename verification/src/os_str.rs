//! The native/portable string bridge: an owned native string
//! ([`OsString`]) and its borrowed form ([`OsStr`]).
//!
//! A native string carries text in the operating system's preferred
//! representation, which need not be valid Unicode. The designated backend
//! here represents a native string as a sequence of arbitrary bytes and
//! decodes under UTF-8 rules, so a valid Unicode string converts to native
//! form at zero semantic loss, while the reverse conversion can fail and a
//! lossy variant always succeeds. Equality and ordering are defined purely
//! byte-wise over the native representation, never by decoding, which
//! gives a total order independent of decode success.
//!
//! The view of both types is the sequence of native bytes; all contracts
//! are stated over that view, with `vstd`'s UTF-8 model
//! (`encode_utf8`, `decode_utf8`, `valid_utf8`) relating it to the view of
//! a Unicode string.

use vstd::prelude::*;
use vstd::utf8::*;
use vstd::string::StringSliceAdditionalSpecFns;
use vstd::string::StrSliceExecFns;
use std::borrow::Cow;
use std::rc::Rc;
use std::sync::Arc;
use core::cmp::Ordering;
use vstd::std_specs::cmp::PartialEqSpec;

verus! {

/// Borrowed reference to a native string (see [`OsString`]).
///
/// The borrowed form is always handled as `&OsStr`; the type itself holds
/// the native units so that the owning wrappers `Box<OsStr>`, `Rc<OsStr>`
/// and `Arc<OsStr>` can carry the same storage under a different
/// ownership discipline.
#[derive(Debug, Hash, Clone)]
pub struct OsStr {
    bytes: Vec<u8>,
}

/// An owned, mutable native string, cheaply inter-convertible with
/// Unicode strings.
///
/// It tracks the logical length of its contents together with an
/// allocated-capacity hint, measured in native length units; the hint is
/// maintained by the growth rules below and is what [`capacity`
/// ](OsString::capacity) reports.
#[derive(Debug, Hash, Clone)]
pub struct OsString {
    inner: OsStr,
    cap: usize,
}

impl View for OsStr {
    type V = Seq<u8>;

    closed spec fn view(&self) -> Seq<u8> {
        self.bytes@
    }
}

impl View for OsString {
    type V = Seq<u8>;

    closed spec fn view(&self) -> Seq<u8> {
        self.inner@
    }
}

/// Capacity of an owned native string after an operation that needs room
/// for `add` more units over length `len`, when the spare room may be
/// over-allocated for amortization: if the current capacity `cap`
/// suffices it is kept; otherwise it is at least doubled (saturating at
/// the address-space bound), and never less than what is needed.
pub open spec fn amortized_capacity(cap: nat, len: nat, add: nat) -> nat {
    let needed = len + add;
    if needed <= cap {
        cap
    } else {
        let doubled: nat = if cap <= (usize::MAX as nat) / 2 {
            2 * cap
        } else {
            usize::MAX as nat
        };
        if needed <= doubled {
            doubled
        } else {
            needed
        }
    }
}

/// Capacity after reserving room for exactly `add` more units over length
/// `len`: unchanged when the current capacity suffices, and otherwise no
/// more than what was asked for.
pub open spec fn exact_capacity(cap: nat, len: nat, add: nat) -> nat {
    let needed = len + add;
    if needed <= cap {
        cap
    } else {
        needed
    }
}

impl OsString {
    /// The allocated-capacity hint, in native length units.
    pub closed spec fn spec_capacity(&self) -> nat {
        self.cap as nat
    }

    /// Constructs a new empty `OsString`.
    pub fn new() -> (r: OsString)
        ensures
            r@ == Seq::<u8>::empty(),
            r.spec_capacity() == 0,
    {
        OsString { inner: OsStr { bytes: Vec::new() }, cap: 0 }
    }

    /// Converts a Unicode string into an `OsString`; this direction is
    /// total and lossless.
    pub fn from(s: &str) -> (r: OsString)
        ensures
            r@ == encode_utf8(s@),
            r.spec_capacity() == r@.len(),
    {
        let v: Vec<u8> = s.as_bytes_vec();
        let n: usize = v.len();
        OsString { inner: OsStr { bytes: v }, cap: n }
    }

    /// Converts an owned Unicode string into an `OsString`, taking over
    /// its storage without copying; this direction is total and
    /// lossless.
    pub fn from_string(s: String) -> (r: OsString)
        ensures
            r@ == encode_utf8(s@),
            r.spec_capacity() == r@.len(),
    {
        let v: Vec<u8> = string_into_bytes(s);
        let n: usize = v.len();
        OsString { inner: OsStr { bytes: v }, cap: n }
    }

    /// Creates a new `OsString` with the given capacity: it can hold
    /// `capacity` length units of other native strings without the
    /// capacity hint growing.
    pub fn with_capacity(capacity: usize) -> (r: OsString)
        ensures
            r@ == Seq::<u8>::empty(),
            r.spec_capacity() == capacity,
    {
        OsString { inner: OsStr { bytes: Vec::with_capacity(capacity) }, cap: capacity }
    }

    /// Converts to an [`OsStr`] slice.
    pub fn as_os_str(&self) -> (r: &OsStr)
        ensures
            r@ == self@,
    {
        &self.inner
    }

    /// Truncates the `OsString` to zero length; the capacity is kept.
    pub fn clear(&mut self)
        ensures
            final(self)@ == Seq::<u8>::empty(),
            final(self).spec_capacity() == old(self).spec_capacity(),
    {
        self.inner.bytes.clear();
    }

    /// Returns the capacity this `OsString` can hold without reallocating.
    pub fn capacity(&self) -> (r: usize)
        ensures
            r == self.spec_capacity(),
    {
        self.cap
    }

    /// Returns the length of the contents, in native length units.
    pub fn len(&self) -> (r: usize)
        ensures
            r == self@.len(),
    {
        self.inner.bytes.len()
    }

    /// Checks whether the `OsString` is empty.
    pub fn is_empty(&self) -> (r: bool)
        ensures
            r == (self@.len() == 0),
    {
        self.inner.bytes.len() == 0
    }

    /// Extends the string with the given [`OsStr`] slice, growing the
    /// capacity amortizedly (at least doubling) when it is exceeded, so
    /// that repeated appends do not degrade to reallocation linear in the
    /// total length.
    pub fn push(&mut self, s: &OsStr)
        requires
            old(self)@.len() + s@.len() <= usize::MAX,
        ensures
            final(self)@ == old(self)@ + s@,
            final(self).spec_capacity() == amortized_capacity(
                old(self).spec_capacity(),
                old(self)@.len(),
                s@.len(),
            ),
            final(self).spec_capacity() >= old(self).spec_capacity(),
            final(self).spec_capacity() >= final(self)@.len(),
    {
        let len: usize = self.inner.bytes.len();
        let add: usize = s.bytes.len();
        let needed: usize = len + add;
        if needed > self.cap {
            let doubled: usize = if self.cap <= usize::MAX / 2 {
                2 * self.cap
            } else {
                usize::MAX
            };
            self.cap = if needed <= doubled {
                doubled
            } else {
                needed
            };
        }
        let mut i: usize = 0;
        while i < add
            invariant
                i <= add,
                add == s@.len(),
                self.inner.bytes@ == old(self)@ + s@.subrange(0, i as int),
                self.cap == amortized_capacity(
                    old(self).spec_capacity(),
                    old(self)@.len(),
                    s@.len(),
                ),
                self.cap >= old(self).cap,
            decreases add - i,
        {
            let b: u8 = s.bytes[i];
            self.inner.bytes.push(b);
            i = i + 1;
        }
        proof {
            assert(s@.subrange(0, s@.len() as int) =~= s@);
        }
    }

    /// Reserves capacity for at least `additional` more units, possibly
    /// over-allocating (amortized doubling) to avoid frequent
    /// reallocations. The capacity hint never decreases and afterwards
    /// holds room for at least `additional` more units.
    pub fn reserve(&mut self, additional: usize)
        requires
            old(self)@.len() + additional <= usize::MAX,
        ensures
            final(self)@ == old(self)@,
            final(self).spec_capacity() == amortized_capacity(
                old(self).spec_capacity(),
                old(self)@.len(),
                additional as nat,
            ),
            final(self).spec_capacity() >= old(self).spec_capacity(),
            final(self).spec_capacity() >= old(self)@.len() + additional,
    {
        let len: usize = self.inner.bytes.len();
        let needed: usize = len + additional;
        if needed > self.cap {
            let doubled: usize = if self.cap <= usize::MAX / 2 {
                2 * self.cap
            } else {
                usize::MAX
            };
            self.cap = if needed <= doubled {
                doubled
            } else {
                needed
            };
        }
        self.inner.bytes.reserve(additional);
    }

    /// Reserves the minimum capacity for exactly `additional` more units:
    /// afterwards the capacity hint is never below length plus
    /// `additional`, and it is not raised beyond that need.
    pub fn reserve_exact(&mut self, additional: usize)
        requires
            old(self)@.len() + additional <= usize::MAX,
        ensures
            final(self)@ == old(self)@,
            final(self).spec_capacity() == exact_capacity(
                old(self).spec_capacity(),
                old(self)@.len(),
                additional as nat,
            ),
            final(self).spec_capacity() >= old(self).spec_capacity(),
            final(self).spec_capacity() >= old(self)@.len() + additional,
    {
        let len: usize = self.inner.bytes.len();
        let needed: usize = len + additional;
        if needed > self.cap {
            self.cap = needed;
        }
        vec_reserve_exact(&mut self.inner.bytes, additional);
    }

    /// Shrinks the capacity hint to match the length.
    pub fn shrink_to_fit(&mut self)
        ensures
            final(self)@ == old(self)@,
            final(self).spec_capacity() == old(self)@.len(),
    {
        self.cap = self.inner.bytes.len();
        vec_shrink_to_fit(&mut self.inner.bytes);
    }
}

impl OsStr {
    /// Coerces a Unicode string into a native string slice; this
    /// direction is total and lossless.
    pub fn new(s: &str) -> (r: OsStr)
        ensures
            r@ == encode_utf8(s@),
    {
        OsStr { bytes: s.as_bytes_vec() }
    }

    /// Constructs a native string slice directly from raw native bytes.
    pub fn from_bytes(b: &[u8]) -> (r: OsStr)
        ensures
            r@ == b@,
    {
        OsStr { bytes: vstd::slice::slice_to_vec(b) }
    }

    /// The raw byte view of the native content.
    pub fn as_bytes(&self) -> (r: &[u8])
        ensures
            r@ == self@,
    {
        self.bytes.as_slice()
    }

    /// Checks whether the `OsStr` is empty.
    pub fn is_empty(&self) -> (r: bool)
        ensures
            r == (self@.len() == 0),
    {
        self.bytes.len() == 0
    }

    /// Returns the length of this `OsStr` in native length units.
    pub fn len(&self) -> (r: usize)
        ensures
            r == self@.len(),
    {
        self.bytes.len()
    }

    /// Copies the slice into an owned [`OsString`].
    pub fn to_os_string(&self) -> (r: OsString)
        ensures
            r@ == self@,
            r.spec_capacity() == self@.len(),
    {
        let v: Vec<u8> = vstd::slice::slice_to_vec(self.bytes.as_slice());
        let n: usize = v.len();
        OsString { inner: OsStr { bytes: v }, cap: n }
    }

    /// Byte-wise comparison against the other native string; never
    /// decodes either side.
    pub fn cmp(&self, other: &OsStr) -> (r: Ordering)
        ensures
            r == lex_cmp(self@, other@),
    {
        cmp_byte_slices(self.bytes.as_slice(), other.bytes.as_slice())
    }

    /// Compares against a Unicode string by converting the Unicode side
    /// to native form first (the zero-loss direction); the native side is
    /// never decoded, so comparison cannot hit a spurious decode failure.
    pub fn eq_str(&self, s: &str) -> (r: bool)
        ensures
            r == (self@ == encode_utf8(s@)),
    {
        let r: Ordering = cmp_byte_slices(self.bytes.as_slice(), s.as_bytes());
        proof {
            lemma_lex_cmp_equal_iff_eq(self@, encode_utf8(s@));
        }
        matches!(r, Ordering::Equal)
    }
}

/// Byte-wise lexicographic comparison of two native byte sequences: the
/// first differing position decides; a proper prefix orders first.
pub open spec fn lex_cmp(a: Seq<u8>, b: Seq<u8>) -> Ordering
    decreases a.len(),
{
    if a.len() == 0 && b.len() == 0 {
        Ordering::Equal
    } else if a.len() == 0 {
        Ordering::Less
    } else if b.len() == 0 {
        Ordering::Greater
    } else if a[0] < b[0] {
        Ordering::Less
    } else if a[0] > b[0] {
        Ordering::Greater
    } else {
        lex_cmp(a.skip(1), b.skip(1))
    }
}

/// `lex_cmp` reports equality exactly on equal byte sequences.
pub proof fn lemma_lex_cmp_equal_iff_eq(a: Seq<u8>, b: Seq<u8>)
    ensures
        lex_cmp(a, b) == Ordering::Equal <==> a == b,
    decreases a.len(),
{
    if a.len() == 0 && b.len() == 0 {
        assert(a =~= b);
    } else if a.len() == 0 || b.len() == 0 {
        assert(a != b);
    } else {
        lemma_lex_cmp_equal_iff_eq(a.skip(1), b.skip(1));
        if a[0] == b[0] && a.skip(1) == b.skip(1) {
            assert(a.len() == b.len());
            assert forall|i: int| 0 <= i < a.len() implies a[i] == b[i] by {
                if i > 0 {
                    assert(a[i] == a.skip(1)[i - 1]);
                    assert(b[i] == b.skip(1)[i - 1]);
                }
            }
            assert(a =~= b);
        }
        if a == b {
            assert(a.skip(1) =~= b.skip(1));
        }
    }
}

/// Byte-wise lexicographic comparison, executable form.
fn cmp_byte_slices(a: &[u8], b: &[u8]) -> (r: Ordering)
    ensures
        r == lex_cmp(a@, b@),
{
    let alen: usize = a.len();
    let blen: usize = b.len();
    let mut i: usize = 0;
    proof {
        assert(a@.skip(0) =~= a@);
        assert(b@.skip(0) =~= b@);
    }
    loop
        invariant
            i <= alen,
            i <= blen,
            alen == a@.len(),
            blen == b@.len(),
            lex_cmp(a@, b@) == lex_cmp(a@.skip(i as int), b@.skip(i as int)),
        decreases alen - i,
    {
        if i == alen && i == blen {
            return Ordering::Equal;
        } else if i == alen {
            return Ordering::Less;
        } else if i == blen {
            return Ordering::Greater;
        }
        let x: u8 = *vstd::slice::slice_index_get(a, i);
        let y: u8 = *vstd::slice::slice_index_get(b, i);
        if x < y {
            return Ordering::Less;
        } else if x > y {
            return Ordering::Greater;
        }
        proof {
            assert(a@.skip(i as int).skip(1) =~= a@.skip(i + 1));
            assert(b@.skip(i as int).skip(1) =~= b@.skip(i + 1));
        }
        i = i + 1;
    }
}

impl PartialEq for OsStr {
    /// Equality is defined over the raw native byte representation,
    /// never over decoded text.
    fn eq(&self, other: &OsStr) -> (r: bool) {
        let c: Ordering = cmp_byte_slices(self.bytes.as_slice(), other.bytes.as_slice());
        proof {
            lemma_lex_cmp_equal_iff_eq(self@, other@);
        }
        matches!(c, Ordering::Equal)
    }
}

impl vstd::std_specs::cmp::PartialEqSpecImpl for OsStr {
    open spec fn obeys_eq_spec() -> bool {
        true
    }

    open spec fn eq_spec(&self, other: &OsStr) -> bool {
        self@ == other@
    }
}

impl Eq for OsStr {}

impl PartialOrd for OsStr {
    /// Ordering is defined over the raw native byte representation,
    /// never over decoded text, so it is total regardless of whether
    /// either side decodes.
    fn partial_cmp(&self, other: &OsStr) -> (r: Option<Ordering>) {
        proof {
            lemma_lex_cmp_equal_iff_eq(self@, other@);
        }
        Some(self.cmp(other))
    }

    fn lt(&self, other: &OsStr) -> (r: bool) {
        let c: Ordering = self.cmp(other);
        matches!(c, Ordering::Less)
    }

    fn le(&self, other: &OsStr) -> (r: bool) {
        let c: Ordering = self.cmp(other);
        !matches!(c, Ordering::Greater)
    }

    fn gt(&self, other: &OsStr) -> (r: bool) {
        let c: Ordering = self.cmp(other);
        matches!(c, Ordering::Greater)
    }

    fn ge(&self, other: &OsStr) -> (r: bool) {
        let c: Ordering = self.cmp(other);
        !matches!(c, Ordering::Less)
    }
}

impl vstd::std_specs::cmp::PartialOrdSpecImpl for OsStr {
    open spec fn obeys_partial_cmp_spec() -> bool {
        true
    }

    open spec fn partial_cmp_spec(&self, other: &OsStr) -> Option<Ordering> {
        Some(lex_cmp(self@, other@))
    }
}

impl OsString {
    /// Attempts to decode the native content into a Unicode [`String`];
    /// this succeeds exactly when the content is valid under the
    /// backend's encoding rules. On failure, ownership of the original
    /// `OsString` is returned unchanged, so no data is lost.
    pub fn into_string(self) -> (r: Result<String, OsString>)
        ensures
            r is Ok <==> valid_utf8(self@),
            match r {
                Ok(s) => s@ == decode_utf8(self@),
                Err(e) => e@ == self@ && e.spec_capacity() == self.spec_capacity(),
            },
            // Round trip: a native string that came from a Unicode
            // string decodes back to exactly that string.
            forall|t: Seq<char>| self@ == encode_utf8(t) ==> r is Ok && r->Ok_0@ == t,
    {
        proof {
            assert forall|t: Seq<char>| self@ == encode_utf8(t) implies valid_utf8(self@)
                && decode_utf8(self@) == t by {
                lemma_round_trip(t);
            }
        }
        let OsString { inner, cap } = self;
        match vec_into_string(inner.bytes) {
            Ok(s) => Ok(s),
            Err(b) => Err(OsString { inner: OsStr { bytes: b }, cap: cap }),
        }
    }

    /// Converts this `OsString` into a boxed [`OsStr`], transferring the
    /// underlying storage without copying the bytes.
    pub fn into_boxed_os_str(self) -> (r: Box<OsStr>)
        ensures
            r@ == self@,
    {
        let OsString { inner, cap: _ } = self;
        Box::new(inner)
    }

    /// Converts this `OsString` into a reference-counted shared
    /// [`OsStr`], transferring the underlying storage without copying
    /// the bytes.
    pub fn into_rc(self) -> (r: Rc<OsStr>)
        ensures
            r@ == self@,
    {
        let OsString { inner, cap: _ } = self;
        Rc::new(inner)
    }

    /// Converts this `OsString` into an atomically-reference-counted
    /// shared [`OsStr`], transferring the underlying storage without
    /// copying the bytes.
    pub fn into_arc(self) -> (r: Arc<OsStr>)
        ensures
            r@ == self@,
    {
        let OsString { inner, cap: _ } = self;
        Arc::new(inner)
    }

    /// Byte-wise comparison against the other owned native string.
    pub fn cmp(&self, other: &OsString) -> (r: Ordering)
        ensures
            r == lex_cmp(self@, other@),
    {
        self.inner.cmp(&other.inner)
    }

    /// Compares against a Unicode string by converting the Unicode side
    /// to native form first; the native side is never decoded.
    pub fn eq_str(&self, s: &str) -> (r: bool)
        ensures
            r == (self@ == encode_utf8(s@)),
    {
        self.inner.eq_str(s)
    }
}

impl Default for OsString {
    /// Constructs an empty `OsString` with no capacity.
    fn default() -> (r: OsString)
        ensures
            r@ == Seq::<u8>::empty(),
            r.spec_capacity() == 0,
    {
        OsString::new()
    }
}

impl PartialEq for OsString {
    /// Equality is defined over the raw native byte representation,
    /// never over decoded text.
    fn eq(&self, other: &OsString) -> (r: bool) {
        self.inner == other.inner
    }
}

impl vstd::std_specs::cmp::PartialEqSpecImpl for OsString {
    open spec fn obeys_eq_spec() -> bool {
        true
    }

    open spec fn eq_spec(&self, other: &OsString) -> bool {
        self@ == other@
    }
}

impl Eq for OsString {}

impl PartialOrd for OsString {
    /// Ordering is defined over the raw native byte representation,
    /// never over decoded text.
    fn partial_cmp(&self, other: &OsString) -> (r: Option<Ordering>) {
        Some(self.inner.cmp(&other.inner))
    }

    fn lt(&self, other: &OsString) -> (r: bool) {
        let c: Ordering = self.inner.cmp(&other.inner);
        matches!(c, Ordering::Less)
    }

    fn le(&self, other: &OsString) -> (r: bool) {
        let c: Ordering = self.inner.cmp(&other.inner);
        !matches!(c, Ordering::Greater)
    }

    fn gt(&self, other: &OsString) -> (r: bool) {
        let c: Ordering = self.inner.cmp(&other.inner);
        matches!(c, Ordering::Greater)
    }

    fn ge(&self, other: &OsString) -> (r: bool) {
        let c: Ordering = self.inner.cmp(&other.inner);
        !matches!(c, Ordering::Less)
    }
}

impl vstd::std_specs::cmp::PartialOrdSpecImpl for OsString {
    open spec fn obeys_partial_cmp_spec() -> bool {
        true
    }

    open spec fn partial_cmp_spec(&self, other: &OsString) -> Option<Ordering> {
        Some(lex_cmp(self@, other@))
    }
}

impl OsStr {
    /// Yields a Unicode string slice if the native content is valid
    /// under the backend's encoding rules; a borrowed, non-consuming
    /// decode attempt.
    pub fn to_str(&self) -> (r: Option<&str>)
        ensures
            r is Some <==> valid_utf8(self@),
            r matches Some(s) ==> s@ == decode_utf8(self@),
    {
        bytes_to_str(self.bytes.as_slice())
    }

    /// Decodes the native content, never failing: content that is valid
    /// under the backend's encoding decodes exactly (and is returned as
    /// a borrowed view, without allocating); any invalid subsequences
    /// are replaced with the Unicode replacement character.
    pub fn to_string_lossy(&self) -> (r: Cow<'_, str>)
        ensures
            r@ == if valid_utf8(self@) {
                decode_utf8(self@)
            } else {
                lossy_decode(self@)
            },
            // A borrowed view comes back exactly when the content was
            // already valid, so that case allocates nothing.
            (r matches Cow::Borrowed(_)) <==> valid_utf8(self@),
    {
        match bytes_to_str(self.bytes.as_slice()) {
            Some(s) => Cow::Borrowed(s),
            None => Cow::Owned(bytes_to_string_lossy(self.bytes.as_slice())),
        }
    }

    /// Converts a boxed `OsStr` back into an owned [`OsString`] without
    /// copying; the capacity hint matches the length.
    pub fn into_os_string(self: Box<OsStr>) -> (r: OsString)
        ensures
            r@ == self@,
            r.spec_capacity() == self@.len(),
    {
        let s: OsStr = *self;
        let n: usize = s.bytes.len();
        OsString { inner: s, cap: n }
    }

    /// Replaces the contents of an owned native string with a copy of
    /// this slice, reusing the target's allocation: its capacity hint
    /// never shrinks.
    pub fn clone_into(&self, target: &mut OsString)
        requires
            self@.len() <= usize::MAX,
        ensures
            final(target)@ == self@,
            final(target).spec_capacity() >= old(target).spec_capacity(),
    {
        target.clear();
        target.push(self);
    }
}

impl Default for OsStr {
    /// Constructs an empty `OsStr`.
    fn default() -> (r: OsStr)
        ensures
            r@ == Seq::<u8>::empty(),
    {
        OsStr { bytes: Vec::new() }
    }
}

/// What `to_string_lossy` yields on content that is not valid under the
/// backend's encoding.
pub uninterp spec fn lossy_decode(bytes: Seq<u8>) -> Seq<char>;

/// Relies on `String::into_bytes`: it hands back exactly the string's
/// UTF-8 bytes, transferring the storage without copying.
#[verifier::external_body]
fn string_into_bytes(s: String) -> (r: Vec<u8>)
    ensures
        r@ == encode_utf8(s@),
{
    s.into_bytes()
}

/// Relies on `String::from_utf8`: it succeeds exactly on UTF-8-valid
/// bytes, returning the string those bytes decode to, and on failure the
/// error value hands back the original bytes unchanged.
#[verifier::external_body]
fn vec_into_string(v: Vec<u8>) -> (r: Result<String, Vec<u8>>)
    ensures
        match r {
            Ok(s) => valid_utf8(v@) && s@ == decode_utf8(v@),
            Err(w) => !valid_utf8(v@) && w@ == v@,
        },
{
    String::from_utf8(v).map_err(|e| e.into_bytes())
}

/// Relies on `core::str::from_utf8`: it succeeds exactly on UTF-8-valid
/// bytes, yielding the string slice those bytes decode to.
#[verifier::external_body]
fn bytes_to_str(v: &[u8]) -> (r: Option<&str>)
    ensures
        match r {
            Some(s) => valid_utf8(v@) && s@ == decode_utf8(v@),
            None => !valid_utf8(v@),
        },
{
    core::str::from_utf8(v).ok()
}

/// Relies on `String::from_utf8_lossy`: the result is a function of the
/// bytes alone (invalid sequences are replaced with U+FFFD).
#[verifier::external_body]
fn bytes_to_string_lossy(v: &[u8]) -> (r: String)
    ensures
        r@ == lossy_decode(v@),
{
    String::from_utf8_lossy(v).into_owned()
}

/// Round-trip law: converting any Unicode string to native form is
/// lossless — the native bytes are always valid under the backend's
/// encoding and decode back to exactly the original character sequence,
/// so `into_string` after `from` always succeeds unchanged.
pub proof fn lemma_round_trip(s: Seq<char>)
    ensures
        valid_utf8(encode_utf8(s)),
        decode_utf8(encode_utf8(s)) == s,
{
    encode_utf8_valid_utf8(s);
    encode_utf8_decode_utf8(s);
}

/// `a` is lexicographically less than `b`: at the first position where
/// they differ `a` holds the smaller byte, or `a` is a proper prefix of
/// `b`.
pub open spec fn lex_lt(a: Seq<u8>, b: Seq<u8>) -> bool {
    exists|i: int|
        0 <= i <= a.len() && i <= b.len() && a.subrange(0, i) == b.subrange(0, i) && ((i < a.len()
            && i < b.len() && a[i] < b[i]) || (i == a.len() && i < b.len()))
}

/// Byte-wise ordering law: one native string orders strictly below
/// another exactly when its raw byte representation is lexicographically
/// less, independent of whether either side decodes. `lex_cmp` is the
/// spec `partial_cmp_spec` (and `cmp`) are stated over.
pub proof fn lemma_byte_wise_ordering(a: Seq<u8>, b: Seq<u8>)
    ensures
        lex_cmp(a, b) == Ordering::Less <==> lex_lt(a, b),
    decreases a.len(),
{
    if a.len() == 0 && b.len() == 0 {
        assert(!lex_lt(a, b));
    } else if a.len() == 0 {
        assert(a.subrange(0, 0) =~= b.subrange(0, 0));
        assert(lex_lt(a, b));
    } else if b.len() == 0 {
        assert(!lex_lt(a, b));
    } else if a[0] < b[0] {
        assert(a.subrange(0, 0) =~= b.subrange(0, 0));
        assert(lex_lt(a, b));
    } else if a[0] > b[0] {
        assert forall|i: int|
            0 <= i <= a.len() && i <= b.len() && a.subrange(0, i) == b.subrange(
                0,
                i,
            ) implies !((i < a.len() && i < b.len() && a[i] < b[i]) || (i == a.len() && i
            < b.len())) by {
            if i > 0 {
                assert(a.subrange(0, i)[0] == a[0]);
                assert(b.subrange(0, i)[0] == b[0]);
            }
        }
        assert(!lex_lt(a, b));
    } else {
        lemma_byte_wise_ordering(a.skip(1), b.skip(1));
        if lex_cmp(a, b) == Ordering::Less {
            let i = choose|i: int|
                0 <= i <= a.skip(1).len() && i <= b.skip(1).len() && a.skip(1).subrange(0, i)
                    == b.skip(1).subrange(0, i) && ((i < a.skip(1).len() && i < b.skip(1).len()
                    && a.skip(1)[i] < b.skip(1)[i]) || (i == a.skip(1).len() && i < b.skip(
                    1,
                ).len()));
            assert forall|j: int| 0 <= j < i + 1 implies #[trigger] a.subrange(0, i + 1)[j]
                == b.subrange(0, i + 1)[j] by {
                if j > 0 {
                    assert(a.skip(1).subrange(0, i)[j - 1] == a.skip(1)[j - 1]);
                    assert(b.skip(1).subrange(0, i)[j - 1] == b.skip(1)[j - 1]);
                    assert(a.skip(1)[j - 1] == a[j]);
                    assert(b.skip(1)[j - 1] == b[j]);
                }
            }
            assert(a.subrange(0, i + 1) =~= b.subrange(0, i + 1));
            assert(a.skip(1)[i] == a[i + 1] || i == a.skip(1).len());
            assert(lex_lt(a, b));
        }
        if lex_lt(a, b) {
            let i = choose|i: int|
                0 <= i <= a.len() && i <= b.len() && a.subrange(0, i) == b.subrange(0, i) && ((i
                    < a.len() && i < b.len() && a[i] < b[i]) || (i == a.len() && i < b.len()));
            if i == 0 {
                assert(false);
            } else {
                assert(a.skip(1).subrange(0, i - 1) =~= b.skip(1).subrange(0, i - 1)) by {
                    assert(forall|j: int|
                        0 <= j < i - 1 ==> #[trigger] a.skip(1).subrange(0, i - 1)[j] == a.subrange(
                            0,
                            i,
                        )[j + 1]);
                    assert(forall|j: int|
                        0 <= j < i - 1 ==> #[trigger] b.skip(1).subrange(0, i - 1)[j] == b.subrange(
                            0,
                            i,
                        )[j + 1]);
                }
                assert(lex_lt(a.skip(1), b.skip(1)));
            }
        }
    }
}

/// Growth-state law, spec level: the (length, capacity) pair of an owned
/// native string after `k` single-unit appends onto a freshly created
/// empty one — exactly the transition `OsString::push` takes, per its
/// `ensures`.
pub open spec fn repeated_unit_push_state(k: nat) -> (nat, nat)
    decreases k,
{
    if k == 0 {
        (0, 0)
    } else {
        let prev = repeated_unit_push_state((k - 1) as nat);
        (prev.0 + 1, amortized_capacity(prev.1, prev.0, 1))
    }
}

/// Growth correctness under repeated append: pushing `k` single-unit
/// native strings sequentially onto an initially empty owned native
/// string yields length exactly `k` and capacity at least `k`.
pub proof fn lemma_growth_under_repeated_append(k: nat)
    ensures
        repeated_unit_push_state(k).0 == k,
        repeated_unit_push_state(k).1 >= k,
    decreases k,
{
    if k > 0 {
        lemma_growth_under_repeated_append((k - 1) as nat);
    }
}

/// Shared-ownership equivalence law: the exclusively-boxed,
/// reference-counted and atomically-reference-counted forms obtained
/// from one owned native string all compare equal, byte-wise, to the
/// original and to each other.
pub proof fn lemma_shared_ownership_equivalence(
    s: &OsString,
    b: &Box<OsStr>,
    r: &Rc<OsStr>,
    a: &Arc<OsStr>,
)
    requires
        b@ == s@,
        r@ == s@,
        a@ == s@,
    ensures
        (**b).eq_spec(&**r),
        (**r).eq_spec(&**a),
        (**a).eq_spec(&**b),
        (**b)@ == s@ && (**r)@ == s@ && (**a)@ == s@,
{
}

/// Empty-value law: the empty Unicode string corresponds to the empty
/// native string under the lossless conversion, in both directions.
pub proof fn lemma_empty_value_defaults()
    ensures
        encode_utf8(Seq::<char>::empty()) == Seq::<u8>::empty(),
        valid_utf8(Seq::<u8>::empty()),
        decode_utf8(Seq::<u8>::empty()) == Seq::<char>::empty(),
{
    lemma_round_trip(Seq::<char>::empty());
    assert(encode_utf8(Seq::<char>::empty()) =~= Seq::<u8>::empty());
}

/// Relies on `Vec::reserve_exact`: it only adjusts spare capacity and
/// leaves the contents unchanged.
#[verifier::external_body]
fn vec_reserve_exact(v: &mut Vec<u8>, additional: usize)
    ensures
        final(v)@ == old(v)@,
{
    v.reserve_exact(additional)
}

/// Relies on `Vec::shrink_to_fit`: it only releases spare capacity and
/// leaves the contents unchanged.
#[verifier::external_body]
fn vec_shrink_to_fit(v: &mut Vec<u8>)
    ensures
        final(v)@ == old(v)@,
{
    v.shrink_to_fit()
}

} // verus!
