//! Owned and borrowed wide-string types over foreign null-terminated
//! UTF-16 buffers.
//!
//! A [`WinStr`] is a zero-copy view whose length was found by scanning to
//! the terminator; a [`WinString`] owns its buffer together with a tag
//! naming the foreign allocator that produced it, and releasing it runs the
//! matching free primitive exactly once.

use vstd::prelude::*;
use vstd::slice::slice_subrange;

use crate::error::{Error, E_OUTOFMEMORY};
use crate::foreign::{devices_unchanged, registry_unchanged, ForeignRuntime};

verus! {

/// Which foreign allocator family produced an owned buffer.
#[derive(Debug, Clone, Copy, PartialEq, Eq, Structural)]
pub enum StringAlloc {
    /// The COM task allocator; freed by the COM-family free primitive.
    Com,
    /// The local/shell allocator; freed by the local-family free primitive.
    Local,
}

/// No code unit of `s` is the null terminator.
pub open spec fn null_free(s: Seq<u16>) -> bool {
    forall|i: int| 0 <= i < s.len() ==> s[i] != 0u16
}

/// Number of code units before the first null terminator.
pub open spec fn scan_len(s: Seq<u16>) -> nat
    decreases s.len(),
{
    if s.len() == 0 {
        0
    } else if s[0] == 0u16 {
        0
    } else {
        (1 + scan_len(s.subrange(1, s.len() as int))) as nat
    }
}

pub proof fn lemma_scan_len_props(s: Seq<u16>)
    requires
        s.contains(0u16),
    ensures
        scan_len(s) < s.len(),
        s[scan_len(s) as int] == 0u16,
        forall|i: int| 0 <= i < scan_len(s) ==> s[i] != 0u16,
    decreases s.len(),
{
    let w = choose|w: int| 0 <= w < s.len() && s[w] == 0u16;
    if s[0] == 0u16 {
    } else {
        let t = s.subrange(1, s.len() as int);
        assert(t[w - 1] == 0u16);
        assert(t.contains(0u16));
        lemma_scan_len_props(t);
        assert(s[scan_len(s) as int] == t[scan_len(t) as int]);
        assert forall|i: int| 0 <= i < scan_len(s) implies s[i] != 0u16 by {
            if i >= 1 {
                assert(t[i - 1] != 0u16);
            }
        }
    }
}

/// The terminator position is the unique index that is null with no null
/// before it, whatever lies in the buffer beyond it.
pub proof fn lemma_scan_len_unique(s: Seq<u16>, n: int)
    requires
        0 <= n < s.len(),
        s[n] == 0u16,
        forall|i: int| 0 <= i < n ==> s[i] != 0u16,
    ensures
        scan_len(s) == n,
{
    assert(s.contains(0u16));
    lemma_scan_len_props(s);
    let m = scan_len(s) as int;
    if m < n {
        assert(s[m] != 0u16);
    }
    if n < m {
        assert(s[n] != 0u16);
    }
}

/// Index of the first null terminator in `buf`.
pub(crate) fn scan_units(buf: &[u16]) -> (n: usize)
    requires
        buf@.contains(0u16),
    ensures
        n == scan_len(buf@),
        n < buf@.len(),
{
    proof {
        lemma_scan_len_props(buf@);
    }
    let mut i: usize = 0;
    loop
        invariant
            buf@.contains(0u16),
            i <= scan_len(buf@),
            forall|j: int| 0 <= j < i ==> buf@[j] != 0u16,
        decreases buf@.len() - i,
    {
        proof {
            lemma_scan_len_props(buf@);
        }
        if buf[i] == 0 {
            proof {
                lemma_scan_len_unique(buf@, i as int);
            }
            return i;
        }
        i = i + 1;
        proof {
            if i > scan_len(buf@) {
                assert(buf@[scan_len(buf@) as int] != 0u16);
            }
        }
    }
}

/// Code-unit equality of two buffers.
pub(crate) fn units_eq(a: &[u16], b: &[u16]) -> (r: bool)
    ensures
        r == (a@ == b@),
{
    if a.len() != b.len() {
        return false;
    }
    let mut i: usize = 0;
    while i < a.len()
        invariant
            i <= a@.len(),
            a@.len() == b@.len(),
            forall|j: int| 0 <= j < i ==> a@[j] == b@[j],
        decreases a@.len() - i,
    {
        if a[i] != b[i] {
            return false;
        }
        i = i + 1;
    }
    proof {
        assert(a@ =~= b@);
    }
    true
}

/// Fresh vector holding the first `n` elements of `buf`.
pub(crate) fn copy_prefix<T: Copy>(buf: &[T], n: usize) -> (v: Vec<T>)
    requires
        n <= buf@.len(),
    ensures
        v@ == buf@.subrange(0, n as int),
{
    let mut v: Vec<T> = Vec::new();
    let mut i: usize = 0;
    while i < n
        invariant
            i <= n <= buf@.len(),
            v@ == buf@.subrange(0, i as int),
        decreases n - i,
    {
        v.push(buf[i]);
        i = i + 1;
        proof {
            assert(v@ =~= buf@.subrange(0, i as int));
        }
    }
    v
}

/// A foreign getter handing out a COM-allocated copy of known code units:
/// counts the allocation and wraps the buffer with the COM tag, or reports
/// the foreign out-of-memory status.
pub(crate) fn com_string_out(rt: &mut ForeignRuntime, units: Vec<u16>) -> (r: Result<
    WinString,
    Error,
>)
    requires
        old(rt).com_allocs < u64::MAX,
        null_free(units@),
    ensures
        registry_unchanged(*old(rt), *final(rt)),
        devices_unchanged(*old(rt), *final(rt)),
        final(rt).com_frees == old(rt).com_frees,
        final(rt).local_allocs == old(rt).local_allocs,
        final(rt).local_frees == old(rt).local_frees,
        !final(rt).fail_next_alloc,
        old(rt).fail_next_alloc ==> r == Err::<WinString, Error>(Error::Foreign(E_OUTOFMEMORY))
            && final(rt).com_allocs == old(rt).com_allocs,
        !old(rt).fail_next_alloc ==> final(rt).com_allocs == old(rt).com_allocs + 1 && (match r {
            Ok(s) => s@ == units@ && s.tag() == StringAlloc::Com && s.wf(),
            Err(_) => false,
        }),
{
    if !rt.com_string_alloc() {
        return Err(Error::Foreign(E_OUTOFMEMORY));
    }
    Ok(WinString::from_scanned(units, StringAlloc::Com))
}

/// A UTF-16 high (leading) surrogate.
pub open spec fn is_high_surrogate(u: u16) -> bool {
    0xD800 <= u <= 0xDBFF
}

/// A UTF-16 low (trailing) surrogate.
pub open spec fn is_low_surrogate(u: u16) -> bool {
    0xDC00 <= u <= 0xDFFF
}

/// The scalar value a surrogate pair encodes.
pub open spec fn surrogate_scalar(hi: u16, lo: u16) -> u32 {
    ((0x10000 + (hi as int - 0xD800) * 0x400 + (lo as int - 0xDC00)) as u32)
}

/// Lossy UTF-16 decoding, as scalar values: surrogate pairs combine, and
/// an unpaired surrogate becomes the replacement character.
pub open spec fn utf16_scalars(s: Seq<u16>) -> Seq<u32>
    decreases s.len(),
{
    if s.len() == 0 {
        Seq::empty()
    } else if is_high_surrogate(s[0]) && s.len() >= 2 && is_low_surrogate(s[1]) {
        seq![surrogate_scalar(s[0], s[1])] + utf16_scalars(s.subrange(2, s.len() as int))
    } else if is_high_surrogate(s[0]) || is_low_surrogate(s[0]) {
        seq![0xFFFDu32] + utf16_scalars(s.subrange(1, s.len() as int))
    } else {
        seq![s[0] as u32] + utf16_scalars(s.subrange(1, s.len() as int))
    }
}

/// The characters of `cs` as scalar values.
pub open spec fn char_scalars(cs: Seq<char>) -> Seq<u32> {
    cs.map_values(|c: char| c as u32)
}

/// Relies on char::from_u32: a value outside the surrogate range and at
/// most the largest scalar converts to the character with that value.
#[verifier::external_body]
fn char_from_scalar(v: u32) -> (c: char)
    requires
        v < 0xD800 || (0xE000 <= v <= 0x10FFFF),
    ensures
        c as u32 == v,
{
    char::from_u32(v).expect("valid scalar value")
}

/// Relies on String's FromIterator over chars: the collected string holds
/// exactly the vector's characters, in order.
#[verifier::external_body]
fn string_from_chars(chars: Vec<char>) -> (s: String)
    ensures
        s@ == chars@,
{
    chars.into_iter().collect()
}

/// Decode UTF-16 code units lossily into characters.
fn decode_utf16_lossy(units: &[u16]) -> (r: Vec<char>)
    ensures
        char_scalars(r@) == utf16_scalars(units@),
{
    let n: usize = units.len();
    let mut chars: Vec<char> = Vec::new();
    let mut i: usize = 0;
    proof {
        assert(units@.subrange(0, n as int) =~= units@);
        assert(char_scalars(chars@) + utf16_scalars(units@) =~= utf16_scalars(units@));
    }
    while i < n
        invariant
            n == units@.len(),
            i <= n,
            utf16_scalars(units@) == char_scalars(chars@) + utf16_scalars(
                units@.subrange(i as int, n as int),
            ),
        decreases n - i,
    {
        let ghost pre = chars@;
        let ghost rest = units@.subrange(i as int, n as int);
        proof {
            assert(rest[0] == units@[i as int]);
        }
        let u = units[i];
        if 0xD800 <= u && u <= 0xDBFF && i + 1 < n && 0xDC00 <= units[i + 1] && units[i + 1]
            <= 0xDFFF {
            let lo = units[i + 1];
            let v: u32 = 0x10000 + ((u - 0xD800) as u32) * 0x400 + ((lo - 0xDC00) as u32);
            proof {
                assert(rest[1] == units@[i + 1]);
                assert(v == surrogate_scalar(u, lo));
                assert(rest.subrange(2, rest.len() as int) =~= units@.subrange(
                    i + 2,
                    n as int,
                ));
            }
            chars.push(char_from_scalar(v));
            i = i + 2;
        } else if 0xD800 <= u && u <= 0xDFFF {
            proof {
                assert(rest.subrange(1, rest.len() as int) =~= units@.subrange(
                    i + 1,
                    n as int,
                ));
            }
            chars.push(char_from_scalar(0xFFFD));
            i = i + 1;
        } else {
            proof {
                assert(rest.subrange(1, rest.len() as int) =~= units@.subrange(
                    i + 1,
                    n as int,
                ));
            }
            chars.push(char_from_scalar(u as u32));
            i = i + 1;
        }
        proof {
            let v = chars@.last() as u32;
            assert(char_scalars(chars@) =~= char_scalars(pre).push(v));
            assert(char_scalars(pre).push(v) + utf16_scalars(
                units@.subrange(i as int, n as int),
            ) =~= char_scalars(pre) + (seq![v] + utf16_scalars(
                units@.subrange(i as int, n as int),
            )));
        }
    }
    proof {
        assert(units@.subrange(n as int, n as int) =~= Seq::<u16>::empty());
        assert(char_scalars(chars@) + utf16_scalars(units@.subrange(n as int, n as int))
            =~= char_scalars(chars@));
    }
    chars
}

/// Code-unit lexicographic order of two buffers.
pub open spec fn lex_order(a: Seq<u16>, b: Seq<u16>) -> core::cmp::Ordering
    decreases a.len(),
{
    if a.len() == 0 && b.len() == 0 {
        core::cmp::Ordering::Equal
    } else if a.len() == 0 {
        core::cmp::Ordering::Less
    } else if b.len() == 0 {
        core::cmp::Ordering::Greater
    } else if a[0] < b[0] {
        core::cmp::Ordering::Less
    } else if a[0] > b[0] {
        core::cmp::Ordering::Greater
    } else {
        lex_order(a.subrange(1, a.len() as int), b.subrange(1, b.len() as int))
    }
}

/// The order is reflexively tied to equality: two buffers compare equal
/// exactly when they hold the same code units.
pub proof fn lemma_lex_order_equal(a: Seq<u16>, b: Seq<u16>)
    ensures
        (lex_order(a, b) == core::cmp::Ordering::Equal) <==> (a == b),
    decreases a.len(),
{
    if a.len() == 0 && b.len() == 0 {
        assert(a =~= b);
    } else if a.len() == 0 || b.len() == 0 {
        assert(a != b);
    } else if a[0] == b[0] {
        let ta = a.subrange(1, a.len() as int);
        let tb = b.subrange(1, b.len() as int);
        lemma_lex_order_equal(ta, tb);
        if ta == tb {
            assert forall|j: int| 0 <= j < a.len() implies a[j] == b[j] by {
                if j >= 1 {
                    assert(a[j] == ta[j - 1]);
                    assert(b[j] == tb[j - 1]);
                }
            }
            assert(a =~= b);
        } else {
            if a == b {
                assert(ta =~= tb);
            }
        }
    } else {
        assert(a != b);
    }
}

/// Code-unit lexicographic comparison of two buffers.
pub(crate) fn units_cmp(a: &[u16], b: &[u16]) -> (r: core::cmp::Ordering)
    ensures
        r == lex_order(a@, b@),
{
    let la: usize = a.len();
    let lb: usize = b.len();
    let mut i: usize = 0;
    proof {
        assert(a@.subrange(0, la as int) =~= a@);
        assert(b@.subrange(0, lb as int) =~= b@);
    }
    loop
        invariant
            i <= la,
            i <= lb,
            la == a@.len(),
            lb == b@.len(),
            lex_order(a@, b@) == lex_order(
                a@.subrange(i as int, la as int),
                b@.subrange(i as int, lb as int),
            ),
        decreases la - i,
    {
        let ghost sa = a@.subrange(i as int, la as int);
        let ghost sb = b@.subrange(i as int, lb as int);
        if i == la && i == lb {
            return core::cmp::Ordering::Equal;
        }
        if i == la {
            return core::cmp::Ordering::Less;
        }
        if i == lb {
            return core::cmp::Ordering::Greater;
        }
        proof {
            assert(sa[0] == a@[i as int]);
            assert(sb[0] == b@[i as int]);
        }
        let x = a[i];
        let y = b[i];
        if x < y {
            return core::cmp::Ordering::Less;
        }
        if x > y {
            return core::cmp::Ordering::Greater;
        }
        i = i + 1;
        proof {
            assert(sa.subrange(1, sa.len() as int) =~= a@.subrange(i as int, la as int));
            assert(sb.subrange(1, sb.len() as int) =~= b@.subrange(i as int, lb as int));
        }
    }
}

/// A borrowed wide string: a view of the code units before the terminator
/// of a foreign null-terminated buffer. Valid only while the buffer lives.
#[derive(Debug, Clone, Copy)]
pub struct WinStr<'a> {
    units: &'a [u16],
}

impl<'a> View for WinStr<'a> {
    type V = Seq<u16>;

    closed spec fn view(&self) -> Seq<u16> {
        self.units@
    }
}

impl<'a> WinStr<'a> {
    /// Views never contain the terminator.
    pub open spec fn wf(&self) -> bool {
        null_free(self@)
    }

    /// Borrow the string that starts `buf`: its length is found by
    /// scanning to the first null terminator, whatever the capacity of the
    /// buffer beyond it.
    pub fn from_units(buf: &'a [u16]) -> (r: Self)
        requires
            buf@.contains(0u16),
        ensures
            r@ == buf@.subrange(0, scan_len(buf@) as int),
            r.wf(),
    {
        let n = scan_units(buf);
        let units = slice_subrange(buf, 0, n);
        proof {
            lemma_scan_len_props(buf@);
        }
        WinStr { units }
    }

    pub fn len(&self) -> (r: usize)
        ensures
            r == self@.len(),
    {
        self.units.len()
    }

    pub fn as_slice(&self) -> (r: &'a [u16])
        ensures
            r@ == self@,
    {
        self.units
    }

    /// The text as a native string, decoded lossily: surrogate pairs
    /// combine and unpaired surrogates become the replacement character.
    pub fn to_string_lossy(&self) -> (r: String)
        ensures
            char_scalars(r@) == utf16_scalars(self@),
    {
        string_from_chars(decode_utf16_lossy(self.units))
    }

    /// Promote the view to an owned string through the foreign duplicate
    /// primitive, which allocates from the local family; its allocation
    /// failure is propagated.
    pub fn to_winstring(&self, rt: &mut ForeignRuntime) -> (r: Result<WinString, Error>)
        requires
            old(rt).local_allocs < u64::MAX,
        ensures
            registry_unchanged(*old(rt), *final(rt)),
            devices_unchanged(*old(rt), *final(rt)),
            final(rt).com_allocs == old(rt).com_allocs,
            final(rt).com_frees == old(rt).com_frees,
            final(rt).local_frees == old(rt).local_frees,
            !final(rt).fail_next_alloc,
            old(rt).fail_next_alloc ==> r == Err::<WinString, Error>(Error::AllocFailed)
                && final(rt).local_allocs == old(rt).local_allocs,
            !old(rt).fail_next_alloc ==> final(rt).local_allocs == old(rt).local_allocs + 1
                && (match r {
                Ok(s) => s@ == self@ && s.tag() == StringAlloc::Local,
                Err(_) => false,
            }),
    {
        if !rt.local_string_alloc() {
            return Err(Error::AllocFailed);
        }
        let v = copy_prefix(self.units, self.units.len());
        proof {
            assert(v@ =~= self@);
        }
        Ok(WinString { units: v, alloc: StringAlloc::Local })
    }
}

impl<'a> PartialEq for WinStr<'a> {
    /// Equality is code-unit-wise.
    fn eq(&self, other: &Self) -> bool {
        units_eq(self.units, other.units)
    }
}

impl<'a> vstd::std_specs::cmp::PartialEqSpecImpl for WinStr<'a> {
    open spec fn obeys_eq_spec() -> bool {
        true
    }

    open spec fn eq_spec(&self, other: &Self) -> bool {
        self@ == other@
    }
}

impl<'a> PartialOrd for WinStr<'a> {
    /// Ordering is code-unit lexicographic.
    fn partial_cmp(&self, other: &Self) -> Option<core::cmp::Ordering> {
        Some(units_cmp(self.units, other.units))
    }
}

impl<'a> vstd::std_specs::cmp::PartialOrdSpecImpl for WinStr<'a> {
    open spec fn obeys_partial_cmp_spec() -> bool {
        true
    }

    open spec fn partial_cmp_spec(&self, other: &Self) -> Option<core::cmp::Ordering> {
        Some(lex_order(self@, other@))
    }
}

/// An owned wide string: the code units before the terminator of a buffer
/// a foreign allocator produced, together with the tag naming that
/// allocator. Releasing it runs the matching free primitive exactly once.
#[derive(Debug)]
pub struct WinString {
    pub(crate) units: Vec<u16>,
    pub(crate) alloc: StringAlloc,
}

impl View for WinString {
    type V = Seq<u16>;

    closed spec fn view(&self) -> Seq<u16> {
        self.units@
    }
}

impl WinString {
    /// The allocator family the buffer must be released through.
    pub closed spec fn tag(&self) -> StringAlloc {
        self.alloc
    }

    pub open spec fn wf(&self) -> bool {
        null_free(self@)
    }

    /// Take ownership of a null-terminated buffer the COM task allocator
    /// produced. The caller asserts the provenance by choosing this
    /// constructor; the length is found by scanning.
    pub fn from_com_buffer(buf: Vec<u16>) -> (r: Self)
        requires
            buf@.contains(0u16),
        ensures
            r@ == buf@.subrange(0, scan_len(buf@) as int),
            r.tag() == StringAlloc::Com,
            r.wf(),
    {
        let mut b = buf;
        let n = scan_units(b.as_slice());
        proof {
            lemma_scan_len_props(b@);
        }
        b.truncate(n);
        WinString { units: b, alloc: StringAlloc::Com }
    }

    /// Take ownership of a null-terminated buffer the local/shell
    /// allocator produced.
    pub fn from_local_buffer(buf: Vec<u16>) -> (r: Self)
        requires
            buf@.contains(0u16),
        ensures
            r@ == buf@.subrange(0, scan_len(buf@) as int),
            r.tag() == StringAlloc::Local,
            r.wf(),
    {
        let mut b = buf;
        let n = scan_units(b.as_slice());
        proof {
            lemma_scan_len_props(b@);
        }
        b.truncate(n);
        WinString { units: b, alloc: StringAlloc::Local }
    }

    /// Wrap code units that are already known to carry no terminator.
    pub(crate) fn from_scanned(units: Vec<u16>, alloc: StringAlloc) -> (r: Self)
        requires
            null_free(units@),
        ensures
            r@ == units@,
            r.tag() == alloc,
            r.wf(),
    {
        WinString { units, alloc }
    }

    /// Borrow this string as a view.
    pub fn as_winstr(&self) -> (r: WinStr<'_>)
        ensures
            r@ == self@,
    {
        WinStr { units: self.units.as_slice() }
    }

    pub fn len(&self) -> (r: usize)
        ensures
            r == self@.len(),
    {
        self.units.len()
    }

    /// The code units with the terminator appended, in the foreign layout.
    pub(crate) fn terminated_units(&self) -> (v: Vec<u16>)
        ensures
            v@ == self@.push(0u16),
    {
        let mut v = copy_prefix(self.units.as_slice(), self.units.len());
        v.push(0);
        proof {
            assert(v@ =~= self@.push(0u16));
        }
        v
    }

    /// The text as a native string, decoded lossily.
    pub fn to_string_lossy(&self) -> (r: String)
        ensures
            char_scalars(r@) == utf16_scalars(self@),
    {
        string_from_chars(decode_utf16_lossy(self.units.as_slice()))
    }

    pub fn alloc_tag(&self) -> (r: StringAlloc)
        ensures
            r == self.tag(),
    {
        self.alloc
    }

    /// Release the buffer: runs the free primitive matching the recorded
    /// allocator tag, exactly once, and consumes the string.
    pub fn free(self, rt: &mut ForeignRuntime)
        requires
            old(rt).com_frees < u64::MAX,
            old(rt).local_frees < u64::MAX,
        ensures
            self.tag() == StringAlloc::Com ==> final(rt).com_frees == old(rt).com_frees + 1
                && final(rt).local_frees == old(rt).local_frees,
            self.tag() == StringAlloc::Local ==> final(rt).local_frees == old(rt).local_frees + 1
                && final(rt).com_frees == old(rt).com_frees,
            final(rt).com_allocs == old(rt).com_allocs,
            final(rt).local_allocs == old(rt).local_allocs,
            final(rt).fail_next_alloc == old(rt).fail_next_alloc,
            registry_unchanged(*old(rt), *final(rt)),
            devices_unchanged(*old(rt), *final(rt)),
    {
        match self.alloc {
            StringAlloc::Com => rt.note_com_free(),
            StringAlloc::Local => rt.note_local_free(),
        }
    }
}

impl PartialEq for WinString {
    /// Equality is code-unit-wise; the allocator tag does not take part.
    fn eq(&self, other: &Self) -> bool {
        units_eq(self.units.as_slice(), other.units.as_slice())
    }
}

impl vstd::std_specs::cmp::PartialEqSpecImpl for WinString {
    open spec fn obeys_eq_spec() -> bool {
        true
    }

    open spec fn eq_spec(&self, other: &Self) -> bool {
        self@ == other@
    }
}

impl PartialOrd for WinString {
    /// Ordering is code-unit lexicographic; the allocator tag does not
    /// take part.
    fn partial_cmp(&self, other: &Self) -> Option<core::cmp::Ordering> {
        Some(units_cmp(self.units.as_slice(), other.units.as_slice()))
    }
}

impl vstd::std_specs::cmp::PartialOrdSpecImpl for WinString {
    open spec fn obeys_partial_cmp_spec() -> bool {
        true
    }

    open spec fn partial_cmp_spec(&self, other: &Self) -> Option<core::cmp::Ordering> {
        Some(lex_order(self@, other@))
    }
}

impl<'a> PartialEq<WinString> for WinStr<'a> {
    /// A view and an owned string compare through the shared view.
    fn eq(&self, other: &WinString) -> bool {
        units_eq(self.units, other.units.as_slice())
    }
}

impl<'a> vstd::std_specs::cmp::PartialEqSpecImpl<WinString> for WinStr<'a> {
    open spec fn obeys_eq_spec() -> bool {
        true
    }

    open spec fn eq_spec(&self, other: &WinString) -> bool {
        self@ == other@
    }
}

impl PartialEq<WinStr<'_>> for WinString {
    /// An owned string and a view compare through the shared view.
    fn eq(&self, other: &WinStr<'_>) -> bool {
        units_eq(self.units.as_slice(), other.units)
    }
}

impl vstd::std_specs::cmp::PartialEqSpecImpl<WinStr<'_>> for WinString {
    open spec fn obeys_eq_spec() -> bool {
        true
    }

    open spec fn eq_spec(&self, other: &WinStr<'_>) -> bool {
        self@ == other@
    }
}

} // verus!
