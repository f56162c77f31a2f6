use vstd::prelude::*;

verus! {

/// Whether one pattern slot accepts byte `b`: a required byte must be equal,
/// a wildcard accepts anything.
pub open spec fn slot_accepts(slot: Option<u8>, b: u8) -> bool {
    match slot {
        Some(v) => v == b,
        None => true,
    }
}

/// The slots match the bytes of `hay` that start at offset `off`.
pub open spec fn matches_at(slots: Seq<Option<u8>>, hay: Seq<u8>, off: int) -> bool {
    &&& 0 <= off
    &&& off + slots.len() <= hay.len()
    &&& forall|i: int| 0 <= i < slots.len() ==> #[trigger] slot_accepts(slots[i], hay[off + i])
}

/// The slots match a candidate of exactly their own length.
pub open spec fn matches_exactly(slots: Seq<Option<u8>>, bytes: Seq<u8>) -> bool {
    bytes.len() == slots.len() && matches_at(slots, bytes, 0)
}

/// The slots match the first bytes of a candidate; later bytes are ignored.
pub open spec fn matches_prefix(slots: Seq<Option<u8>>, bytes: Seq<u8>) -> bool {
    matches_at(slots, bytes, 0)
}

/// `off` is an offset that a scan with step `step` tests: a multiple of the
/// step at which the whole pattern fits.
pub open spec fn is_candidate(len: int, hay_len: int, step: int, off: int) -> bool {
    &&& 0 <= off
    &&& off + len <= hay_len
    &&& off % step == 0
}

/// `off` is the smallest tested offset at which the slots match.
pub open spec fn is_first_match(slots: Seq<Option<u8>>, hay: Seq<u8>, step: int, off: int) -> bool {
    &&& is_candidate(slots.len() as int, hay.len() as int, step, off)
    &&& matches_at(slots, hay, off)
    &&& forall|o: int|
        #![trigger matches_at(slots, hay, o)]
        0 <= o < off && is_candidate(slots.len() as int, hay.len() as int, step, o)
            ==> !matches_at(slots, hay, o)
}

/// No tested offset matches.
pub open spec fn has_no_match(slots: Seq<Option<u8>>, hay: Seq<u8>, step: int) -> bool {
    forall|o: int|
        #![trigger matches_at(slots, hay, o)]
        is_candidate(slots.len() as int, hay.len() as int, step, o) ==> !matches_at(slots, hay, o)
}

/// A byte pattern of `N` slots, each a required byte or a wildcard (`None`).
#[derive(PartialEq, Eq, Clone, Copy, Debug)]
pub struct Pattern<const N: usize>(pub [Option<u8>; N]);

impl<const N: usize> View for Pattern<N> {
    type V = Seq<Option<u8>>;

    open spec fn view(&self) -> Seq<Option<u8>> {
        self.0@
    }
}

impl<const N: usize> Pattern<N> {
    /// The slots of the pattern.
    pub fn slots(&self) -> (r: &[Option<u8>; N])
        ensures
            r@ == self@,
    {
        &self.0
    }

    /// Whether the slots match `hay` at offset `off`.
    pub fn matches_at(&self, hay: &[u8], off: usize) -> (r: bool)
        ensures
            r == matches_at(self@, hay@, off as int),
    {
        if N > hay.len() || off > hay.len() - N {
            return false;
        }
        let mut i: usize = 0;
        while i < N
            invariant
                i <= N,
                self@.len() == N,
                off + N <= hay@.len(),
                forall|j: int| 0 <= j < i ==> #[trigger] slot_accepts(self@[j], hay@[off + j]),
            decreases N - i,
        {
            match self.0[i] {
                Some(v) => {
                    assert(off + i < hay.len());
                    if hay[off + i] != v {
                        assert(!slot_accepts(self@[i as int], hay@[off + i]));
                        return false;
                    }
                },
                None => {},
            }
            i = i + 1;
        }
        true
    }

    /// Whether the pattern matches a candidate of exactly `N` bytes.
    pub fn matches_exactly(&self, bytes: &[u8]) -> (r: bool)
        ensures
            r == matches_exactly(self@, bytes@),
    {
        bytes.len() == N && self.matches_at(bytes, 0)
    }

    /// Whether the pattern matches the first `N` bytes of `bytes`; any bytes
    /// after them are ignored.
    pub fn matches_prefix(&self, bytes: &[u8]) -> (r: bool)
        ensures
            r == matches_prefix(self@, bytes@),
    {
        self.matches_at(bytes, 0)
    }

    /// The smallest offset that is a multiple of `step` at which the pattern
    /// matches `hay`, or `None` when no such offset exists.
    pub fn scan(&self, hay: &[u8], step: usize) -> (r: Option<usize>)
        requires
            step >= 1,
        ensures
            match r {
                Some(o) => is_first_match(self@, hay@, step as int, o as int),
                None => has_no_match(self@, hay@, step as int),
            },
    {
        if N > hay.len() {
            assert(has_no_match(self@, hay@, step as int));
            return None;
        }
        let last: usize = hay.len() - N;
        let mut off: usize = 0;
        while off <= last
            invariant
                step >= 1,
                last + N == hay@.len(),
                self@.len() == N,
                off % step == 0,
                off <= last + step,
                forall|o: int|
                    #![trigger matches_at(self@, hay@, o)]
                    0 <= o < off && is_candidate(N as int, hay@.len() as int, step as int, o)
                        ==> !matches_at(self@, hay@, o),
            decreases last + step - off,
        {
            if self.matches_at(hay, off) {
                return Some(off);
            }
            if last - off < step {
                assert forall|o: int|
                    #![trigger matches_at(self@, hay@, o)]
                    is_candidate(N as int, hay@.len() as int, step as int, o) implies !matches_at(self@, hay@, o) by {
                    if off < o < off + step {
                        lemma_no_multiple_between(o, off as int, step as int);
                    }
                }
                return None;
            }
            proof {
                assert forall|o: int|
                    #![trigger matches_at(self@, hay@, o)]
                    0 <= o < off + step && is_candidate(N as int, hay@.len() as int, step as int, o)
                        implies !matches_at(self@, hay@, o) by {
                    if o > off {
                        lemma_no_multiple_between(o, off as int, step as int);
                    }
                }
            }
            proof {
                lemma_next_multiple(off as int, step as int);
            }
            off = off + step;
        }
        None
    }
}

impl<const N: usize> From<[Option<u8>; N]> for Pattern<N> {
    fn from(value: [Option<u8>; N]) -> (r: Pattern<N>)
        ensures
            r@ == value@,
    {
        Pattern(value)
    }
}

impl<const N: usize> vstd::std_specs::convert::FromSpecImpl<[Option<u8>; N]> for Pattern<N> {
    open spec fn obeys_from_spec() -> bool {
        true
    }

    open spec fn from_spec(v: [Option<u8>; N]) -> Pattern<N> {
        Pattern(v)
    }
}

impl<'a, const N: usize> PartialEq<&'a [u8]> for Pattern<N> {
    /// Equal when the candidate has exactly `N` bytes and every required
    /// slot equals its byte.
    fn eq(&self, other: &&'a [u8]) -> (r: bool) {
        self.matches_exactly(*other)
    }
}

impl<'a, const N: usize> vstd::std_specs::cmp::PartialEqSpecImpl<&'a [u8]> for Pattern<N> {
    open spec fn obeys_eq_spec() -> bool {
        true
    }

    open spec fn eq_spec(&self, other: &&'a [u8]) -> bool {
        matches_exactly(self@, other@)
    }
}

impl<'a, const N: usize> PartialEq<Pattern<N>> for &'a [u8] {
    fn eq(&self, other: &Pattern<N>) -> (r: bool) {
        other.matches_exactly(*self)
    }
}

impl<'a, const N: usize> vstd::std_specs::cmp::PartialEqSpecImpl<Pattern<N>> for &'a [u8] {
    open spec fn obeys_eq_spec() -> bool {
        true
    }

    open spec fn eq_spec(&self, other: &Pattern<N>) -> bool {
        matches_exactly(other@, self@)
    }
}

impl<'a, const N: usize> PartialEq<&'a [u8; N]> for Pattern<N> {
    fn eq(&self, other: &&'a [u8; N]) -> (r: bool) {
        self.matches_exactly(other.as_slice())
    }
}

impl<'a, const N: usize> vstd::std_specs::cmp::PartialEqSpecImpl<&'a [u8; N]> for Pattern<N> {
    open spec fn obeys_eq_spec() -> bool {
        true
    }

    open spec fn eq_spec(&self, other: &&'a [u8; N]) -> bool {
        matches_exactly(self@, other@)
    }
}

impl<'a, const N: usize> PartialEq<Pattern<N>> for &'a [u8; N] {
    fn eq(&self, other: &Pattern<N>) -> (r: bool) {
        other.matches_exactly(self.as_slice())
    }
}

impl<'a, const N: usize> vstd::std_specs::cmp::PartialEqSpecImpl<Pattern<N>> for &'a [u8; N] {
    open spec fn obeys_eq_spec() -> bool {
        true
    }

    open spec fn eq_spec(&self, other: &Pattern<N>) -> bool {
        matches_exactly(other@, self@)
    }
}

/// A pattern matches exactly the byte sequences of its own length that agree
/// with it at every required slot, whatever they hold at the wildcard slots.
pub proof fn lemma_wildcards_accept_any_byte(slots: Seq<Option<u8>>, bytes: Seq<u8>)
    requires
        bytes.len() == slots.len(),
    ensures
        matches_exactly(slots, bytes) <==> (forall|i: int|
            0 <= i < slots.len() && #[trigger] slots[i] is Some ==> bytes[i] == slots[i]->0),
{
    if forall|i: int| 0 <= i < slots.len() && #[trigger] slots[i] is Some ==> bytes[i] == slots[i]->0 {
        assert forall|i: int| 0 <= i < slots.len() implies #[trigger] slot_accepts(slots[i], bytes[0 + i]) by {
            assert(bytes[0 + i] == bytes[i]);
        }
    }
    if matches_exactly(slots, bytes) {
        assert forall|i: int| 0 <= i < slots.len() && #[trigger] slots[i] is Some implies bytes[i] == slots[i]->0 by {
            assert(slot_accepts(slots[i], bytes[0 + i]));
        }
    }
}

/// Comparing a pattern with a byte slice gives the same answer in either
/// operand order.
pub proof fn lemma_match_is_symmetric<const N: usize>(p: Pattern<N>, bytes: &[u8])
    ensures
        <Pattern<N> as vstd::std_specs::cmp::PartialEqSpec<&[u8]>>::eq_spec(&p, &bytes)
            == <&[u8] as vstd::std_specs::cmp::PartialEqSpec<Pattern<N>>>::eq_spec(&bytes, &p),
{
}

/// A scan's answer is determined by the haystack, the pattern and the step:
/// at most one offset is the first match, and it excludes "not found".
pub proof fn lemma_scan_is_deterministic(
    slots: Seq<Option<u8>>,
    hay: Seq<u8>,
    step: int,
    a: int,
    b: int,
)
    requires
        step >= 1,
    ensures
        is_first_match(slots, hay, step, a) && is_first_match(slots, hay, step, b) ==> a == b,
        is_first_match(slots, hay, step, a) ==> !has_no_match(slots, hay, step),
{
    if is_first_match(slots, hay, step, a) && is_first_match(slots, hay, step, b) {
        if a < b {
            assert(!matches_at(slots, hay, a));
        } else if b < a {
            assert(!matches_at(slots, hay, b));
        }
    }
    if is_first_match(slots, hay, step, a) {
        assert(matches_at(slots, hay, a));
    }
}

/// Adding the step keeps a multiple of it a multiple.
proof fn lemma_next_multiple(base: int, step: int)
    requires
        step >= 1,
        base % step == 0,
    ensures
        (base + step) % step == 0,
{
    vstd::arithmetic::div_mod::lemma_mod_add_multiples_vanish(base, step);
}

/// No multiple of `step` lies strictly between two consecutive multiples.
proof fn lemma_no_multiple_between(o: int, base: int, step: int)
    requires
        step >= 1,
        base >= 0,
        base % step == 0,
        base < o < base + step,
    ensures
        o % step != 0,
{
    assert(o % step != 0) by (nonlinear_arith)
        requires
            step >= 1,
            base >= 0,
            base % step == 0,
            base < o < base + step,
    {
        vstd::arithmetic::div_mod::lemma_fundamental_div_mod(o, step);
        vstd::arithmetic::div_mod::lemma_fundamental_div_mod(base, step);
    }
}

} // verus!
