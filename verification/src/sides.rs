//! The six cube-face directions and bit-encoded sets of them.
//!
//! A `Sides` value is an 8-bit mask of which only the six low bits are
//! meaningful; equality compares the six meaningful bits alone. The textual
//! encoding maps each direction to one lower-case letter, with `'.'` standing
//! for the full set.

use vstd::prelude::*;

verus! {

#[derive(Copy, Clone, Debug, Eq, PartialEq, Structural)]
pub enum Side {
    Front,
    Back,
    Up,
    Down,
    Left,
    Right,
}

impl Side {
    /// The bit that marks this side inside a `Sides` mask.
    pub open spec fn mask_spec(self) -> u8 {
        match self {
            Side::Front => 0x01,
            Side::Back => 0x02,
            Side::Up => 0x04,
            Side::Down => 0x08,
            Side::Left => 0x10,
            Side::Right => 0x20,
        }
    }

    fn mask(self) -> (r: u8)
        ensures
            r == self.mask_spec(),
    {
        match self {
            Side::Front => 0x01,
            Side::Back => 0x02,
            Side::Up => 0x04,
            Side::Down => 0x08,
            Side::Left => 0x10,
            Side::Right => 0x20,
        }
    }

    pub open spec fn opposite_spec(self) -> Side {
        match self {
            Side::Front => Side::Back,
            Side::Back => Side::Front,
            Side::Up => Side::Down,
            Side::Down => Side::Up,
            Side::Left => Side::Right,
            Side::Right => Side::Left,
        }
    }

    pub fn opposite(self) -> (r: Side)
        ensures
            r == self.opposite_spec(),
    {
        match self {
            Side::Front => Side::Back,
            Side::Back => Side::Front,
            Side::Up => Side::Down,
            Side::Down => Side::Up,
            Side::Left => Side::Right,
            Side::Right => Side::Left,
        }
    }

    /// The letter that marks this side in the textual encoding.
    pub open spec fn to_char_spec(self) -> char {
        match self {
            Side::Front => 'f',
            Side::Back => 'b',
            Side::Up => 'u',
            Side::Down => 'd',
            Side::Left => 'l',
            Side::Right => 'r',
        }
    }

    pub fn to_char(self) -> (r: char)
        ensures
            r == self.to_char_spec(),
    {
        match self {
            Side::Front => 'f',
            Side::Back => 'b',
            Side::Up => 'u',
            Side::Down => 'd',
            Side::Left => 'l',
            Side::Right => 'r',
        }
    }

    pub open spec fn from_char_spec(c: char) -> Option<Side> {
        match c {
            'f' => Some(Side::Front),
            'b' => Some(Side::Back),
            'u' => Some(Side::Up),
            'd' => Some(Side::Down),
            'l' => Some(Side::Left),
            'r' => Some(Side::Right),
            _ => None,
        }
    }

    pub fn from_char(c: char) -> (r: Option<Side>)
        ensures
            r == Side::from_char_spec(c),
    {
        match c {
            'f' => Some(Side::Front),
            'b' => Some(Side::Back),
            'u' => Some(Side::Up),
            'd' => Some(Side::Down),
            'l' => Some(Side::Left),
            'r' => Some(Side::Right),
            _ => None,
        }
    }
}

/// Taking the opposite twice returns to the starting side.
pub proof fn lemma_opposite_involutive(s: Side)
    ensures
        s.opposite_spec().opposite_spec() == s,
{
}

/// A set of sides, encoded as a bit mask with six meaningful bits.
#[derive(Copy, Clone, Debug)]
pub struct Sides {
    bits: u8,
}

impl Sides {
    /// Membership: the side's bit is set in the mask.
    pub closed spec fn has(self, s: Side) -> bool {
        self.bits & s.mask_spec() != 0
    }

    pub closed spec fn empty_spec() -> Sides {
        Sides { bits: 0 }
    }

    pub closed spec fn all_spec() -> Sides {
        Sides { bits: 0xff }
    }

    pub closed spec fn from_side_spec(s: Side) -> Sides {
        Sides { bits: s.mask_spec() }
    }

    pub closed spec fn from_bits_spec(v: u8) -> Sides {
        Sides { bits: v }
    }

    pub closed spec fn union_spec(self, o: Sides) -> Sides {
        Sides { bits: self.bits | o.bits }
    }

    pub closed spec fn intersect_spec(self, o: Sides) -> Sides {
        Sides { bits: self.bits & o.bits }
    }

    pub closed spec fn complement_spec(self) -> Sides {
        Sides { bits: !self.bits }
    }

    pub closed spec fn minus_spec(self, o: Sides) -> Sides {
        Sides { bits: self.bits & !o.bits }
    }

    /// Equality of the six meaningful bits; the two unused high bits are
    /// ignored.
    pub closed spec fn spec_eq(self, o: Sides) -> bool {
        self.bits & 0x3f == o.bits & 0x3f
    }

    pub fn contains(self, side: Side) -> (r: bool)
        ensures
            r == self.has(side),
    {
        self.bits & side.mask() != 0
    }

    pub fn empty() -> (r: Sides)
        ensures
            r == Sides::empty_spec(),
    {
        Sides { bits: 0 }
    }

    pub fn all() -> (r: Sides)
        ensures
            r == Sides::all_spec(),
    {
        Sides { bits: 0xff }
    }

    pub fn union(self, o: Sides) -> (r: Sides)
        ensures
            r == self.union_spec(o),
    {
        Sides { bits: self.bits | o.bits }
    }

    pub fn intersect(self, o: Sides) -> (r: Sides)
        ensures
            r == self.intersect_spec(o),
    {
        Sides { bits: self.bits & o.bits }
    }

    pub fn complement(self) -> (r: Sides)
        ensures
            r == self.complement_spec(),
    {
        Sides { bits: !self.bits }
    }

    pub fn minus(self, o: Sides) -> (r: Sides)
        ensures
            r == self.minus_spec(o),
    {
        Sides { bits: self.bits & !o.bits }
    }
}

impl From<Side> for Sides {
    fn from(s: Side) -> (r: Sides) {
        Sides { bits: s.mask() }
    }
}

impl vstd::std_specs::convert::FromSpecImpl<Side> for Sides {
    open spec fn obeys_from_spec() -> bool {
        true
    }

    open spec fn from_spec(s: Side) -> Sides {
        Sides::from_side_spec(s)
    }
}

impl From<u8> for Sides {
    fn from(v: u8) -> (r: Sides) {
        Sides { bits: v }
    }
}

impl vstd::std_specs::convert::FromSpecImpl<u8> for Sides {
    open spec fn obeys_from_spec() -> bool {
        true
    }

    open spec fn from_spec(v: u8) -> Sides {
        Sides::from_bits_spec(v)
    }
}

impl PartialEq for Sides {
    fn eq(&self, o: &Sides) -> (r: bool) {
        self.bits & 0x3f == o.bits & 0x3f
    }
}

impl vstd::std_specs::cmp::PartialEqSpecImpl for Sides {
    open spec fn obeys_eq_spec() -> bool {
        true
    }

    open spec fn eq_spec(&self, o: &Sides) -> bool {
        self.spec_eq(*o)
    }
}

impl Default for Sides {
    fn default() -> (r: Sides)
        ensures
            r == Sides::empty_spec(),
    {
        Sides { bits: 0 }
    }
}

/// The empty set holds no side.
pub proof fn lemma_empty_has_none(s: Side)
    ensures
        !Sides::empty_spec().has(s),
{
    let m = s.mask_spec();
    assert((0u8 & m) == 0) by (bit_vector);
}

/// The full set holds every side.
pub proof fn lemma_all_has_every(s: Side)
    ensures
        Sides::all_spec().has(s),
{
    let m = s.mask_spec();
    assert(m != 0 ==> (0xffu8 & m) != 0) by (bit_vector);
}

/// A singleton set holds exactly its own side.
pub proof fn lemma_from_side_has(s: Side, t: Side)
    ensures
        Sides::from_side_spec(s).has(t) <==> s == t,
{
    let m1 = s.mask_spec();
    let m2 = t.mask_spec();
    assert(((m1 == 1 || m1 == 2 || m1 == 4 || m1 == 8 || m1 == 16 || m1 == 32) && (m2 == 1
        || m2 == 2 || m2 == 4 || m2 == 8 || m2 == 16 || m2 == 32)) ==> ((m1 & m2 != 0) <==> m1
        == m2)) by (bit_vector);
}

/// Union is membership-wise disjunction.
pub proof fn lemma_union_has(a: Sides, b: Sides, s: Side)
    ensures
        a.union_spec(b).has(s) <==> a.has(s) || b.has(s),
{
    let x = a.bits;
    let y = b.bits;
    let m = s.mask_spec();
    assert(((x | y) & m != 0) <==> ((x & m != 0) || (y & m != 0))) by (bit_vector);
}

/// Intersection is membership-wise conjunction.
pub proof fn lemma_intersect_has(a: Sides, b: Sides, s: Side)
    ensures
        a.intersect_spec(b).has(s) <==> a.has(s) && b.has(s),
{
    let x = a.bits;
    let y = b.bits;
    let m = s.mask_spec();
    assert((m == 1 || m == 2 || m == 4 || m == 8 || m == 16 || m == 32) ==> (((x & y) & m != 0)
        <==> ((x & m != 0) && (y & m != 0)))) by (bit_vector);
}

/// Complement negates membership.
pub proof fn lemma_complement_has(a: Sides, s: Side)
    ensures
        a.complement_spec().has(s) <==> !a.has(s),
{
    let x = a.bits;
    let m = s.mask_spec();
    assert((m == 1 || m == 2 || m == 4 || m == 8 || m == 16 || m == 32) ==> ((!x & m != 0) <==> (x
        & m == 0))) by (bit_vector);
}

/// Difference keeps a side exactly when the left set has it and the right
/// set does not.
pub proof fn lemma_minus_has(a: Sides, b: Sides, s: Side)
    ensures
        a.minus_spec(b).has(s) <==> a.has(s) && !b.has(s),
{
    let x = a.bits;
    let y = b.bits;
    let m = s.mask_spec();
    assert((m == 1 || m == 2 || m == 4 || m == 8 || m == 16 || m == 32) ==> (((x & !y) & m != 0)
        <==> ((x & m != 0) && (y & m == 0)))) by (bit_vector);
}

/// Two masks are equal on the six meaningful bits exactly when they agree on
/// every side's membership.
pub proof fn lemma_eq_is_same_membership(a: Sides, b: Sides)
    ensures
        a.spec_eq(b) <==> (forall|s: Side| a.has(s) == b.has(s)),
{
    let x = a.bits;
    let y = b.bits;
    if a.spec_eq(b) {
        assert forall|s: Side| a.has(s) == b.has(s) by {
            let m = s.mask_spec();
            assert(((m == 1 || m == 2 || m == 4 || m == 8 || m == 16 || m == 32) && (x & 0x3f == y
                & 0x3f)) ==> ((x & m != 0) <==> (y & m != 0))) by (bit_vector);
        }
    }
    if forall|s: Side| a.has(s) == b.has(s) {
        assert(a.has(Side::Front) == b.has(Side::Front));
        assert(a.has(Side::Back) == b.has(Side::Back));
        assert(a.has(Side::Up) == b.has(Side::Up));
        assert(a.has(Side::Down) == b.has(Side::Down));
        assert(a.has(Side::Left) == b.has(Side::Left));
        assert(a.has(Side::Right) == b.has(Side::Right));
        assert((((x & 1 != 0) <==> (y & 1 != 0)) && ((x & 2 != 0) <==> (y & 2 != 0)) && ((x & 4
            != 0) <==> (y & 4 != 0)) && ((x & 8 != 0) <==> (y & 8 != 0)) && ((x & 16 != 0) <==> (y
            & 16 != 0)) && ((x & 32 != 0) <==> (y & 32 != 0))) ==> x & 0x3f == y
            & 0x3f) by (bit_vector);
    }
}

/// A set built from raw bits holds exactly the sides whose bit is set.
pub proof fn lemma_from_bits_has(v: u8, s: Side)
    ensures
        Sides::from_bits_spec(v).has(s) <==> v & s.mask_spec() != 0,
{
}

/// A side's singleton set and that set's complement split the full set: their
/// union is everything and their intersection is empty.
pub proof fn lemma_side_complement_partition(s: Side)
    ensures
        Sides::from_side_spec(s).union_spec(Sides::from_side_spec(s).complement_spec()).spec_eq(
            Sides::all_spec(),
        ),
        Sides::from_side_spec(s).intersect_spec(
            Sides::from_side_spec(s).complement_spec(),
        ).spec_eq(Sides::empty_spec()),
{
    let m = s.mask_spec();
    assert(((m | !m) & 0x3f) == (0xffu8 & 0x3f)) by (bit_vector);
    assert(((m & !m) & 0x3f) == (0u8 & 0x3f)) by (bit_vector);
}

/// The sides that one character of the textual encoding stands for.
pub open spec fn char_sides_spec(c: char) -> Sides {
    if c == '.' {
        Sides::all_spec()
    } else {
        match Side::from_char_spec(c) {
            Some(s) => Sides::from_side_spec(s),
            None => Sides::empty_spec(),
        }
    }
}

fn char_sides(c: char) -> (r: Sides)
    ensures
        r == char_sides_spec(c),
{
    if c == '.' {
        Sides::all()
    } else {
        match Side::from_char(c) {
            Some(s) => Sides::from(s),
            None => Sides::empty(),
        }
    }
}

/// The set encoded by a piece of text: the union of what each character
/// stands for. An empty text is the empty set.
pub open spec fn sides_from_text_spec(t: Seq<char>) -> Sides
    decreases t.len(),
{
    if t.len() == 0 {
        Sides::empty_spec()
    } else {
        char_sides_spec(t[0]).union_spec(sides_from_text_spec(t.skip(1)))
    }
}

fn sides_from_text_sub(s: &str, i: usize, n: usize) -> (r: Sides)
    requires
        n == s@.len(),
        i <= n,
    ensures
        r == sides_from_text_spec(s@.skip(i as int)),
    decreases n - i,
{
    if i == n {
        assert(s@.skip(i as int).len() == 0);
        Sides::empty()
    } else {
        let c = s.get_char(i);
        let rest = sides_from_text_sub(s, i + 1, n);
        assert(s@.skip(i as int).skip(1) =~= s@.skip(i + 1));
        assert(s@.skip(i as int)[0] == s@[i as int]);
        char_sides(c).union(rest)
    }
}

impl Sides {
    /// Decodes the textual encoding: each letter adds its side, `'.'` adds
    /// the full set, any other character adds nothing.
    pub fn from_text(s: &str) -> (r: Sides)
        ensures
            r == sides_from_text_spec(s@),
    {
        let n = s.unicode_len();
        let r = sides_from_text_sub(s, 0, n);
        assert(s@.skip(0) =~= s@);
        r
    }
}

/// The letters of the sides present, in the fixed ascending bit order.
pub open spec fn sides_letters_spec(v: Sides) -> Seq<char> {
    (if v.has(Side::Front) {
        seq!['f']
    } else {
        Seq::empty()
    }) + (if v.has(Side::Back) {
        seq!['b']
    } else {
        Seq::empty()
    }) + (if v.has(Side::Up) {
        seq!['u']
    } else {
        Seq::empty()
    }) + (if v.has(Side::Down) {
        seq!['d']
    } else {
        Seq::empty()
    }) + (if v.has(Side::Left) {
        seq!['l']
    } else {
        Seq::empty()
    }) + (if v.has(Side::Right) {
        seq!['r']
    } else {
        Seq::empty()
    })
}

impl Sides {
    /// Renders the set as its present letters between brackets, in the fixed
    /// ascending bit order.
    pub fn to_text(self) -> (r: String)
        ensures
            r@ == seq!['['] + sides_letters_spec(self) + seq![']'],
    {
        proof {
            reveal_strlit("[");
            reveal_strlit("]");
            reveal_strlit("f");
            reveal_strlit("b");
            reveal_strlit("u");
            reveal_strlit("d");
            reveal_strlit("l");
            reveal_strlit("r");
        }
        let mut out = String::from_str("[");
        if self.contains(Side::Front) {
            out.append("f");
        }
        if self.contains(Side::Back) {
            out.append("b");
        }
        if self.contains(Side::Up) {
            out.append("u");
        }
        if self.contains(Side::Down) {
            out.append("d");
        }
        if self.contains(Side::Left) {
            out.append("l");
        }
        if self.contains(Side::Right) {
            out.append("r");
        }
        out.append("]");
        proof {
            assert(out@ =~= seq!['['] + sides_letters_spec(self) + seq![']']);
        }
        out
    }
}

/// The fixed order in which iteration yields sides.
pub open spec fn side_order() -> Seq<Side> {
    seq![Side::Front, Side::Back, Side::Up, Side::Down, Side::Left, Side::Right]
}

/// The side whose mask equals the given single bit, if any.
pub open spec fn side_of_mask_spec(m: u8) -> Option<Side> {
    match m {
        0x01 => Some(Side::Front),
        0x02 => Some(Side::Back),
        0x04 => Some(Side::Up),
        0x08 => Some(Side::Down),
        0x10 => Some(Side::Left),
        0x20 => Some(Side::Right),
        _ => None,
    }
}

fn side_of_mask(m: u8) -> (r: Option<Side>)
    ensures
        r == side_of_mask_spec(m),
{
    match m {
        0x01 => Some(Side::Front),
        0x02 => Some(Side::Back),
        0x04 => Some(Side::Up),
        0x08 => Some(Side::Down),
        0x10 => Some(Side::Left),
        0x20 => Some(Side::Right),
        _ => None,
    }
}

/// The sides still to be yielded by an iterator whose cursor stands at the
/// given bit: the present sides with a mask at or above it, in mask order.
pub open spec fn iter_rest_spec(v: Sides, bit: u8) -> Seq<Side>
    decreases 0x40 - bit when bit >= 1
{
    if bit > 0x20 {
        Seq::empty()
    } else {
        let tail = iter_rest_spec(v, (bit * 2) as u8);
        match side_of_mask_spec(bit) {
            Some(s) => if v.has(s) {
                seq![s] + tail
            } else {
                tail
            },
            None => tail,
        }
    }
}

/// Yields the sides of a set one at a time, always in the fixed ascending
/// bit order, whatever order the set was built in.
pub struct SidesIterator {
    sides: Sides,
    bit: u8,
}

impl SidesIterator {
    /// The sides this iterator has still to yield.
    pub closed spec fn remaining(self) -> Seq<Side> {
        iter_rest_spec(self.sides, self.bit)
    }

    /// The cursor bit: the mask position the iterator will look at next.
    pub closed spec fn cursor(self) -> u8 {
        self.bit
    }

    pub closed spec fn wf(self) -> bool {
        self.bit == 1 || self.bit == 2 || self.bit == 4 || self.bit == 8 || self.bit == 16
            || self.bit == 32 || self.bit == 64
    }

    pub fn new(sides: Sides) -> (r: SidesIterator)
        ensures
            r.wf(),
            r.remaining() == iter_rest_spec(sides, 1),
    {
        SidesIterator { sides, bit: 1 }
    }

    /// The next present side in the fixed order, or `None` when the set is
    /// exhausted.
    pub fn next(&mut self) -> (r: Option<Side>)
        requires
            old(self).wf(),
        ensures
            final(self).wf(),
            r == (if old(self).remaining().len() == 0 {
                Option::<Side>::None
            } else {
                Some(old(self).remaining()[0])
            }),
            final(self).remaining() == (if old(self).remaining().len() == 0 {
                Seq::<Side>::empty()
            } else {
                old(self).remaining().skip(1)
            }),
        decreases 0x40 - old(self).cursor(),
    {
        if self.bit > 0x20 {
            return None;
        }
        let here = side_of_mask(self.bit);
        self.bit = self.bit * 2;
        if let Some(s) = here {
            if self.sides.contains(s) {
                assert(old(self).remaining() == seq![s] + self.remaining());
                assert((seq![s] + self.remaining()).skip(1) =~= self.remaining());
                return Some(s);
            }
        }
        self.next()
    }

    /// All sides still to come, in order, as one vector.
    pub fn collect(&mut self) -> (r: Vec<Side>)
        requires
            old(self).wf(),
        ensures
            final(self).wf(),
            r@ == old(self).remaining(),
            final(self).remaining().len() == 0,
    {
        let ghost orig = self.remaining();
        let mut out: Vec<Side> = Vec::new();
        loop
            invariant
                self.wf(),
                orig == old(self).remaining(),
                out@ + self.remaining() == orig,
            decreases self.remaining().len(),
        {
            match self.next() {
                Some(s) => {
                    out.push(s);
                    assert(out@ + self.remaining() =~= orig);
                },
                None => {
                    assert(out@ =~= orig);
                    return out;
                },
            }
        }
    }
}

impl Sides {
    /// The sides of this set in the fixed ascending bit order.
    pub fn into_iter(self) -> (r: SidesIterator)
        ensures
            r.wf(),
            r.remaining() == iter_rest_spec(self, 1),
    {
        SidesIterator::new(self)
    }
}

} // verus!
