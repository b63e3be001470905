//! Motion vectors: a two-dimensional displacement with 16-bit components,
//! componentwise wrapping arithmetic, and the median-of-three spatial
//! predictor used by block-based motion compensation.
use vstd::prelude::*;
use vstd::string::StringExecFns;

verus! {

/// A two-dimensional motion vector with signed 16-bit components.
#[derive(Debug, Clone, Copy, PartialEq, Eq, Structural)]
pub struct MV {
    /// Horizontal displacement.
    pub x: i16,
    /// Vertical displacement.
    pub y: i16,
}

/// The zero motion vector, the identity of motion-vector addition.
pub open spec fn zero_mv() -> MV {
    MV { x: 0, y: 0 }
}

/// Componentwise wrapping sum of two motion vectors.
pub open spec fn mv_add(a: MV, b: MV) -> MV {
    MV {
        x: vstd::wrapping::i16_specs::wrapping_add(a.x, b.x),
        y: vstd::wrapping::i16_specs::wrapping_add(a.y, b.y),
    }
}

/// Componentwise wrapping difference of two motion vectors.
pub open spec fn mv_sub(a: MV, b: MV) -> MV {
    MV {
        x: vstd::wrapping::i16_specs::wrapping_sub(a.x, b.x),
        y: vstd::wrapping::i16_specs::wrapping_sub(a.y, b.y),
    }
}

/// The median of three integers: the middle value when they are sorted.
pub open spec fn med3(a: int, b: int, c: int) -> int {
    vstd::math::max(
        vstd::math::min(a, b),
        vstd::math::min(vstd::math::max(a, b), c),
    )
}

impl MV {
    /// Builds a motion vector from its two components.
    pub fn new(x: i16, y: i16) -> (r: MV)
        ensures
            r == (MV { x, y }),
    {
        MV { x, y }
    }

    /// The zero motion vector, the identity of motion-vector addition.
    pub fn zero() -> (r: MV)
        ensures
            r == zero_mv(),
    {
        MV { x: 0, y: 0 }
    }

    /// Componentwise median of three motion vectors, the spatial predictor:
    /// each component of the result is the median of the three corresponding
    /// components.
    pub fn pred(a: MV, b: MV, c: MV) -> (r: MV)
        ensures
            r.x as int == med3(a.x as int, b.x as int, c.x as int),
            r.y as int == med3(a.y as int, b.y as int, c.y as int),
    {
        let x: i16 = if a.x < b.x {
            if b.x < c.x {
                b.x
            } else {
                if a.x < c.x { c.x } else { a.x }
            }
        } else {
            if b.x < c.x {
                if a.x < c.x { a.x } else { c.x }
            } else {
                b.x
            }
        };
        let y: i16 = if a.y < b.y {
            if b.y < c.y {
                b.y
            } else {
                if a.y < c.y { c.y } else { a.y }
            }
        } else {
            if b.y < c.y {
                if a.y < c.y { a.y } else { c.y }
            } else {
                b.y
            }
        };
        MV { x, y }
    }

    /// Renders the vector as its two decimal components separated by a
    /// comma.
    pub fn to_string(&self) -> (r: String)
        ensures
            r@ == mv_str(*self),
    {
        proof {
            reveal_strlit(",");
        }
        let mut out = String::new();
        append_component(&mut out, self.x);
        out.append(",");
        append_component(&mut out, self.y);
        proof {
            assert(out@ =~= mv_str(*self));
        }
        out
    }
}

impl core::ops::Add for MV {
    type Output = MV;

    /// Componentwise addition; each component wraps on 16-bit overflow.
    fn add(self, other: MV) -> (r: MV)
        ensures
            r == mv_add(self, other),
    {
        MV { x: self.x.wrapping_add(other.x), y: self.y.wrapping_add(other.y) }
    }
}

impl vstd::std_specs::ops::AddSpecImpl for MV {
    open spec fn obeys_add_spec() -> bool {
        true
    }

    open spec fn add_req(self, rhs: MV) -> bool {
        true
    }

    open spec fn add_spec(self, rhs: MV) -> MV {
        mv_add(self, rhs)
    }
}

impl core::ops::Sub for MV {
    type Output = MV;

    /// Componentwise subtraction; each component wraps on 16-bit overflow.
    fn sub(self, other: MV) -> (r: MV)
        ensures
            r == mv_sub(self, other),
    {
        MV { x: self.x.wrapping_sub(other.x), y: self.y.wrapping_sub(other.y) }
    }
}

impl vstd::std_specs::ops::SubSpecImpl for MV {
    open spec fn obeys_sub_spec() -> bool {
        true
    }

    open spec fn sub_req(self, rhs: MV) -> bool {
        true
    }

    open spec fn sub_spec(self, rhs: MV) -> MV {
        mv_sub(self, rhs)
    }
}

/// The character of a single decimal digit.
pub open spec fn digit_char(d: nat) -> char {
    if d == 0 {
        '0'
    } else if d == 1 {
        '1'
    } else if d == 2 {
        '2'
    } else if d == 3 {
        '3'
    } else if d == 4 {
        '4'
    } else if d == 5 {
        '5'
    } else if d == 6 {
        '6'
    } else if d == 7 {
        '7'
    } else if d == 8 {
        '8'
    } else {
        '9'
    }
}

/// The decimal rendering of a natural number, most significant digit first
/// and without leading zeroes (zero itself renders as one digit).
pub open spec fn dec_digits(n: nat) -> Seq<char>
    decreases n,
{
    if n < 10 {
        seq![digit_char(n)]
    } else {
        dec_digits(n / 10) + seq![digit_char(n % 10)]
    }
}

/// The decimal rendering of a 16-bit component, with a leading minus sign
/// when it is negative.
pub open spec fn int16_str(v: i16) -> Seq<char> {
    if v < 0 {
        seq!['-'] + dec_digits((-(v as int)) as nat)
    } else {
        dec_digits(v as nat)
    }
}

/// The textual rendering of a motion vector: its two components separated
/// by a comma.
pub open spec fn mv_str(v: MV) -> Seq<char> {
    int16_str(v.x) + seq![','] + int16_str(v.y)
}

/// Appends the character of one decimal digit.
fn append_digit(out: &mut String, d: u32)
    requires
        d < 10,
    ensures
        final(out)@ == old(out)@ + seq![digit_char(d as nat)],
{
    proof {
        reveal_strlit("0");
        reveal_strlit("1");
        reveal_strlit("2");
        reveal_strlit("3");
        reveal_strlit("4");
        reveal_strlit("5");
        reveal_strlit("6");
        reveal_strlit("7");
        reveal_strlit("8");
        reveal_strlit("9");
    }
    if d == 0 {
        out.append("0");
    } else if d == 1 {
        out.append("1");
    } else if d == 2 {
        out.append("2");
    } else if d == 3 {
        out.append("3");
    } else if d == 4 {
        out.append("4");
    } else if d == 5 {
        out.append("5");
    } else if d == 6 {
        out.append("6");
    } else if d == 7 {
        out.append("7");
    } else if d == 8 {
        out.append("8");
    } else {
        out.append("9");
    }
    proof {
        assert(out@ =~= old(out)@ + seq![digit_char(d as nat)]);
    }
}

/// Appends the decimal rendering of `n`, most significant digit first.
fn append_digits(out: &mut String, n: u32)
    ensures
        final(out)@ == old(out)@ + dec_digits(n as nat),
    decreases n,
{
    if n >= 10 {
        append_digits(out, n / 10);
        append_digit(out, n % 10);
        proof {
            assert(out@ =~= old(out)@ + dec_digits(n as nat));
        }
    } else {
        append_digit(out, n);
    }
}

/// Appends the decimal rendering of one signed component.
fn append_component(out: &mut String, v: i16)
    ensures
        final(out)@ == old(out)@ + int16_str(v),
{
    proof {
        reveal_strlit("-");
    }
    if v < 0 {
        out.append("-");
        let magnitude: u32 = (-(v as i32)) as u32;
        append_digits(out, magnitude);
        proof {
            assert(out@ =~= old(out)@ + int16_str(v));
        }
    } else {
        append_digits(out, v as u32);
    }
}

/// `med3` picks the middle value of its three arguments: it is one of them,
/// and it is what remains of their sum once the largest and the smallest are
/// taken away.
pub proof fn lemma_med3_is_middle(a: int, b: int, c: int)
    ensures
        med3(a, b, c) == a || med3(a, b, c) == b || med3(a, b, c) == c,
        med3(a, b, c) == a + b + c - vstd::math::max(a, vstd::math::max(b, c)) - vstd::math::min(
            a,
            vstd::math::min(b, c),
        ),
{
}

/// Adding the zero vector on either side leaves a motion vector unchanged.
pub proof fn lemma_add_zero(v: MV)
    ensures
        mv_add(zero_mv(), v) == v,
        mv_add(v, zero_mv()) == v,
{
}

/// Subtracting a motion vector from itself yields the zero vector.
pub proof fn lemma_sub_self(v: MV)
    ensures
        mv_sub(v, v) == zero_mv(),
{
}

} // verus!
