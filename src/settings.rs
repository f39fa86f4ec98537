use vstd::prelude::*;

use crate::color::Rgba;
use crate::curve::{sample_count, samples_for, PARAM_LIMIT};

verus! {

/// The bound on the shape parameters that a fresh model starts with.
pub const DEFAULT_PARAM_MAX: u32 = 20;

/// The thinnest stroke, in thousandths of a point.
pub const WIDTH_MIN_MILLI: u32 = 500;

/// The thickest stroke, in thousandths of a point.
pub const WIDTH_MAX_MILLI: u32 = 5000;

/// The stroke a fresh model starts with, in thousandths of a point.
pub const DEFAULT_WIDTH_MILLI: u32 = 1000;

/// What a `Spiro` holds, with its integers taken as mathematical ones.
pub struct SpiroView {
    pub a: int,
    pub b: int,
    pub c: int,
    pub color: Rgba,
    pub width_milli: int,
    pub param_max: int,
}

/// The settings of one curve: the three shape parameters `a`, `b`, `c`, their
/// shared upper bound, and the colour and stroke width it is drawn with.
#[derive(Clone, Copy, Debug, PartialEq, Eq, Structural)]
pub struct Spiro {
    a: u32,
    b: u32,
    c: u32,
    color: Rgba,
    width_milli: u32,
    param_max: u32,
}

/// `x` moved into `[lo, hi]`.
pub open spec fn clamp(x: int, lo: int, hi: int) -> int {
    if x < lo {
        lo
    } else if x > hi {
        hi
    } else {
        x
    }
}

/// A random `u32` in `[low, high)`.
///
/// Relies on `fastrand::u32`: for a non-empty range it returns a value drawn
/// from that range (it panics only on an empty one).
#[verifier::external_body]
fn random_in(low: u32, high: u32) -> (r: u32)
    requires
        low < high,
    ensures
        low <= r < high,
{
    fastrand::u32(low..high)
}

fn clamp_u32(x: u32, lo: u32, hi: u32) -> (r: u32)
    requires
        lo <= hi,
    ensures
        r == clamp(x as int, lo as int, hi as int),
{
    if x < lo {
        lo
    } else if x > hi {
        hi
    } else {
        x
    }
}

impl View for Spiro {
    type V = SpiroView;

    closed spec fn view(&self) -> SpiroView {
        SpiroView {
            a: self.a as int,
            b: self.b as int,
            c: self.c as int,
            color: self.color,
            width_milli: self.width_milli as int,
            param_max: self.param_max as int,
        }
    }
}

impl SpiroView {
    /// Every setting lies in its range: the bound in `[1, PARAM_LIMIT]`, each
    /// shape parameter in `[1, param_max]`, the stroke in
    /// `[WIDTH_MIN_MILLI, WIDTH_MAX_MILLI]`.
    pub open spec fn wf(self) -> bool {
        &&& 1 <= self.param_max <= PARAM_LIMIT
        &&& 1 <= self.a <= self.param_max
        &&& 1 <= self.b <= self.param_max
        &&& 1 <= self.c <= self.param_max
        &&& WIDTH_MIN_MILLI <= self.width_milli <= WIDTH_MAX_MILLI
    }

    /// The view with the bound replaced and the rest kept.
    pub open spec fn with_param_max(self, param_max: int) -> SpiroView {
        SpiroView { param_max, ..self }
    }

    /// The view with `a`, `b` and `c` replaced and the rest kept.
    pub open spec fn with_params(self, a: int, b: int, c: int) -> SpiroView {
        SpiroView { a, b, c, ..self }
    }
}

impl Default for Spiro {
    /// The starting settings before any draw: all shape parameters zero, light
    /// red, a stroke of one point and the default bound.
    fn default() -> (s: Spiro)
        ensures
            s@ == (SpiroView {
                a: 0,
                b: 0,
                c: 0,
                color: Rgba { r: 255, g: 128, b: 128, a: 255 },
                width_milli: DEFAULT_WIDTH_MILLI as int,
                param_max: DEFAULT_PARAM_MAX as int,
            }),
    {
        Spiro {
            a: 0,
            b: 0,
            c: 0,
            color: Rgba::light_red(),
            width_milli: DEFAULT_WIDTH_MILLI,
            param_max: DEFAULT_PARAM_MAX,
        }
    }
}

impl Spiro {
    /// Settings taken as given, with no check: `wf` tells whether they are
    /// in range.
    pub fn from_parts(
        a: u32,
        b: u32,
        c: u32,
        color: Rgba,
        width_milli: u32,
        param_max: u32,
    ) -> (s: Spiro)
        ensures
            s@ == (SpiroView {
                a: a as int,
                b: b as int,
                c: c as int,
                color,
                width_milli: width_milli as int,
                param_max: param_max as int,
            }),
    {
        Spiro { a, b, c, color, width_milli, param_max }
    }

    /// Whether every setting lies in its range.
    pub fn is_valid(&self) -> (r: bool)
        ensures
            r == self@.wf(),
    {
        1 <= self.param_max && self.param_max <= PARAM_LIMIT && 1 <= self.a && self.a
            <= self.param_max && 1 <= self.b && self.b <= self.param_max && 1 <= self.c && self.c
            <= self.param_max && WIDTH_MIN_MILLI <= self.width_milli && self.width_milli
            <= WIDTH_MAX_MILLI
    }

    /// Draws new shape parameters, each uniformly from `[1, param_max)`: the
    /// bound itself is never drawn. With a bound of 1 or less that range is
    /// empty, and all three become 1. Colour, stroke and bound are kept.
    pub fn shuffle(&mut self)
        ensures
            old(self)@.param_max >= 2 ==> {
                &&& 1 <= final(self)@.a < old(self)@.param_max
                &&& 1 <= final(self)@.b < old(self)@.param_max
                &&& 1 <= final(self)@.c < old(self)@.param_max
            },
            old(self)@.param_max < 2 ==> final(self)@.a == 1 && final(self)@.b == 1
                && final(self)@.c == 1,
            final(self)@ == old(self)@.with_params(final(self)@.a, final(self)@.b, final(self)@.c),
    {
        if self.param_max >= 2 {
            self.a = random_in(1, self.param_max);
            self.b = random_in(1, self.param_max);
            self.c = random_in(1, self.param_max);
        } else {
            self.a = 1;
            self.b = 1;
            self.c = 1;
        }
    }

    /// The settings to start with: `stored`, as it is, when there is one and
    /// it is in range; otherwise the defaults with freshly drawn shape
    /// parameters.
    pub fn new(stored: Option<Spiro>) -> (s: Spiro)
        ensures
            s@.wf(),
            stored is Some && stored->0@.wf() ==> s == stored->0,
            !(stored is Some && stored->0@.wf()) ==> {
                &&& 1 <= s@.a < DEFAULT_PARAM_MAX
                &&& 1 <= s@.b < DEFAULT_PARAM_MAX
                &&& 1 <= s@.c < DEFAULT_PARAM_MAX
                &&& s@.color == (Rgba { r: 255, g: 128, b: 128, a: 255 })
                &&& s@.width_milli == DEFAULT_WIDTH_MILLI
                &&& s@.param_max == DEFAULT_PARAM_MAX
            },
    {
        if let Some(s) = stored {
            if s.is_valid() {
                return s;
            }
        }
        let mut f = Spiro::default();
        f.shuffle();
        f
    }

    /// Sets `a`, moved into `[1, param_max]`.
    pub fn set_a(&mut self, v: u32)
        requires
            old(self)@.wf(),
        ensures
            final(self)@ == (SpiroView { a: clamp(v as int, 1, old(self)@.param_max), ..old(self)@ }),
            final(self)@.wf(),
    {
        self.a = clamp_u32(v, 1, self.param_max);
    }

    /// Sets `b`, moved into `[1, param_max]`.
    pub fn set_b(&mut self, v: u32)
        requires
            old(self)@.wf(),
        ensures
            final(self)@ == (SpiroView { b: clamp(v as int, 1, old(self)@.param_max), ..old(self)@ }),
            final(self)@.wf(),
    {
        self.b = clamp_u32(v, 1, self.param_max);
    }

    /// Sets `c`, moved into `[1, param_max]`.
    pub fn set_c(&mut self, v: u32)
        requires
            old(self)@.wf(),
        ensures
            final(self)@ == (SpiroView { c: clamp(v as int, 1, old(self)@.param_max), ..old(self)@ }),
            final(self)@.wf(),
    {
        self.c = clamp_u32(v, 1, self.param_max);
    }

    /// Sets the bound, moved into `[1, PARAM_LIMIT]`, and lowers to it any
    /// shape parameter that now lies above it.
    pub fn set_param_max(&mut self, v: u32)
        requires
            old(self)@.wf(),
        ensures
            final(self)@.param_max == clamp(v as int, 1, PARAM_LIMIT as int),
            final(self)@ == old(self)@.with_params(
                clamp(old(self)@.a, 1, final(self)@.param_max),
                clamp(old(self)@.b, 1, final(self)@.param_max),
                clamp(old(self)@.c, 1, final(self)@.param_max),
            ).with_param_max(final(self)@.param_max),
            final(self)@.wf(),
    {
        let m = clamp_u32(v, 1, PARAM_LIMIT);
        self.param_max = m;
        self.a = clamp_u32(self.a, 1, m);
        self.b = clamp_u32(self.b, 1, m);
        self.c = clamp_u32(self.c, 1, m);
    }

    /// Sets the stroke width, in thousandths of a point, moved into
    /// `[WIDTH_MIN_MILLI, WIDTH_MAX_MILLI]`.
    pub fn set_width_milli(&mut self, v: u32)
        requires
            old(self)@.wf(),
        ensures
            final(self)@ == (SpiroView {
                width_milli: clamp(v as int, WIDTH_MIN_MILLI as int, WIDTH_MAX_MILLI as int),
                ..old(self)@
            }),
            final(self)@.wf(),
    {
        self.width_milli = clamp_u32(v, WIDTH_MIN_MILLI, WIDTH_MAX_MILLI);
    }

    /// Sets the colour; any colour is allowed.
    pub fn set_color(&mut self, color: Rgba)
        ensures
            final(self)@ == (SpiroView { color, ..old(self)@ }),
    {
        self.color = color;
    }

    /// The first shape parameter, the one the domain `[0, 2π·a)` scales with.
    pub fn a(&self) -> (r: u32)
        ensures
            r == self@.a,
    {
        self.a
    }

    pub fn b(&self) -> (r: u32)
        ensures
            r == self@.b,
    {
        self.b
    }

    pub fn c(&self) -> (r: u32)
        ensures
            r == self@.c,
    {
        self.c
    }

    pub fn color(&self) -> (r: Rgba)
        ensures
            r == self@.color,
    {
        self.color
    }

    /// The stroke width in thousandths of a point.
    pub fn width_milli(&self) -> (r: u32)
        ensures
            r == self@.width_milli,
    {
        self.width_milli
    }

    pub fn param_max(&self) -> (r: u32)
        ensures
            r == self@.param_max,
    {
        self.param_max
    }

    /// How many points the sampler draws for these settings.
    pub fn sample_count(&self) -> (n: usize)
        requires
            self@.wf(),
        ensures
            n == samples_for(self@.a),
    {
        sample_count(self.a)
    }
}

} // verus!
