use vstd::prelude::*;

pub mod color;
pub mod math;
pub mod prelude;
pub mod wave;

pub use color::{color_from_hex, HexColorError, Rgba8};

verus! {

use crate::math::Scalar;
use crate::wave::Wave;

/// Either one color for a whole region, or a two-color gradient keyed by
/// the height above the boundary that bounds the region.
#[derive(Clone, Copy, Debug, PartialEq, Eq, Structural)]
pub enum Color {
    /// The same color everywhere in the region.
    Solid(Rgba8),
    /// A gradient from a start to an end color. The third part is the
    /// height at which the gradient reaches the end color, carried as an
    /// IEEE-754 bit pattern; the rendering layer divides the height of
    /// the queried point by it before interpolating.
    GradientByHeight(Rgba8, Rgba8, Scalar),
}

/// The index of the first set flag, or the length of the sequence where
/// no flag is set.
pub open spec fn first_below_index(below: Seq<bool>) -> int
    decreases below.len(),
{
    if below.len() == 0 {
        0
    } else if below[0] {
        0
    } else {
        1 + first_below_index(below.subrange(1, below.len() as int))
    }
}

/// What characterizes `first_below_index`: it is the position of the
/// first set flag, every flag before it is clear, and it is the length
/// exactly when every flag is clear.
pub proof fn lemma_first_below_index(below: Seq<bool>)
    ensures
        0 <= first_below_index(below) <= below.len(),
        first_below_index(below) < below.len() ==> below[first_below_index(below)],
        forall|j: int| 0 <= j < first_below_index(below) ==> !below[j],
    decreases below.len(),
{
    if below.len() > 0 && !below[0] {
        let rest = below.subrange(1, below.len() as int);
        lemma_first_below_index(rest);
        assert forall|j: int| 0 <= j < first_below_index(below) implies !below[j] by {
            if j > 0 {
                assert(!rest[j - 1]);
            }
        }
    }
}

/// What the compositor answers for one region index `i`: the region's
/// color, and for a gradient also which wave's height shades it. Region
/// zero lies below the whole stack, so its shading height is the negated
/// height above wave zero; every other region `i` is shaded by the
/// height above wave `i - 1`, the boundary crossed when entering it.
pub open spec fn spec_shading(colors: Seq<Color>, i: int) -> Shading
    recommends
        0 <= i < colors.len(),
{
    match colors[i] {
        Color::Solid(c) => Shading::Flat(c),
        Color::GradientByHeight(start, end, scale) => (Shading::Gradient {
            start,
            end,
            scale,
            wave: if i == 0 {
                0
            } else {
                (i - 1) as usize
            },
            negate: i == 0,
        }),
    }
}

/// The compositor's answer for a queried point: either a finished color,
/// or the two ends of a gradient together with which wave's height to
/// shade by. `wave` indexes the wave stack; `negate` asks for the
/// negated height; `scale` is the gradient's full-height parameter. The
/// rendering layer evaluates the gradient from these.
#[derive(Clone, Copy, Debug, PartialEq, Eq, Structural)]
pub enum Shading {
    Flat(Rgba8),
    Gradient { start: Rgba8, end: Rgba8, scale: Scalar, wave: usize, negate: bool },
}

/// An ordered stack of waves and one color more than waves. A point is
/// classified by the first wave it lies on or below: region `i` (color
/// `i`) is below wave `i`, and the last color lies beyond the whole
/// stack.
pub struct AbWaves {
    colors: Vec<Color>,
    waves: Vec<Wave>,
}

impl AbWaves {
    /// The colors, nearest region first.
    pub closed spec fn spec_colors(&self) -> Seq<Color> {
        self.colors@
    }

    /// The waves, nearest boundary first.
    pub closed spec fn spec_waves(&self) -> Seq<Wave> {
        self.waves@
    }

    /// Construction invariant: one color more than waves.
    pub open spec fn wf(&self) -> bool {
        self.spec_colors().len() == self.spec_waves().len() + 1
    }

    /// Builds the stack. Construction succeeds exactly when the counts
    /// agree — one color more than waves — and then keeps colors and
    /// waves as handed in, in their order; any other combination is a
    /// malformed scene and is refused.
    pub fn new(colors: Vec<Color>, waves: Vec<Wave>) -> (r: Option<AbWaves>)
        ensures
            r is Some <==> colors@.len() == waves@.len() + 1,
            r matches Some(s) ==> s.spec_colors() == colors@ && s.spec_waves() == waves@,
            r matches Some(s) ==> s.wf(),
    {
        if colors.len() >= 1 && colors.len() - 1 == waves.len() {
            Some(AbWaves { colors, waves })
        } else {
            None
        }
    }

    /// The colors, nearest region first.
    pub fn colors(&self) -> (r: &Vec<Color>)
        ensures
            r@ == self.spec_colors(),
    {
        &self.colors
    }

    /// The waves, nearest boundary first.
    pub fn waves(&self) -> (r: &Vec<Wave>)
        ensures
            r@ == self.spec_waves(),
    {
        &self.waves
    }

    /// Classifies a point against the stack, given for each wave whether
    /// the point lies on or below its boundary (height at most zero).
    /// The scan is an ordered first-match: waves may cross, so the first
    /// wave below which the point lies decides, and a point below no
    /// wave falls in the last region. The rendering layer computes the
    /// flags; the height of wave `i` at the point is its altitude there
    /// minus the sum of its series at the tangential coordinate.
    pub fn region_index(&self, below: &Vec<bool>) -> (i: usize)
        requires
            self.wf(),
            below@.len() == self.spec_waves().len(),
        ensures
            i == first_below_index(below@),
            i <= self.spec_waves().len(),
            i < self.spec_colors().len(),
    {
        proof {
            lemma_first_below_index(below@);
        }
        let n: usize = below.len();
        let mut j: usize = 0;
        while j < n
            invariant
                j <= n,
                n == below@.len(),
                n == self.spec_waves().len(),
                self.wf(),
                0 <= first_below_index(below@) <= below@.len(),
                first_below_index(below@) < below@.len() ==> below@[first_below_index(below@)],
                forall|t: int| 0 <= t < first_below_index(below@) ==> !below@[t],
                forall|t: int| 0 <= t < j ==> !below@[t],
            decreases n - j,
        {
            if below[j] {
                return j;
            }
            j += 1;
        }
        n
    }

    /// The compositor's full answer for a point, given the same per-wave
    /// flags as `region_index`: the color of the selected region, spelled
    /// out as a flat color or as a gradient with the wave whose height
    /// shades it. Region zero is shaded by the negated height above wave
    /// zero, region `i > 0` by the height above wave `i - 1`; the wave
    /// index handed back always falls inside the stack.
    pub fn shading_of(&self, below: &Vec<bool>) -> (s: Shading)
        requires
            self.wf(),
            below@.len() == self.spec_waves().len(),
            self.spec_waves().len() > 0,
        ensures
            s == spec_shading(self.spec_colors(), first_below_index(below@)),
            s matches Shading::Gradient { wave, .. } ==> wave < self.spec_waves().len(),
    {
        let i = self.region_index(below);
        match &self.colors[i] {
            Color::Solid(c) => Shading::Flat(*c),
            Color::GradientByHeight(start, end, scale) => {
                let wave: usize = if i == 0 {
                    0
                } else {
                    i - 1
                };
                Shading::Gradient { start: *start, end: *end, scale: *scale, wave, negate: i == 0 }
            },
        }
    }
}

} // verus!
