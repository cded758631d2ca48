//! The control decisions of the recursive shader.
//!
//! The radiance recurrence walks a ray through the scene: at each level it
//! either stops (bounce budget spent, ray escaped, or the material absorbed
//! the ray) or recurses with one bounce less.  The floating-point color
//! arithmetic lives with the renderer; the decision of which of those four
//! things happens — and that the recursion depth strictly shrinks — is exact
//! and is pinned down here.

use vstd::prelude::*;

verus! {

/// What one level of the radiance recurrence does next.
#[derive(Clone, Copy, Debug, PartialEq, Eq, Structural)]
pub enum ShadeAction {
    /// The bounce budget is spent: contribute black, gather no more light.
    Exhausted,
    /// The ray hit nothing: contribute the scene background color.
    Background,
    /// The material absorbed the ray: contribute its emission alone.
    EmissionOnly,
    /// The material scattered the ray: contribute emission plus the
    /// attenuated radiance of the scattered ray, shaded with the remaining
    /// bounce budget.
    Scatter { remaining_depth: u64 },
}

/// Decides one level of the radiance recurrence from the remaining bounce
/// budget and the two facts the intersection and scatter tests report.
///
/// A budget of zero always ends the recursion, whatever the scene holds; a
/// scatter always hands the recursion a strictly smaller budget, so a shade
/// that starts with budget `d` makes at most `d` bounces.
pub fn shade_step(depth: u64, hit_something: bool, scattered: bool) -> (r: ShadeAction)
    ensures
        depth == 0 ==> r == ShadeAction::Exhausted,
        depth > 0 && !hit_something ==> r == ShadeAction::Background,
        depth > 0 && hit_something && !scattered ==> r == ShadeAction::EmissionOnly,
        depth > 0 && hit_something && scattered ==> r == (ShadeAction::Scatter {
            remaining_depth: (depth - 1) as u64,
        }),
        forall|d: u64| r == (ShadeAction::Scatter { remaining_depth: d }) ==> d < depth,
{
    if depth == 0 {
        ShadeAction::Exhausted
    } else if !hit_something {
        ShadeAction::Background
    } else if !scattered {
        ShadeAction::EmissionOnly
    } else {
        ShadeAction::Scatter { remaining_depth: depth - 1 }
    }
}

} // verus!
