//! The gravity component.
use vstd::prelude::*;

use crate::fixed::Fixed;

verus! {

/// A constant downward pull, subtracted from the vertical velocity once per
/// physics step.
#[derive(Clone, Copy, PartialEq, Eq, Structural, Debug)]
pub struct Gravity(pub Fixed);

} // verus!
