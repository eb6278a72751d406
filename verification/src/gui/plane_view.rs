use vstd::prelude::*;

verus! {

/// A plain background plane that other views are drawn on; the drawing
/// itself belongs to the windowing front end.
pub struct PlaneView;

} // verus!
