//! The ui's custom styles.
use vstd::prelude::*;

verus! {

/// The button style without a background, for icon buttons.
#[derive(Debug, Clone, Copy, PartialEq, Eq, Structural)]
pub struct NoBackgroundStyle;

} // verus!
