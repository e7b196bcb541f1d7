//! Small conversions that the rest of the crate leans on.

pub mod pgint_dur;
pub mod stefan_traits;
