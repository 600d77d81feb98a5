//! The look of a form.

use vstd::prelude::*;

verus! {

/// The look of a form. Nothing of it can be set so far: every form has the
/// look of the host's theme.
#[derive(Clone, Copy, Debug, PartialEq, Eq, Structural)]
pub struct Style {}

impl Default for Style {
    fn default() -> (style: Style)
        ensures
            style == (Style {  }),
    {
        Style {  }
    }
}

} // verus!
