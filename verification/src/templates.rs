//! Values that message templates render.

use vstd::prelude::*;

verus! {

/// A value that has a form for the message templates to render.
pub trait ToTemplate {
    /// The form the templates receive.
    type Template;

    /// The value in the form the templates receive.
    fn to_template(&self) -> Self::Template;
}

} // verus!
