//! Components that carry a well-known name.

use vstd::prelude::*;

verus! {

/// A component with a well-known name, fixed when the program is built.
pub trait NamedComponent {
    const NAME: &'static str;

    /// Gets the name of the component.
    fn get_component_name(&self) -> (r: &'static str)
        ensures
            r@ == Self::NAME@,
    {
        Self::NAME
    }
}

} // verus!
