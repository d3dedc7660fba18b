//! Caller-supplied text transformations for the filter pre-pass.
//!
//! A filter takes the serialized document representation and returns a
//! transformed one. Filters are the caller's code: the library stores them,
//! runs them in registration order, and assumes nothing about what any one
//! of them computes.

use vstd::prelude::*;

verus! {

/// A caller-supplied text-to-text transformation. Opaque to the library:
/// nothing is known of the stored function beyond its type; a clone is
/// another handle to the same function.
#[verifier::external_body]
pub struct TextFilter {
    f: std::rc::Rc<dyn Fn(String) -> String>,
}

impl Clone for TextFilter {
    /// Another handle to the same caller-supplied transformation.
    ///
    /// Relies on `std::rc::Rc::clone` only to share the stored closure;
    /// nothing is stated of it.
    #[verifier::external_body]
    fn clone(&self) -> TextFilter {
        TextFilter { f: std::rc::Rc::clone(&self.f) }
    }
}

impl TextFilter {
    /// Wraps a caller-supplied transformation.
    ///
    /// Relies on `std::rc::Rc::new` only to store the closure; nothing is
    /// assumed of the closure itself, so there is nothing to state.
    #[verifier::external_body]
    pub fn new<F: 'static + Fn(String) -> String>(f: F) -> TextFilter {
        TextFilter { f: std::rc::Rc::new(f) }
    }

    /// Runs the caller-supplied transformation on the given text.
    ///
    /// The stored closure is the caller's code, so no ensures can be stated
    /// of its result.
    #[verifier::external_body]
    pub fn run(&self, text: String) -> String {
        (self.f)(text)
    }
}

/// Applies every filter in registration order, each consuming the previous
/// result. With no filters registered, the text comes back unchanged.
pub fn apply_filters(filters: &Vec<TextFilter>, text: String) -> (r: String)
    ensures
        filters@.len() == 0 ==> r@ == text@,
{
    let ghost start = text@;
    let mut acc = text;
    let mut i: usize = 0;
    while i < filters.len()
        invariant
            i <= filters.len(),
            filters@.len() == 0 ==> acc@ == start,
        decreases filters.len() - i,
    {
        acc = filters[i].run(acc);
        i = i + 1;
    }
    acc
}

} // verus!
