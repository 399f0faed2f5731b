//! Views of results: what a `Result` stands for when its value has a view.

use vstd::prelude::*;

verus! {

/// The result with its value taken by its view.
pub open spec fn result_view<T: View, E>(result: Result<T, E>) -> Result<T::V, E> {
    match result {
        Ok(value) => Ok(value@),
        Err(error) => Err(error),
    }
}

/// The result with its value, where there is one, taken by its view.
pub open spec fn result_option_view<T: View, E>(result: Result<Option<T>, E>) -> Result<
    Option<T::V>,
    E,
> {
    match result {
        Ok(Some(value)) => Ok(Some(value@)),
        Ok(None) => Ok(None),
        Err(error) => Err(error),
    }
}

} // verus!
