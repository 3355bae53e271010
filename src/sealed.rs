//! The supertrait that closes `Any` and `AnyExt` to implementations from
//! outside this library: it lives in a module that is not public.
use vstd::prelude::*;

use crate::any::Dynamic;

verus! {

/// Implemented by the payload types and by `Dynamic`, and nothing else.
pub trait Sealed {
}

impl Sealed for () {
}

impl Sealed for bool {
}

impl Sealed for i64 {
}

impl Sealed for char {
}

impl Sealed for String {
}

impl Sealed for Dynamic {
}

} // verus!
