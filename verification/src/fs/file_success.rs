//! A two-way answer that carries a value either way.

use vstd::prelude::*;

verus! {

/// The answer of an operation on a file: what it made of the file, or what
/// is left of the file where it made nothing.
#[derive(Debug)]
pub enum FileSuccess<T, S> {
    Yes(T),
    No(S),
}

} // verus!
