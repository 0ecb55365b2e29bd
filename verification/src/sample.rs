//! A fixed outcome of two payloads without content, to show the codec at work.

use vstd::prelude::*;

verus! {

/// A success payload that holds nothing.
#[derive(Debug, PartialEq, Eq, Structural)]
pub struct MyTest;

/// An error payload that holds nothing.
#[derive(Debug, PartialEq, Eq, Structural)]
pub struct MyError;

/// The success outcome with the empty payload.
pub fn test() -> (outcome: Result<MyTest, MyError>)
    ensures
        outcome == Ok::<MyTest, MyError>(MyTest),
{
    Ok(MyTest)
}

} // verus!
