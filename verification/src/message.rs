//! Markers of the parent that a message of a GRIB file depends on.

use vstd::prelude::*;
use core::marker::PhantomData;

verus! {

/// Parent of a message that borrows its file: the message cannot outlive the file.
#[derive(Debug, Hash, PartialEq, Eq, PartialOrd)]
pub struct RefParent<'ch>(PhantomData<&'ch ()>);

impl<'ch> RefParent<'ch> {
    /// The marker of a message borrowed from a file for the lifetime `'ch`.
    pub fn new() -> RefParent<'ch> {
        RefParent(PhantomData)
    }
}

/// Parent of a message that owns its own copy of the data.
#[derive(Debug, Hash, PartialEq, Eq, PartialOrd)]
pub struct BufParent();

impl BufParent {
    /// The marker of a message that owns its data.
    pub fn new() -> BufParent {
        BufParent()
    }
}

} // verus!
