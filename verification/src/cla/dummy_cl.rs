//! A conversion layer that converts nothing.
use vstd::prelude::*;

verus! {

/// The conversion layer that does nothing.
#[derive(Debug, Clone, Copy, Default)]
pub struct DummyConversionLayer {
    pub counter: u64,
}

impl DummyConversionLayer {
    /// A fresh conversion layer.
    pub fn new() -> (r: DummyConversionLayer)
        ensures
            r.counter == 0,
    {
        DummyConversionLayer { counter: 0 }
    }
}

impl DummyConversionLayer {
    /// The agent as text: `DummyConversionLayer`.
    pub fn to_string(&self) -> (r: String)
        ensures
            r@ == "DummyConversionLayer"@,
    {
        "DummyConversionLayer".to_owned()
    }
}

} // verus!
