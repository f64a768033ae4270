//! The flattened configuration surface: symbolic key names and pin names
//! as an external loader hands them over. Resolving the names into the
//! in-memory keymap and pin objects happens at the edge, once, at startup;
//! the core only needs the fully resolved table and two integers.
use vstd::prelude::*;

verus! {

/// A keymap description as `layers x rows x columns` of symbolic key names,
/// plus the debounce/hold-cycle parameter.
#[derive(Clone, Debug)]
pub struct KeymapConfig {
    pub layers: Vec<Vec<Vec<&'static str>>>,
    pub hold_cycles: u16,
}

/// A matrix description: the input and output pin assignments and the scan
/// orientation, all by name.
#[derive(Clone, Debug)]
pub struct MatrixConfig {
    pub inputs: Vec<MatrixConfigInputsType>,
    pub outputs: Vec<MatrixConfigOutputsType>,
    pub direction: &'static str,
}

/// One input line: its pin name and pull configuration.
#[derive(Clone, Copy, Debug)]
pub struct MatrixConfigInputsType {
    pub pin: &'static str,
    pub pull: &'static str,
}

/// One output line: its pin name, drive strength, and rest level.
#[derive(Clone, Copy, Debug)]
pub struct MatrixConfigOutputsType {
    pub pin: &'static str,
    pub drive: &'static str,
    pub level: &'static str,
}

} // verus!
