//! Parameter bundles: macro definitions and include directories.
//!
//! A compilation request may carry macro definitions (`NAME` or `NAME=VALUE`
//! strings) and include-directory paths.  Both sequences are ordered — the
//! order of the resulting `-D`/`-I` flags matters to downstream compilers —
//! and duplicates pass through unchanged.

use vstd::prelude::*;

verus! {

/// The canonical parameter form: macro definitions first, include
/// directories second, each in caller order.
#[derive(Clone, Debug, PartialEq, Eq)]
pub struct ParameterBundle {
    /// Macro definitions, each `NAME` or `NAME=VALUE`.
    pub macros: Vec<String>,
    /// Include-directory paths.
    pub include_dirs: Vec<String>,
}

/// Hands only macro definitions (`-D`/`/D`) to a compilation request.
///
/// Every value must be in the form `MACRO=value` or `MACRO`.  An empty
/// sequence is a no-op.
#[derive(Clone, Debug, PartialEq, Eq)]
pub struct ParamsMacros(pub Vec<String>);

/// Hands only include directories (`-I`/`/I`) to a compilation request.
///
/// An empty sequence is a no-op.
#[derive(Clone, Debug, PartialEq, Eq)]
pub struct ParamsIncludeDirs(pub Vec<String>);

/// Hands both macro definitions (`-D`/`/D`) and include directories
/// (`-I`/`/I`) to a compilation request.
///
/// Every macro value must be in the form `MACRO=value` or `MACRO`.  Empty
/// sequences are no-ops.
#[derive(Clone, Debug, PartialEq, Eq)]
pub struct ParamsMacrosAndIncludeDirs(pub Vec<String>, pub Vec<String>);

impl ParameterBundle {
    /// A bundle with no macros and no include directories.
    pub fn none() -> (r: ParameterBundle)
        ensures
            r.macros@.len() == 0,
            r.include_dirs@.len() == 0,
    {
        ParameterBundle { macros: Vec::new(), include_dirs: Vec::new() }
    }

    /// A bundle of macros alone.
    pub fn from_macros(macros: Vec<String>) -> (r: ParameterBundle)
        ensures
            r.macros == macros,
            r.include_dirs@.len() == 0,
    {
        ParameterBundle { macros, include_dirs: Vec::new() }
    }

    /// A bundle of include directories alone.
    pub fn from_include_dirs(include_dirs: Vec<String>) -> (r: ParameterBundle)
        ensures
            r.macros@.len() == 0,
            r.include_dirs == include_dirs,
    {
        ParameterBundle { macros: Vec::new(), include_dirs }
    }
}

impl ParamsMacros {
    /// The canonical bundle this shorthand stands for.
    pub fn into_bundle(self) -> (r: ParameterBundle)
        ensures
            r.macros == self.0,
            r.include_dirs@.len() == 0,
    {
        ParameterBundle::from_macros(self.0)
    }
}

impl ParamsIncludeDirs {
    /// The canonical bundle this shorthand stands for.
    pub fn into_bundle(self) -> (r: ParameterBundle)
        ensures
            r.macros@.len() == 0,
            r.include_dirs == self.0,
    {
        ParameterBundle::from_include_dirs(self.0)
    }
}

impl ParamsMacrosAndIncludeDirs {
    /// The canonical bundle this shorthand stands for.
    pub fn into_bundle(self) -> (r: ParameterBundle)
        ensures
            r.macros == self.0,
            r.include_dirs == self.1,
    {
        ParameterBundle { macros: self.0, include_dirs: self.1 }
    }
}

} // verus!
