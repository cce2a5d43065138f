//! What the structures of this crate offer in common.
use std::collections::HashMap;
use vstd::prelude::*;

verus! {

/// The most important fields of a structure, by name, for outputs that
/// are tables of text.
pub trait Normalize {
    fn normalize(&self) -> HashMap<String, String>;
}

/// The path that a structure stands for.
pub trait Path {
    /// The path, as a sequence of characters.
    spec fn spec_path(&self) -> Option<Seq<char>>;

    /// The path.
    fn path(&self) -> (path: Option<String>)
        ensures
            path is Some == self.spec_path() is Some,
            path is Some ==> path->Some_0@ == self.spec_path()->Some_0,
    ;
}

} // verus!
