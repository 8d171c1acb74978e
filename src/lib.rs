//! Annotated code blocks of a tutorial as checked mutations of a project tree:
//! parsing each block's annotation into a directive, patching files line by line
//! with verification of context, and driving the directives in order with a
//! validation step after each.
use vstd::prelude::*;

pub mod text;
pub mod directive;
pub mod patch;
pub mod apply;
pub mod document;
pub mod sequence;
pub mod validate;
pub mod config;

verus! {

} // verus!
