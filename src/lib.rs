use vstd::prelude::*;

pub mod command;
pub mod level;
pub mod names;
pub mod notify;
pub mod text;
pub mod volume;

verus! {

/// The two kinds of audio node a request can address.
#[derive(Clone, Copy, Debug, PartialEq, Eq, Structural)]
pub enum NodeType {
    Sink,
    Source,
}

} // verus!
