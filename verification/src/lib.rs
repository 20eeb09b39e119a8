//! Decision logic of a container-based game-server host: the node daemon
//! that runs game containers and the backend that orchestrates them.
use vstd::prelude::*;

pub mod backend;
pub mod daemon;
pub mod string_map;
pub mod text;

verus! {

} // verus!
