//! Control messages understood by the shell host.

use vstd::prelude::*;

verus! {

#[derive(Debug, Clone, Copy, PartialEq, Eq, PartialOrd, Ord, Structural)]
pub enum Action {
    Stop,
    Start,
}

} // verus!
