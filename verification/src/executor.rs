//! The code type of a foreign executor.

use vstd::prelude::*;

verus! {

/// A foreign executor has no C# rendering: this code type offers no
/// operation, and no descriptor resolves to it.
#[derive(Debug)]
pub struct ForeignExecutorCodeType;

} // verus!
