//! The language of the system.

use vstd::prelude::*;

verus! {

/// Whether the system's language is Chinese. Where the system offers no
/// way to ask, it is taken to be.
pub fn is_system_language_zh() -> (zh: bool)
    ensures
        zh,
{
    true
}

} // verus!
