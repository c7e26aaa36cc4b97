//! Why a context could not be made.

use vstd::prelude::*;

verus! {

/// The three ways in which making a context fails.
#[derive(Clone, Copy, Debug, PartialEq, Eq, Structural)]
pub enum ContextError {
    /// The driver listed no platform at all.
    NoPlatforms,
    /// A platform index was given and the driver's list is not that long.
    InvalidPlatformIndex,
    /// The chosen platform has no device of the requested types.
    NoDevices,
}

impl ContextError {
    /// The text of `message`, as a sequence of characters.
    pub open spec fn spec_message(self) -> Seq<char> {
        match self {
            ContextError::NoPlatforms => "\nNo OpenCL platforms found!\n"@,
            ContextError::InvalidPlatformIndex =>
                "Invalid OpenCL platform index specified. Use 'get_platform_ids()' for a list."@,
            ContextError::NoDevices => "\nNo OpenCL devices found!\n"@,
        }
    }

    /// The sentence shown to the user for this failure.
    pub fn message(&self) -> (text: &'static str)
        ensures
            text@ == self.spec_message(),
    {
        match self {
            ContextError::NoPlatforms => "\nNo OpenCL platforms found!\n",
            ContextError::InvalidPlatformIndex =>
                "Invalid OpenCL platform index specified. Use 'get_platform_ids()' for a list.",
            ContextError::NoDevices => "\nNo OpenCL devices found!\n",
        }
    }
}

/// Each failure has a sentence of its own: from the sentence the failure can
/// be told.
pub proof fn lemma_message_tells_error(a: ContextError, b: ContextError)
    requires
        a.spec_message() == b.spec_message(),
    ensures
        a == b,
{
    reveal_strlit("\nNo OpenCL platforms found!\n");
    reveal_strlit("Invalid OpenCL platform index specified. Use 'get_platform_ids()' for a list.");
    reveal_strlit("\nNo OpenCL devices found!\n");
    // The three sentences differ in length.
    assert(ContextError::NoPlatforms.spec_message().len() == 28);
    assert(ContextError::InvalidPlatformIndex.spec_message().len() == 77);
    assert(ContextError::NoDevices.spec_message().len() == 26);
}

} // verus!
