use vstd::prelude::*;

verus! {

/// Error of a Vulkan operation, or of the rules this library enforces around them.
#[derive(Clone, Copy, Debug, PartialEq, Eq, Structural)]
pub enum Error {
    /// A status code returned by the Vulkan driver (the raw `VkResult` value).
    Native(i32),
    /// No enumerated physical device satisfies every suitability predicate.
    NoSuitableDevice,
    /// A queue-family plan without any entry.
    EmptyQueuePlan,
    /// A queue-family plan naming the same family twice.
    DuplicateQueueFamily,
    /// A resource of a kind the chain already holds.
    ResourceHeld,
    /// A resource whose prerequisite the chain does not hold.
    MissingPrerequisite,
}

} // verus!
