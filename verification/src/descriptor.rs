use vstd::prelude::*;

verus! {

/// Which way an operation flows between host and provider.
#[derive(Clone, Copy, Debug, PartialEq, Eq, Structural)]
pub enum OperationDirection {
    /// Delivered from the provider to an actor.
    ToActor,
    /// Invoked by an actor on the provider.
    ToProvider,
    /// Flows both ways.
    Both,
}

/// One operation a provider supports, with its direction and a human
/// description.
pub struct OperationDescription {
    /// The operation name as it appears on a dispatch.
    pub op_name: String,
    /// Which way the operation flows.
    pub direction: OperationDirection,
    /// A human description of the operation.
    pub description: String,
}

/// The static self-description a provider reports on request: identifier,
/// display name, description, version, revision, and the supported
/// operations. Immutable; computed on demand; never persisted.
pub struct CapabilityDescriptor {
    /// The capability identifier.
    pub id: String,
    /// The human display name.
    pub name: String,
    /// The long human description.
    pub long_description: String,
    /// The provider version.
    pub version: String,
    /// The publish revision.
    pub revision: u32,
    /// The operations the provider supports.
    pub supported_operations: Vec<OperationDescription>,
}

/// The one descriptor this provider reports: the event streams capability
/// id, the fixed display name, description, version and revision, and
/// exactly the two stream operations, both inbound to the provider.
pub open spec fn descriptor_reported(d: CapabilityDescriptor) -> bool {
    &&& d.id@ == "wascc:eventstreams"@
    &&& d.name@ == "waSCC Default Event Streams Provider (Redis)"@
    &&& d.long_description@
        == "A capability provider exposing a streaming-read and append-only event streams interface"@
    &&& d.version@ == "0.2.0"@
    &&& d.revision == 2
    &&& d.supported_operations@.len() == 2
    &&& d.supported_operations@[0].op_name@ == "WriteEvent"@
    &&& d.supported_operations@[0].direction == OperationDirection::ToProvider
    &&& d.supported_operations@[0].description@ == "Writes an event to the end of a stream"@
    &&& d.supported_operations@[1].op_name@ == "QueryStream"@
    &&& d.supported_operations@[1].direction == OperationDirection::ToProvider
    &&& d.supported_operations@[1].description@ == "Queries a set of events from a stream"@
}

/// Builds the fixed descriptor from compile-time constants: the event
/// streams capability with its two inbound stream operations.
pub fn get_descriptor() -> (d: CapabilityDescriptor)
    ensures
        descriptor_reported(d),
{
    let mut ops: Vec<OperationDescription> = Vec::new();
    ops.push(
        OperationDescription {
            op_name: "WriteEvent".to_owned(),
            direction: OperationDirection::ToProvider,
            description: "Writes an event to the end of a stream".to_owned(),
        },
    );
    ops.push(
        OperationDescription {
            op_name: "QueryStream".to_owned(),
            direction: OperationDirection::ToProvider,
            description: "Queries a set of events from a stream".to_owned(),
        },
    );
    CapabilityDescriptor {
        id: "wascc:eventstreams".to_owned(),
        name: "waSCC Default Event Streams Provider (Redis)".to_owned(),
        long_description:
            "A capability provider exposing a streaming-read and append-only event streams interface".to_owned(),
        version: "0.2.0".to_owned(),
        revision: 2,
        supported_operations: ops,
    }
}

} // verus!
