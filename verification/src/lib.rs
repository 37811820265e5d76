//! A network connectivity diagnostic.
//!
//! Given the name of a local network interface, the diagnostic runs a fixed
//! sequence of probes (address lookup, DHCP renewal, ICMP echo by name and by
//! address) and narrows a connectivity failure down to one root cause. It
//! emits ordered, human-readable status events while it runs and returns
//! either success or one diagnosed fault.

pub mod address;
pub mod engine;
pub mod probes;
pub mod sink;
pub mod status;

pub use address::first_v4;
pub use address::get_address;
pub use address::has_address;
pub use address::EnumerationFailure;
pub use address::IfaceEntry;
pub use engine::test_network;
pub use engine::DiagnosedFault;
pub use engine::Outcomes;
pub use probes::FixedProbes;
pub use probes::Probes;
pub use sink::EventRecorder;
pub use sink::EventSink;
pub use status::EventV;
pub use status::Status;
