//! Composable MCP server core: capability providers, a slot-per-capability
//! builder, and a composite server that routes each request category to its
//! configured provider or answers with a fixed "method not found" error.
//!
//! The composite server derives its advertised capability flags from which
//! provider slots are populated, and resolves the instruction text shown to
//! clients from the builder-set instructions, falling back to the metadata
//! provider's own.

use vstd::prelude::*;

pub mod builder;
pub mod model;
pub mod providers;
pub mod server;

pub use builder::ServerBuilder;
pub use builder::SimpleInfo;
pub use model::Capability;
pub use model::ErrorData;
pub use model::Implementation;
pub use model::PromptsCapability;
pub use model::ResourcesCapability;
pub use model::ServerCapabilities;
pub use model::ServerInfo;
pub use model::ToolsCapability;
pub use providers::ServerInfoProvider;
pub use server::Server;
pub use server::Unset;

verus! {

impl<T, P, R, C, L, I> Server<T, P, R, C, L, I> {
    /// Create a new server builder with every slot empty.
    pub fn builder() -> (r: ServerBuilder<Unset, Unset, Unset, Unset, Unset, Unset>)
        ensures
            r == ServerBuilder::<Unset, Unset, Unset, Unset, Unset, Unset>::empty_spec(),
    {
        ServerBuilder::new()
    }
}

} // verus!
