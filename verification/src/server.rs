//! The composed server: six provider slots, capability derivation, and the
//! routing decision for every request category.

use vstd::prelude::*;

use crate::model::Capability;
use crate::model::ErrorData;
use crate::model::METHOD_NOT_FOUND;
use crate::model::PromptsCapability;
use crate::model::ResourcesCapability;
use crate::model::ServerCapabilities;
use crate::model::ServerInfo;
use crate::model::ServerInfoView;
use crate::model::ToolsCapability;
use crate::model::method_not_found;
use crate::model::not_supported_message;
use crate::providers::ServerInfoProvider;

verus! {

/// Marker for an unset provider slot.
#[derive(Clone, Copy, Debug, Default, PartialEq, Eq)]
pub struct Unset;

/// A composed server that routes each request category to its own provider.
///
/// Built once by [`ServerBuilder`](crate::ServerBuilder) and never mutated
/// afterwards. Each of the five optional slots holds a provider or nothing;
/// the metadata provider is always present. A slot's presence is the single
/// source of truth both for routing and for the advertised capability flags.
#[verifier::ext_equal]
pub struct Server<T, P, R, C, L, I> {
    pub tools: Option<T>,
    pub prompts: Option<P>,
    pub resources: Option<R>,
    pub completion: Option<C>,
    pub logging: Option<L>,
    pub info: I,
    pub instructions: Option<String>,
}

impl<T, P, R, C, L, I: ServerInfoProvider> Server<T, P, R, C, L, I> {
    /// The advertised capability set: the metadata provider's base flags,
    /// with the flag of every populated slot forced to its default "enabled"
    /// marker. Completion has no flag and is not reflected here.
    pub open spec fn combined_capabilities_spec(&self) -> ServerCapabilities {
        let base = self.info.info_spec().capabilities;
        ServerCapabilities {
            experimental: base.experimental,
            extensions: base.extensions,
            logging: base.logging || self.logging is Some,
            completions: base.completions,
            prompts: if self.prompts is Some {
                Some(PromptsCapability::spec_default())
            } else {
                base.prompts
            },
            resources: if self.resources is Some {
                Some(ResourcesCapability::spec_default())
            } else {
                base.resources
            },
            tools: if self.tools is Some {
                Some(ToolsCapability::spec_default())
            } else {
                base.tools
            },
        }
    }

    /// Compute the advertised capability set from the base set and the
    /// populated slots.
    pub fn combined_capabilities(&self) -> (r: ServerCapabilities)
        ensures
            r == self.combined_capabilities_spec(),
    {
        let mut caps = self.info.capabilities();

        if self.tools.is_some() {
            caps.tools = Some(ToolsCapability::default());
        }
        if self.prompts.is_some() {
            caps.prompts = Some(PromptsCapability::default());
        }
        if self.resources.is_some() {
            caps.resources = Some(ResourcesCapability::default());
        }
        if self.logging.is_some() {
            caps.logging = true;
        }

        caps
    }

    /// The instruction text a client sees: the builder-set instructions when
    /// present, otherwise the metadata provider's own, otherwise absent.
    pub open spec fn resolved_instructions_spec(&self) -> Option<Seq<char>> {
        if self.instructions is Some {
            Some(self.instructions->0@)
        } else {
            self.info.info_spec().instructions
        }
    }

    /// The record both metadata and initialize requests answer with: the
    /// provider's protocol revision and identity verbatim, the derived
    /// capability set, and the resolved instructions.
    pub open spec fn get_info_spec(&self) -> ServerInfoView {
        ServerInfoView {
            protocol_version: self.info.info_spec().protocol_version,
            capabilities: self.combined_capabilities_spec(),
            server_info: self.info.info_spec().server_info,
            instructions: self.resolved_instructions_spec(),
        }
    }

    /// Answer a metadata request.
    pub fn get_info(&self) -> (r: ServerInfo)
        ensures
            r@ == self.get_info_spec(),
    {
        let mut info = self.info.get_info();
        info.capabilities = self.combined_capabilities();
        if self.instructions.is_some() {
            info.instructions = match &self.instructions {
                Some(s) => Some(s.clone()),
                None => None,
            };
        }
        info
    }

    /// Answer an initialize request. Always succeeds: the metadata provider
    /// is mandatory and infallible.
    pub fn initialize(&self) -> (r: Result<ServerInfo, ErrorData>)
        ensures
            r matches Ok(info) && info@ == self.get_info_spec(),
    {
        let base = self.info.get_info();
        Ok(
            ServerInfo {
                protocol_version: base.protocol_version,
                capabilities: self.combined_capabilities(),
                server_info: base.server_info,
                instructions: match &self.instructions {
                    Some(s) => Some(s.clone()),
                    None => base.instructions,
                },
            },
        )
    }
}

/// Law: the derived capability set enables the flag of every populated slot,
/// set to its default "enabled" marker; it leaves the flag of every empty
/// slot exactly as the base set had it, so it never disables a flag the base
/// set enabled; and it never touches the flags that have no slot.
pub proof fn lemma_combined_capabilities<T, P, R, C, L, I: ServerInfoProvider>(
    s: Server<T, P, R, C, L, I>,
)
    ensures
        s.tools is Some ==> s.combined_capabilities_spec().tools == Some(
            ToolsCapability::spec_default(),
        ),
        s.tools is None ==> s.combined_capabilities_spec().tools
            == s.info.info_spec().capabilities.tools,
        s.info.info_spec().capabilities.tools is Some ==> s.combined_capabilities_spec().tools
            is Some,
        s.prompts is Some ==> s.combined_capabilities_spec().prompts == Some(
            PromptsCapability::spec_default(),
        ),
        s.prompts is None ==> s.combined_capabilities_spec().prompts
            == s.info.info_spec().capabilities.prompts,
        s.info.info_spec().capabilities.prompts is Some ==> s.combined_capabilities_spec().prompts
            is Some,
        s.resources is Some ==> s.combined_capabilities_spec().resources == Some(
            ResourcesCapability::spec_default(),
        ),
        s.resources is None ==> s.combined_capabilities_spec().resources
            == s.info.info_spec().capabilities.resources,
        s.info.info_spec().capabilities.resources is Some
            ==> s.combined_capabilities_spec().resources is Some,
        s.combined_capabilities_spec().logging == (s.info.info_spec().capabilities.logging
            || s.logging is Some),
        s.combined_capabilities_spec().completions
            == s.info.info_spec().capabilities.completions,
        s.combined_capabilities_spec().experimental
            == s.info.info_spec().capabilities.experimental,
        s.combined_capabilities_spec().extensions == s.info.info_spec().capabilities.extensions,
{
}

/// Law: metadata and initialize answers resolve the instruction text to the
/// server's own configured instructions when present, otherwise to the
/// metadata provider's, otherwise to absent.
pub proof fn lemma_instructions_resolution<T, P, R, C, L, I: ServerInfoProvider>(
    s: Server<T, P, R, C, L, I>,
)
    ensures
        s.instructions matches Some(ins) ==> s.get_info_spec().instructions == Some(ins@),
        s.instructions is None ==> s.get_info_spec().instructions
            == s.info.info_spec().instructions,
        s.instructions is None && s.info.info_spec().instructions is None
            ==> s.get_info_spec().instructions is None,
{
}

impl<T, P, R, C, L, I> Server<T, P, R, C, L, I> {
    /// Answer a liveness check. Always succeeds.
    pub fn ping(&self) -> (r: Result<(), ErrorData>)
        ensures
            r is Ok,
    {
        Ok(())
    }

    /// Route a tools listing: the provider's answer unchanged when the tools
    /// slot is populated, the fixed "method not found" error otherwise.
    pub fn list_tools<A>(&self, outcome: Option<A>) -> (r: Result<A, ErrorData>)
        requires
            outcome is Some <==> self.tools is Some,
        ensures
            outcome matches Some(a) ==> r == Ok::<A, ErrorData>(a),
            outcome is None ==> (r matches Err(e) && e.code == METHOD_NOT_FOUND && e.message@
                == not_supported_message(Capability::Tools)),
    {
        match &self.tools {
            Some(_) => Ok(outcome.unwrap()),
            None => Err(method_not_found(Capability::Tools)),
        }
    }

    /// Route a tool execution: the provider's answer unchanged when the
    /// tools slot is populated, the fixed "method not found" error otherwise.
    pub fn call_tool<A>(&self, outcome: Option<A>) -> (r: Result<A, ErrorData>)
        requires
            outcome is Some <==> self.tools is Some,
        ensures
            outcome matches Some(a) ==> r == Ok::<A, ErrorData>(a),
            outcome is None ==> (r matches Err(e) && e.code == METHOD_NOT_FOUND && e.message@
                == not_supported_message(Capability::Tools)),
    {
        match &self.tools {
            Some(_) => Ok(outcome.unwrap()),
            None => Err(method_not_found(Capability::Tools)),
        }
    }

    /// Route a prompts listing: the provider's answer unchanged when the
    /// prompts slot is populated, the fixed "method not found" error
    /// otherwise.
    pub fn list_prompts<A>(&self, outcome: Option<A>) -> (r: Result<A, ErrorData>)
        requires
            outcome is Some <==> self.prompts is Some,
        ensures
            outcome matches Some(a) ==> r == Ok::<A, ErrorData>(a),
            outcome is None ==> (r matches Err(e) && e.code == METHOD_NOT_FOUND && e.message@
                == not_supported_message(Capability::Prompts)),
    {
        match &self.prompts {
            Some(_) => Ok(outcome.unwrap()),
            None => Err(method_not_found(Capability::Prompts)),
        }
    }

    /// Route a prompt fetch: the provider's answer unchanged when the
    /// prompts slot is populated, the fixed "method not found" error
    /// otherwise.
    pub fn get_prompt<A>(&self, outcome: Option<A>) -> (r: Result<A, ErrorData>)
        requires
            outcome is Some <==> self.prompts is Some,
        ensures
            outcome matches Some(a) ==> r == Ok::<A, ErrorData>(a),
            outcome is None ==> (r matches Err(e) && e.code == METHOD_NOT_FOUND && e.message@
                == not_supported_message(Capability::Prompts)),
    {
        match &self.prompts {
            Some(_) => Ok(outcome.unwrap()),
            None => Err(method_not_found(Capability::Prompts)),
        }
    }

    /// Route a resources listing: the provider's answer unchanged when the
    /// resources slot is populated, the fixed "method not found" error
    /// otherwise.
    pub fn list_resources<A>(&self, outcome: Option<A>) -> (r: Result<A, ErrorData>)
        requires
            outcome is Some <==> self.resources is Some,
        ensures
            outcome matches Some(a) ==> r == Ok::<A, ErrorData>(a),
            outcome is None ==> (r matches Err(e) && e.code == METHOD_NOT_FOUND && e.message@
                == not_supported_message(Capability::Resources)),
    {
        match &self.resources {
            Some(_) => Ok(outcome.unwrap()),
            None => Err(method_not_found(Capability::Resources)),
        }
    }

    /// Route a resource-template listing: the provider's answer unchanged
    /// when the resources slot is populated, the fixed "method not found"
    /// error otherwise.
    pub fn list_resource_templates<A>(&self, outcome: Option<A>) -> (r: Result<A, ErrorData>)
        requires
            outcome is Some <==> self.resources is Some,
        ensures
            outcome matches Some(a) ==> r == Ok::<A, ErrorData>(a),
            outcome is None ==> (r matches Err(e) && e.code == METHOD_NOT_FOUND && e.message@
                == not_supported_message(Capability::Resources)),
    {
        match &self.resources {
            Some(_) => Ok(outcome.unwrap()),
            None => Err(method_not_found(Capability::Resources)),
        }
    }

    /// Route a resource read: the provider's answer unchanged when the
    /// resources slot is populated, the fixed "method not found" error
    /// otherwise.
    pub fn read_resource<A>(&self, outcome: Option<A>) -> (r: Result<A, ErrorData>)
        requires
            outcome is Some <==> self.resources is Some,
        ensures
            outcome matches Some(a) ==> r == Ok::<A, ErrorData>(a),
            outcome is None ==> (r matches Err(e) && e.code == METHOD_NOT_FOUND && e.message@
                == not_supported_message(Capability::Resources)),
    {
        match &self.resources {
            Some(_) => Ok(outcome.unwrap()),
            None => Err(method_not_found(Capability::Resources)),
        }
    }

    /// Route a resource subscription: the provider's answer unchanged when
    /// the resources slot is populated, the fixed "method not found" error
    /// otherwise.
    pub fn subscribe<A>(&self, outcome: Option<A>) -> (r: Result<A, ErrorData>)
        requires
            outcome is Some <==> self.resources is Some,
        ensures
            outcome matches Some(a) ==> r == Ok::<A, ErrorData>(a),
            outcome is None ==> (r matches Err(e) && e.code == METHOD_NOT_FOUND && e.message@
                == not_supported_message(Capability::Resources)),
    {
        match &self.resources {
            Some(_) => Ok(outcome.unwrap()),
            None => Err(method_not_found(Capability::Resources)),
        }
    }

    /// Route a resource unsubscription: the provider's answer unchanged when
    /// the resources slot is populated, the fixed "method not found" error
    /// otherwise.
    pub fn unsubscribe<A>(&self, outcome: Option<A>) -> (r: Result<A, ErrorData>)
        requires
            outcome is Some <==> self.resources is Some,
        ensures
            outcome matches Some(a) ==> r == Ok::<A, ErrorData>(a),
            outcome is None ==> (r matches Err(e) && e.code == METHOD_NOT_FOUND && e.message@
                == not_supported_message(Capability::Resources)),
    {
        match &self.resources {
            Some(_) => Ok(outcome.unwrap()),
            None => Err(method_not_found(Capability::Resources)),
        }
    }

    /// Route a completion request: the provider's answer unchanged when the
    /// completion slot is populated, the fixed "method not found" error
    /// otherwise.
    pub fn complete<A>(&self, outcome: Option<A>) -> (r: Result<A, ErrorData>)
        requires
            outcome is Some <==> self.completion is Some,
        ensures
            outcome matches Some(a) ==> r == Ok::<A, ErrorData>(a),
            outcome is None ==> (r matches Err(e) && e.code == METHOD_NOT_FOUND && e.message@
                == not_supported_message(Capability::Completion)),
    {
        match &self.completion {
            Some(_) => Ok(outcome.unwrap()),
            None => Err(method_not_found(Capability::Completion)),
        }
    }

    /// Route a logging-level change: the provider's answer unchanged when
    /// the logging slot is populated, the fixed "method not found" error
    /// otherwise.
    pub fn set_level<A>(&self, outcome: Option<A>) -> (r: Result<A, ErrorData>)
        requires
            outcome is Some <==> self.logging is Some,
        ensures
            outcome matches Some(a) ==> r == Ok::<A, ErrorData>(a),
            outcome is None ==> (r matches Err(e) && e.code == METHOD_NOT_FOUND && e.message@
                == not_supported_message(Capability::Logging)),
    {
        match &self.logging {
            Some(_) => Ok(outcome.unwrap()),
            None => Err(method_not_found(Capability::Logging)),
        }
    }
}

} // verus!
