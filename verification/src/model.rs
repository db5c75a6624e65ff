//! Data model of the composite server: server identity, capability flags,
//! the server-info record, the error record, and the request categories.
//!
//! These are plain records. The transport layer owns the wire shapes; this
//! module holds what the routing core reads and writes of them.

use vstd::prelude::*;

verus! {

/// JSON-RPC error code for a method the server does not expose.
pub const METHOD_NOT_FOUND: i32 = -32601;

/// The protocol revision a composed server answers the handshake with,
/// unless its metadata provider says otherwise.
pub open spec fn default_protocol_version_spec() -> Seq<char> {
    "2025-11-25"@
}

/// Executable counterpart of [`default_protocol_version_spec`].
pub fn default_protocol_version() -> (s: &'static str)
    ensures
        s@ == default_protocol_version_spec(),
{
    "2025-11-25"
}

/// Identity of a server implementation: its name and version.
#[derive(Clone, Debug, PartialEq, Eq)]
pub struct Implementation {
    pub name: String,
    pub version: String,
}

/// Mathematical value of an [`Implementation`].
pub struct ImplementationView {
    pub name: Seq<char>,
    pub version: Seq<char>,
}

impl View for Implementation {
    type V = ImplementationView;

    open spec fn view(&self) -> ImplementationView {
        ImplementationView { name: self.name@, version: self.version@ }
    }
}

impl Implementation {
    /// Create an identity record from a name and a version.
    pub fn new(name: String, version: String) -> (r: Implementation)
        ensures
            r@.name == name@,
            r@.version == version@,
    {
        Implementation { name, version }
    }

    /// Copy this identity record.
    pub fn duplicate(&self) -> (r: Implementation)
        ensures
            r@ == self@,
    {
        Implementation { name: self.name.clone(), version: self.version.clone() }
    }
}

/// Settings of the tools capability flag.
#[derive(Clone, Copy, Debug, PartialEq, Eq)]
pub struct ToolsCapability {
    pub list_changed: Option<bool>,
}

/// Settings of the prompts capability flag.
#[derive(Clone, Copy, Debug, PartialEq, Eq)]
pub struct PromptsCapability {
    pub list_changed: Option<bool>,
}

/// Settings of the resources capability flag.
#[derive(Clone, Copy, Debug, PartialEq, Eq)]
pub struct ResourcesCapability {
    pub subscribe: Option<bool>,
    pub list_changed: Option<bool>,
}

impl ToolsCapability {
    /// The default "enabled" marker: the flag is on, with no settings.
    pub open spec fn spec_default() -> ToolsCapability {
        ToolsCapability { list_changed: None }
    }
}

impl Default for ToolsCapability {
    fn default() -> (r: ToolsCapability)
        ensures
            r == ToolsCapability::spec_default(),
    {
        ToolsCapability { list_changed: None }
    }
}

impl PromptsCapability {
    /// The default "enabled" marker: the flag is on, with no settings.
    pub open spec fn spec_default() -> PromptsCapability {
        PromptsCapability { list_changed: None }
    }
}

impl Default for PromptsCapability {
    fn default() -> (r: PromptsCapability)
        ensures
            r == PromptsCapability::spec_default(),
    {
        PromptsCapability { list_changed: None }
    }
}

impl ResourcesCapability {
    /// The default "enabled" marker: the flag is on, with no settings.
    pub open spec fn spec_default() -> ResourcesCapability {
        ResourcesCapability { subscribe: None, list_changed: None }
    }
}

impl Default for ResourcesCapability {
    fn default() -> (r: ResourcesCapability)
        ensures
            r == ResourcesCapability::spec_default(),
    {
        ResourcesCapability { subscribe: None, list_changed: None }
    }
}

/// The set of capability flags a server advertises.
///
/// `experimental`, `extensions`, `logging` and `completions` record only
/// whether the flag is present; `prompts`, `resources` and `tools` carry
/// their settings.
#[derive(Clone, Copy, Debug, PartialEq, Eq)]
pub struct ServerCapabilities {
    pub experimental: bool,
    pub extensions: bool,
    pub logging: bool,
    pub completions: bool,
    pub prompts: Option<PromptsCapability>,
    pub resources: Option<ResourcesCapability>,
    pub tools: Option<ToolsCapability>,
}

impl ServerCapabilities {
    /// The empty capability set: no flag enabled.
    pub open spec fn spec_default() -> ServerCapabilities {
        ServerCapabilities {
            experimental: false,
            extensions: false,
            logging: false,
            completions: false,
            prompts: None,
            resources: None,
            tools: None,
        }
    }
}

impl Default for ServerCapabilities {
    fn default() -> (r: ServerCapabilities)
        ensures
            r == ServerCapabilities::spec_default(),
    {
        ServerCapabilities {
            experimental: false,
            extensions: false,
            logging: false,
            completions: false,
            prompts: None,
            resources: None,
            tools: None,
        }
    }
}

/// The descriptive record a server answers metadata and initialize requests
/// with: protocol revision, capability flags, identity, and optional
/// instruction text.
#[derive(Clone, Debug, PartialEq, Eq)]
pub struct ServerInfo {
    pub protocol_version: String,
    pub capabilities: ServerCapabilities,
    pub server_info: Implementation,
    pub instructions: Option<String>,
}

/// Mathematical value of a [`ServerInfo`].
pub struct ServerInfoView {
    pub protocol_version: Seq<char>,
    pub capabilities: ServerCapabilities,
    pub server_info: ImplementationView,
    pub instructions: Option<Seq<char>>,
}

impl ServerInfo {
    /// Copy this record.
    pub fn duplicate(&self) -> (r: ServerInfo)
        ensures
            r@ == self@,
    {
        ServerInfo {
            protocol_version: self.protocol_version.clone(),
            capabilities: self.capabilities,
            server_info: self.server_info.duplicate(),
            instructions: match &self.instructions {
                Some(s) => Some(s.clone()),
                None => None,
            },
        }
    }
}

impl View for ServerInfo {
    type V = ServerInfoView;

    open spec fn view(&self) -> ServerInfoView {
        ServerInfoView {
            protocol_version: self.protocol_version@,
            capabilities: self.capabilities,
            server_info: self.server_info@,
            instructions: match self.instructions {
                Some(s) => Some(s@),
                None => None,
            },
        }
    }
}

/// A structured error: a machine-readable code and a human-readable message.
#[derive(Clone, Debug, PartialEq, Eq)]
pub struct ErrorData {
    pub code: i32,
    pub message: String,
}

/// The five optional request categories a composite server routes.
#[derive(Clone, Copy, Debug, PartialEq, Eq)]
pub enum Capability {
    Tools,
    Prompts,
    Resources,
    Completion,
    Logging,
}

/// The fixed message that names an unconfigured capability.
pub open spec fn not_supported_message(c: Capability) -> Seq<char> {
    match c {
        Capability::Tools => "tools not supported"@,
        Capability::Prompts => "prompts not supported"@,
        Capability::Resources => "resources not supported"@,
        Capability::Completion => "completion not supported"@,
        Capability::Logging => "logging not supported"@,
    }
}

/// Executable counterpart of [`not_supported_message`].
pub fn not_supported_text(c: Capability) -> (s: &'static str)
    ensures
        s@ == not_supported_message(c),
{
    match c {
        Capability::Tools => "tools not supported",
        Capability::Prompts => "prompts not supported",
        Capability::Resources => "resources not supported",
        Capability::Completion => "completion not supported",
        Capability::Logging => "logging not supported",
    }
}

/// The one error this core raises of its own: "method not found", with the
/// fixed message naming the unconfigured capability.
pub fn method_not_found(c: Capability) -> (e: ErrorData)
    ensures
        e.code == METHOD_NOT_FOUND,
        e.message@ == not_supported_message(c),
{
    ErrorData { code: METHOD_NOT_FOUND, message: not_supported_text(c).to_owned() }
}

} // verus!
