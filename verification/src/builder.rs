//! Builder for composing a server from individual capability providers.
//!
//! Each of the six slots has one setter that narrows that slot's type and
//! touches nothing else, so slots can be configured in any order; the build
//! step demands a metadata provider.

use vstd::prelude::*;

use crate::model::Implementation;
use crate::model::ServerCapabilities;
use crate::model::ServerInfo;
use crate::model::ServerInfoView;
use crate::model::default_protocol_version;
use crate::model::default_protocol_version_spec;
use crate::providers::ServerInfoProvider;
use crate::server::Server;
use crate::server::Unset;

verus! {

/// Accumulates up to six capability providers and optional instruction text,
/// then builds a [`Server`].
///
/// Every setter consumes the builder and returns it with that one slot
/// updated, so configuration is order-independent and a second set of the
/// same slot keeps only the second value.
#[verifier::ext_equal]
pub struct ServerBuilder<T, P, R, C, L, I> {
    pub tools: Option<T>,
    pub prompts: Option<P>,
    pub resources: Option<R>,
    pub completion: Option<C>,
    pub logging: Option<L>,
    pub info: Option<I>,
    pub instructions: Option<String>,
}

impl ServerBuilder<Unset, Unset, Unset, Unset, Unset, Unset> {
    /// The builder's initial state: every slot empty, no instructions.
    pub open spec fn empty_spec() -> ServerBuilder<Unset, Unset, Unset, Unset, Unset, Unset> {
        ServerBuilder {
            tools: None,
            prompts: None,
            resources: None,
            completion: None,
            logging: None,
            info: None,
            instructions: None,
        }
    }

    /// Create a new server builder with no providers set.
    pub fn new() -> (r: Self)
        ensures
            r == Self::empty_spec(),
    {
        ServerBuilder {
            tools: None,
            prompts: None,
            resources: None,
            completion: None,
            logging: None,
            info: None,
            instructions: None,
        }
    }
}

impl Default for ServerBuilder<Unset, Unset, Unset, Unset, Unset, Unset> {
    fn default() -> (r: Self)
        ensures
            r == Self::empty_spec(),
    {
        Self::new()
    }
}

impl<T, P, R, C, L, I> ServerBuilder<T, P, R, C, L, I> {
    /// The builder with the tools slot set to `provider`.
    pub open spec fn with_tools_spec<NewT>(self, provider: NewT) -> ServerBuilder<
        NewT,
        P,
        R,
        C,
        L,
        I,
    > {
        ServerBuilder {
            tools: Some(provider),
            prompts: self.prompts,
            resources: self.resources,
            completion: self.completion,
            logging: self.logging,
            info: self.info,
            instructions: self.instructions,
        }
    }

    /// The builder with the prompts slot set to `provider`.
    pub open spec fn with_prompts_spec<NewP>(self, provider: NewP) -> ServerBuilder<
        T,
        NewP,
        R,
        C,
        L,
        I,
    > {
        ServerBuilder {
            tools: self.tools,
            prompts: Some(provider),
            resources: self.resources,
            completion: self.completion,
            logging: self.logging,
            info: self.info,
            instructions: self.instructions,
        }
    }

    /// The builder with the resources slot set to `provider`.
    pub open spec fn with_resources_spec<NewR>(self, provider: NewR) -> ServerBuilder<
        T,
        P,
        NewR,
        C,
        L,
        I,
    > {
        ServerBuilder {
            tools: self.tools,
            prompts: self.prompts,
            resources: Some(provider),
            completion: self.completion,
            logging: self.logging,
            info: self.info,
            instructions: self.instructions,
        }
    }

    /// The builder with the completion slot set to `provider`.
    pub open spec fn with_completion_spec<NewC>(self, provider: NewC) -> ServerBuilder<
        T,
        P,
        R,
        NewC,
        L,
        I,
    > {
        ServerBuilder {
            tools: self.tools,
            prompts: self.prompts,
            resources: self.resources,
            completion: Some(provider),
            logging: self.logging,
            info: self.info,
            instructions: self.instructions,
        }
    }

    /// The builder with the logging slot set to `provider`.
    pub open spec fn with_logging_spec<NewL>(self, provider: NewL) -> ServerBuilder<
        T,
        P,
        R,
        C,
        NewL,
        I,
    > {
        ServerBuilder {
            tools: self.tools,
            prompts: self.prompts,
            resources: self.resources,
            completion: self.completion,
            logging: Some(provider),
            info: self.info,
            instructions: self.instructions,
        }
    }

    /// The builder with the metadata slot set to `provider`.
    pub open spec fn with_info_spec<NewI>(self, provider: NewI) -> ServerBuilder<
        T,
        P,
        R,
        C,
        L,
        NewI,
    > {
        ServerBuilder {
            tools: self.tools,
            prompts: self.prompts,
            resources: self.resources,
            completion: self.completion,
            logging: self.logging,
            info: Some(provider),
            instructions: self.instructions,
        }
    }

    /// The builder with the instruction text set.
    pub open spec fn with_instructions_spec(self, instructions: String) -> ServerBuilder<
        T,
        P,
        R,
        C,
        L,
        I,
    > {
        ServerBuilder {
            tools: self.tools,
            prompts: self.prompts,
            resources: self.resources,
            completion: self.completion,
            logging: self.logging,
            info: self.info,
            instructions: Some(instructions),
        }
    }

    /// Set the tools provider.
    pub fn tools<NewT>(self, provider: NewT) -> (r: ServerBuilder<NewT, P, R, C, L, I>)
        ensures
            r == self.with_tools_spec(provider),
    {
        ServerBuilder {
            tools: Some(provider),
            prompts: self.prompts,
            resources: self.resources,
            completion: self.completion,
            logging: self.logging,
            info: self.info,
            instructions: self.instructions,
        }
    }

    /// Set the prompts provider.
    pub fn prompts<NewP>(self, provider: NewP) -> (r: ServerBuilder<T, NewP, R, C, L, I>)
        ensures
            r == self.with_prompts_spec(provider),
    {
        ServerBuilder {
            tools: self.tools,
            prompts: Some(provider),
            resources: self.resources,
            completion: self.completion,
            logging: self.logging,
            info: self.info,
            instructions: self.instructions,
        }
    }

    /// Set the resources provider.
    pub fn resources<NewR>(self, provider: NewR) -> (r: ServerBuilder<T, P, NewR, C, L, I>)
        ensures
            r == self.with_resources_spec(provider),
    {
        ServerBuilder {
            tools: self.tools,
            prompts: self.prompts,
            resources: Some(provider),
            completion: self.completion,
            logging: self.logging,
            info: self.info,
            instructions: self.instructions,
        }
    }

    /// Set the completion provider.
    pub fn completion<NewC>(self, provider: NewC) -> (r: ServerBuilder<T, P, R, NewC, L, I>)
        ensures
            r == self.with_completion_spec(provider),
    {
        ServerBuilder {
            tools: self.tools,
            prompts: self.prompts,
            resources: self.resources,
            completion: Some(provider),
            logging: self.logging,
            info: self.info,
            instructions: self.instructions,
        }
    }

    /// Set the logging provider.
    pub fn logging<NewL>(self, provider: NewL) -> (r: ServerBuilder<T, P, R, C, NewL, I>)
        ensures
            r == self.with_logging_spec(provider),
    {
        ServerBuilder {
            tools: self.tools,
            prompts: self.prompts,
            resources: self.resources,
            completion: self.completion,
            logging: Some(provider),
            info: self.info,
            instructions: self.instructions,
        }
    }

    /// Set the metadata provider.
    pub fn info<NewI>(self, provider: NewI) -> (r: ServerBuilder<T, P, R, C, L, NewI>)
        ensures
            r == self.with_info_spec(provider),
    {
        ServerBuilder {
            tools: self.tools,
            prompts: self.prompts,
            resources: self.resources,
            completion: self.completion,
            logging: self.logging,
            info: Some(provider),
            instructions: self.instructions,
        }
    }

    /// Set human-readable instructions for using this server.
    pub fn instructions(self, instructions: String) -> (r: Self)
        ensures
            r == self.with_instructions_spec(instructions),
    {
        ServerBuilder {
            tools: self.tools,
            prompts: self.prompts,
            resources: self.resources,
            completion: self.completion,
            logging: self.logging,
            info: self.info,
            instructions: Some(instructions),
        }
    }
}

impl<T, P, R, C, L, I: ServerInfoProvider> ServerBuilder<T, P, R, C, L, I> {
    /// The server this builder stands for, once the metadata slot is filled.
    pub open spec fn build_spec(self) -> Server<T, P, R, C, L, I>
        recommends
            self.info is Some,
    {
        Server {
            tools: self.tools,
            prompts: self.prompts,
            resources: self.resources,
            completion: self.completion,
            logging: self.logging,
            info: self.info->0,
            instructions: self.instructions,
        }
    }

    /// Build the server.
    ///
    /// Every slot's current value moves into the server unchanged; unfilled
    /// slots leave the server answering "method not found" for their
    /// category. The metadata slot must have been set.
    pub fn build(self) -> (r: Server<T, P, R, C, L, I>)
        requires
            self.info is Some,
        ensures
            r == self.build_spec(),
    {
        let info = match self.info {
            Some(i) => i,
            None => unreached(),
        };
        Server {
            tools: self.tools,
            prompts: self.prompts,
            resources: self.resources,
            completion: self.completion,
            logging: self.logging,
            info,
            instructions: self.instructions,
        }
    }
}

/// Law: setting the tools and prompts slots commutes. Together with the
/// other pair lemmas below, slots set in any order yield the same builder,
/// and therefore an identical constructed server.
pub proof fn lemma_tools_prompts_commute<T, P, R, C, L, I, NT, NP>(
    b: ServerBuilder<T, P, R, C, L, I>,
    t: NT,
    p: NP,
)
    ensures
        b.with_tools_spec(t).with_prompts_spec(p) == b.with_prompts_spec(p).with_tools_spec(t),
{
}

/// Law: setting the tools and resources slots commutes.
pub proof fn lemma_tools_resources_commute<T, P, R, C, L, I, NT, NR>(
    b: ServerBuilder<T, P, R, C, L, I>,
    t: NT,
    r: NR,
)
    ensures
        b.with_tools_spec(t).with_resources_spec(r) == b.with_resources_spec(r).with_tools_spec(t),
{
}

/// Law: setting the tools and completion slots commutes.
pub proof fn lemma_tools_completion_commute<T, P, R, C, L, I, NT, NC>(
    b: ServerBuilder<T, P, R, C, L, I>,
    t: NT,
    c: NC,
)
    ensures
        b.with_tools_spec(t).with_completion_spec(c) == b.with_completion_spec(
            c,
        ).with_tools_spec(t),
{
}

/// Law: setting the tools and logging slots commutes.
pub proof fn lemma_tools_logging_commute<T, P, R, C, L, I, NT, NL>(
    b: ServerBuilder<T, P, R, C, L, I>,
    t: NT,
    l: NL,
)
    ensures
        b.with_tools_spec(t).with_logging_spec(l) == b.with_logging_spec(l).with_tools_spec(t),
{
}

/// Law: setting the tools and metadata slots commutes.
pub proof fn lemma_tools_info_commute<T, P, R, C, L, I, NT, NI>(
    b: ServerBuilder<T, P, R, C, L, I>,
    t: NT,
    i: NI,
)
    ensures
        b.with_tools_spec(t).with_info_spec(i) == b.with_info_spec(i).with_tools_spec(t),
{
}

/// Law: setting the prompts and resources slots commutes.
pub proof fn lemma_prompts_resources_commute<T, P, R, C, L, I, NP, NR>(
    b: ServerBuilder<T, P, R, C, L, I>,
    p: NP,
    r: NR,
)
    ensures
        b.with_prompts_spec(p).with_resources_spec(r) == b.with_resources_spec(
            r,
        ).with_prompts_spec(p),
{
}

/// Law: setting the prompts and completion slots commutes.
pub proof fn lemma_prompts_completion_commute<T, P, R, C, L, I, NP, NC>(
    b: ServerBuilder<T, P, R, C, L, I>,
    p: NP,
    c: NC,
)
    ensures
        b.with_prompts_spec(p).with_completion_spec(c) == b.with_completion_spec(
            c,
        ).with_prompts_spec(p),
{
}

/// Law: setting the prompts and logging slots commutes.
pub proof fn lemma_prompts_logging_commute<T, P, R, C, L, I, NP, NL>(
    b: ServerBuilder<T, P, R, C, L, I>,
    p: NP,
    l: NL,
)
    ensures
        b.with_prompts_spec(p).with_logging_spec(l) == b.with_logging_spec(l).with_prompts_spec(p),
{
}

/// Law: setting the prompts and metadata slots commutes.
pub proof fn lemma_prompts_info_commute<T, P, R, C, L, I, NP, NI>(
    b: ServerBuilder<T, P, R, C, L, I>,
    p: NP,
    i: NI,
)
    ensures
        b.with_prompts_spec(p).with_info_spec(i) == b.with_info_spec(i).with_prompts_spec(p),
{
}

/// Law: setting the resources and completion slots commutes.
pub proof fn lemma_resources_completion_commute<T, P, R, C, L, I, NR, NC>(
    b: ServerBuilder<T, P, R, C, L, I>,
    r: NR,
    c: NC,
)
    ensures
        b.with_resources_spec(r).with_completion_spec(c) == b.with_completion_spec(
            c,
        ).with_resources_spec(r),
{
}

/// Law: setting the resources and logging slots commutes.
pub proof fn lemma_resources_logging_commute<T, P, R, C, L, I, NR, NL>(
    b: ServerBuilder<T, P, R, C, L, I>,
    r: NR,
    l: NL,
)
    ensures
        b.with_resources_spec(r).with_logging_spec(l) == b.with_logging_spec(
            l,
        ).with_resources_spec(r),
{
}

/// Law: setting the resources and metadata slots commutes.
pub proof fn lemma_resources_info_commute<T, P, R, C, L, I, NR, NI>(
    b: ServerBuilder<T, P, R, C, L, I>,
    r: NR,
    i: NI,
)
    ensures
        b.with_resources_spec(r).with_info_spec(i) == b.with_info_spec(i).with_resources_spec(r),
{
}

/// Law: setting the completion and logging slots commutes.
pub proof fn lemma_completion_logging_commute<T, P, R, C, L, I, NC, NL>(
    b: ServerBuilder<T, P, R, C, L, I>,
    c: NC,
    l: NL,
)
    ensures
        b.with_completion_spec(c).with_logging_spec(l) == b.with_logging_spec(
            l,
        ).with_completion_spec(c),
{
}

/// Law: setting the completion and metadata slots commutes.
pub proof fn lemma_completion_info_commute<T, P, R, C, L, I, NC, NI>(
    b: ServerBuilder<T, P, R, C, L, I>,
    c: NC,
    i: NI,
)
    ensures
        b.with_completion_spec(c).with_info_spec(i) == b.with_info_spec(i).with_completion_spec(c),
{
}

/// Law: setting the logging and metadata slots commutes.
pub proof fn lemma_logging_info_commute<T, P, R, C, L, I, NL, NI>(
    b: ServerBuilder<T, P, R, C, L, I>,
    l: NL,
    i: NI,
)
    ensures
        b.with_logging_spec(l).with_info_spec(i) == b.with_info_spec(i).with_logging_spec(l),
{
}

/// Law: setting the instruction text commutes with setting the tools slot.
pub proof fn lemma_instructions_tools_commute<T, P, R, C, L, I, NT>(
    b: ServerBuilder<T, P, R, C, L, I>,
    ins: String,
    t: NT,
)
    ensures
        b.with_instructions_spec(ins).with_tools_spec(t) == b.with_tools_spec(
            t,
        ).with_instructions_spec(ins),
{
}

/// Law: setting the instruction text commutes with setting the prompts slot.
pub proof fn lemma_instructions_prompts_commute<T, P, R, C, L, I, NP>(
    b: ServerBuilder<T, P, R, C, L, I>,
    ins: String,
    p: NP,
)
    ensures
        b.with_instructions_spec(ins).with_prompts_spec(p) == b.with_prompts_spec(
            p,
        ).with_instructions_spec(ins),
{
}

/// Law: setting the instruction text commutes with setting the resources slot.
pub proof fn lemma_instructions_resources_commute<T, P, R, C, L, I, NR>(
    b: ServerBuilder<T, P, R, C, L, I>,
    ins: String,
    r: NR,
)
    ensures
        b.with_instructions_spec(ins).with_resources_spec(r) == b.with_resources_spec(
            r,
        ).with_instructions_spec(ins),
{
}

/// Law: setting the instruction text commutes with setting the completion slot.
pub proof fn lemma_instructions_completion_commute<T, P, R, C, L, I, NC>(
    b: ServerBuilder<T, P, R, C, L, I>,
    ins: String,
    c: NC,
)
    ensures
        b.with_instructions_spec(ins).with_completion_spec(c) == b.with_completion_spec(
            c,
        ).with_instructions_spec(ins),
{
}

/// Law: setting the instruction text commutes with setting the logging slot.
pub proof fn lemma_instructions_logging_commute<T, P, R, C, L, I, NL>(
    b: ServerBuilder<T, P, R, C, L, I>,
    ins: String,
    l: NL,
)
    ensures
        b.with_instructions_spec(ins).with_logging_spec(l) == b.with_logging_spec(
            l,
        ).with_instructions_spec(ins),
{
}

/// Law: setting the instruction text commutes with setting the metadata slot.
pub proof fn lemma_instructions_info_commute<T, P, R, C, L, I, NI>(
    b: ServerBuilder<T, P, R, C, L, I>,
    ins: String,
    i: NI,
)
    ensures
        b.with_instructions_spec(ins).with_info_spec(i) == b.with_info_spec(
            i,
        ).with_instructions_spec(ins),
{
}

/// Law: setting the tools slot twice retains only the second value.
pub proof fn lemma_tools_twice<T, P, R, C, L, I, N1, N2>(
    b: ServerBuilder<T, P, R, C, L, I>,
    t1: N1,
    t2: N2,
)
    ensures
        b.with_tools_spec(t1).with_tools_spec(t2) == b.with_tools_spec(t2),
{
}

/// Law: setting the prompts slot twice retains only the second value.
pub proof fn lemma_prompts_twice<T, P, R, C, L, I, N1, N2>(
    b: ServerBuilder<T, P, R, C, L, I>,
    p1: N1,
    p2: N2,
)
    ensures
        b.with_prompts_spec(p1).with_prompts_spec(p2) == b.with_prompts_spec(p2),
{
}

/// Law: setting the resources slot twice retains only the second value.
pub proof fn lemma_resources_twice<T, P, R, C, L, I, N1, N2>(
    b: ServerBuilder<T, P, R, C, L, I>,
    r1: N1,
    r2: N2,
)
    ensures
        b.with_resources_spec(r1).with_resources_spec(r2) == b.with_resources_spec(r2),
{
}

/// Law: setting the completion slot twice retains only the second value.
pub proof fn lemma_completion_twice<T, P, R, C, L, I, N1, N2>(
    b: ServerBuilder<T, P, R, C, L, I>,
    c1: N1,
    c2: N2,
)
    ensures
        b.with_completion_spec(c1).with_completion_spec(c2) == b.with_completion_spec(c2),
{
}

/// Law: setting the logging slot twice retains only the second value.
pub proof fn lemma_logging_twice<T, P, R, C, L, I, N1, N2>(
    b: ServerBuilder<T, P, R, C, L, I>,
    l1: N1,
    l2: N2,
)
    ensures
        b.with_logging_spec(l1).with_logging_spec(l2) == b.with_logging_spec(l2),
{
}

/// Law: setting the metadata slot twice retains only the second value.
pub proof fn lemma_info_twice<T, P, R, C, L, I, N1, N2>(
    b: ServerBuilder<T, P, R, C, L, I>,
    i1: N1,
    i2: N2,
)
    ensures
        b.with_info_spec(i1).with_info_spec(i2) == b.with_info_spec(i2),
{
}

/// Law: setting the instruction text twice retains only the second value.
pub proof fn lemma_instructions_twice<T, P, R, C, L, I>(
    b: ServerBuilder<T, P, R, C, L, I>,
    ins1: String,
    ins2: String,
)
    ensures
        b.with_instructions_spec(ins1).with_instructions_spec(ins2) == b.with_instructions_spec(
            ins2,
        ),
{
}

/// A simple metadata provider: an identity record plus an explicit base
/// capability set.
#[derive(Clone, Debug, PartialEq, Eq)]
pub struct SimpleInfo {
    pub server_info: Implementation,
    pub capabilities: ServerCapabilities,
}

impl SimpleInfo {
    /// Create a metadata provider with the given identity and no base
    /// capability flags.
    pub fn new(server_info: Implementation) -> (r: SimpleInfo)
        ensures
            r.server_info == server_info,
            r.capabilities == ServerCapabilities::spec_default(),
    {
        SimpleInfo { server_info, capabilities: ServerCapabilities::default() }
    }

    /// Set the base capability flags.
    pub fn with_capabilities(self, capabilities: ServerCapabilities) -> (r: SimpleInfo)
        ensures
            r.server_info == self.server_info,
            r.capabilities == capabilities,
    {
        SimpleInfo { server_info: self.server_info, capabilities }
    }
}

impl ServerInfoProvider for SimpleInfo {
    open spec fn info_spec(&self) -> ServerInfoView {
        ServerInfoView {
            protocol_version: default_protocol_version_spec(),
            capabilities: self.capabilities,
            server_info: self.server_info@,
            instructions: None,
        }
    }

    fn get_info(&self) -> (r: ServerInfo) {
        ServerInfo {
            protocol_version: default_protocol_version().to_owned(),
            capabilities: self.capabilities,
            server_info: self.server_info.duplicate(),
            instructions: None,
        }
    }

    fn capabilities(&self) -> (r: ServerCapabilities) {
        self.capabilities
    }
}

impl ServerInfoProvider for ServerInfo {
    open spec fn info_spec(&self) -> ServerInfoView {
        self@
    }

    fn get_info(&self) -> (r: ServerInfo) {
        self.duplicate()
    }
}

impl ServerInfoProvider for Implementation {
    open spec fn info_spec(&self) -> ServerInfoView {
        ServerInfoView {
            protocol_version: default_protocol_version_spec(),
            capabilities: ServerCapabilities::spec_default(),
            server_info: self@,
            instructions: None,
        }
    }

    fn get_info(&self) -> (r: ServerInfo) {
        ServerInfo {
            protocol_version: default_protocol_version().to_owned(),
            capabilities: ServerCapabilities::default(),
            server_info: self.duplicate(),
            instructions: None,
        }
    }
}

} // verus!
