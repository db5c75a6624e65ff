//! The metadata provider contract.
//!
//! The five optional request categories are served by arbitrary asynchronous
//! providers that the transport layer drives; the routing core only records
//! which slots hold one. Metadata is different: it is mandatory, synchronous
//! and infallible, so its contract lives here and the composite server's
//! derivations are proved against it.

use vstd::prelude::*;

use crate::model::ServerCapabilities;
use crate::model::ServerInfo;
use crate::model::ServerInfoView;

verus! {

/// Provider of the server's descriptive record.
///
/// Required for any composed server. `info_spec` is the record the provider
/// stands for; `get_info` must produce exactly that record, and
/// `capabilities` its capability flags (the base set, before the composite
/// server's slot-derived adjustments).
pub trait ServerInfoProvider {
    /// The descriptive record this provider stands for.
    spec fn info_spec(&self) -> ServerInfoView;

    /// Produce the server's descriptive record.
    fn get_info(&self) -> (r: ServerInfo)
        ensures
            r@ == self.info_spec(),
    ;

    /// The base capability flags, before slot-derived adjustments.
    fn capabilities(&self) -> (r: ServerCapabilities)
        ensures
            r == self.info_spec().capabilities,
    {
        self.get_info().capabilities
    }
}

} // verus!
