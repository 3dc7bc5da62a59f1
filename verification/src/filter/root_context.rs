//! The lifecycle owner: it holds the current snapshot and hands a copy of it
//! to every exchange that begins.
//!
//! The owner starts unconfigured, with the default snapshot. A document that
//! is accepted makes it configured and becomes its snapshot; a document that
//! is refused changes nothing and is reported; no document at all is no
//! fault. An exchange that has begun keeps the copy it was given: a later
//! document reaches only the exchanges that begin after it.

use super::http_context::HttpLimitSize;
use crate::config::{ConfigError, Configuration};
use crate::decimal::{decimal, render_decimal};
use crate::guard::SizeGuard;
use crate::log::IdentLogger;
use vstd::prelude::*;

verus! {

/// `proxy_wasm::types::ContextType`, the kinds of context that the host
/// can ask for.
#[verifier::external_type_specification]
pub struct ExContextType(proxy_wasm::types::ContextType);

/// The identifier of the root context with the number `context_id`.
pub open spec fn root_ident(context_id: u32) -> Seq<char> {
    "("@ + decimal(context_id as nat) + "/root)"@
}

/// The identifier of the exchange `context_id` under the root context
/// `root_id`.
pub open spec fn http_ident(context_id: u32, root_id: u32) -> Seq<char> {
    "("@ + decimal(context_id as nat) + "/http "@ + decimal(root_id as nat) + "/root)"@
}

/// The lifecycle owner of one installation of the filter.
///
/// It is unconfigured until a document has been accepted, and configured
/// from then on. Until then its snapshot is the default one.
#[derive(Debug)]
pub struct RootLimitSize {
    pub context_id: u32,
    pub log_id: String,
    pub vm_configuration: Option<Vec<u8>>,
    pub configuration: Configuration,
    pub configured: bool,
}

impl RootLimitSize {
    /// An owner that has accepted no document holds the default snapshot, and
    /// its identifier is the one of its number.
    pub open spec fn wf(self) -> bool {
        &&& !self.configured ==> self.configuration == Configuration::spec_default()
        &&& self.log_id@ == root_ident(self.context_id)
    }

    /// The owner after the host has supplied `plugin_configuration`, and
    /// what it answers. Without a document nothing changes. A document that
    /// is accepted becomes the snapshot; one that is not changes nothing.
    pub open spec fn after_configure(self, plugin_configuration: Option<Seq<u8>>) -> (
        RootLimitSize,
        Result<(), ConfigError>,
    ) {
        match plugin_configuration {
            None => (self, Ok(())),
            Some(bytes) => match Configuration::parsed(bytes) {
                Ok(configuration) => (
                    RootLimitSize { configuration, configured: true, ..self },
                    Ok(()),
                ),
                Err(e) => (self, Err(e)),
            },
        }
    }

    /// The owner that the host knows under the number `context_id`.
    pub fn new(context_id: u32) -> (root: Self)
        ensures
            root.wf(),
            root.context_id == context_id,
            root.vm_configuration is None,
            root.configuration == Configuration::spec_default(),
            !root.configured,
    {
        let mut log_id = String::from_str("(");
        let number = render_decimal(context_id as u64);
        log_id.append(number.as_str());
        log_id.append("/root)");
        Self {
            context_id,
            log_id,
            vm_configuration: None,
            configuration: Configuration::default(),
            configured: false,
        }
    }

    /// The virtual machine starts; `vm_configuration` is what the host holds
    /// as its configuration. It is kept as it is: the filter needs none, and
    /// starts with or without one.
    pub fn on_vm_start(&mut self, vm_configuration: Option<Vec<u8>>) -> (started: bool)
        ensures
            started,
            *final(self) == (RootLimitSize { vm_configuration, ..*old(self) }),
    {
        self.vm_configuration = vm_configuration;
        true
    }

    /// The host configures the filter; `plugin_configuration` is the document
    /// that it supplies, if it supplies one.
    pub fn on_configure(&mut self, plugin_configuration: Option<&[u8]>) -> (r: Result<
        (),
        ConfigError,
    >)
        ensures
            (*final(self), r) == old(self).after_configure(
                match plugin_configuration {
                    Some(bytes) => Some(bytes@),
                    None => None,
                },
            ),
            old(self).wf() ==> final(self).wf(),
    {
        let conf = match plugin_configuration {
            Some(conf) => conf,
            None => {
                return Ok(());
            },
        };
        let conf = match Configuration::try_from(conf) {
            Ok(conf) => conf,
            Err(e) => {
                return Err(e);
            },
        };
        self.configuration = conf;
        self.configured = true;
        Ok(())
    }

    /// The snapshot that exchanges beginning now are given.
    pub fn current_snapshot(&self) -> (snapshot: Configuration)
        ensures
            snapshot == self.configuration,
    {
        self.configuration
    }

    /// An exchange begins: its filter takes a copy of the current snapshot
    /// and starts with nothing counted.
    pub fn create_http_context(&self, context_id: u32) -> (http: HttpLimitSize)
        ensures
            http.context_id == context_id,
            http.log_id@ == http_ident(context_id, self.context_id),
            http.configuration == self.configuration,
            http.request == SizeGuard::fresh(),
            http.response == SizeGuard::fresh(),
    {
        let mut log_id = String::from_str("(");
        let number = render_decimal(context_id as u64);
        log_id.append(number.as_str());
        log_id.append("/http ");
        let root_number = render_decimal(self.context_id as u64);
        log_id.append(root_number.as_str());
        log_id.append("/root)");
        HttpLimitSize {
            context_id,
            log_id,
            configuration: self.configuration,
            request: SizeGuard::new(),
            response: SizeGuard::new(),
        }
    }

    /// The kind of context that this owner creates.
    pub fn get_type(&self) -> (kind: Option<proxy_wasm::types::ContextType>)
        ensures
            kind == Some(proxy_wasm::types::ContextType::HttpContext),
    {
        Some(proxy_wasm::types::ContextType::HttpContext)
    }
}

impl IdentLogger for RootLimitSize {
    open spec fn ident_view(&self) -> Seq<char> {
        self.log_id@
    }

    fn ident(&self) -> (ident: &str) {
        self.log_id.as_str()
    }
}

impl IdentLogger for HttpLimitSize {
    open spec fn ident_view(&self) -> Seq<char> {
        self.log_id@
    }

    fn ident(&self) -> (ident: &str) {
        self.log_id.as_str()
    }
}

} // verus!
