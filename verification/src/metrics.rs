//! The exposition pipeline: collectors, registerers, and the handler that
//! runs them and serializes the registry on each scrape.

pub mod throttled;

use vstd::prelude::*;

use crate::executor::{exec_error_text, ExecError};
use crate::parser::ParseError;
use crate::registry::{spec_render_registry, Registry, RegistryModel};

verus! {

/// Failure to update the registry: the registerer's families are not present
/// where it expects them.
#[derive(Clone, Copy, Debug, PartialEq, Eq, Structural)]
pub enum RegisterError {
    FamiliesNotRegistered,
}

/// The diagnostic text of a registration failure.
pub open spec fn register_error_text(e: RegisterError) -> Seq<char> {
    "metric families are not registered"@
}

impl RegisterError {
    /// The failure as a diagnostic message.
    pub fn message(&self) -> (r: String)
        ensures
            r@ == register_error_text(*self),
    {
        let mut buf = String::new();
        buf.append("metric families are not registered");
        buf
    }
}

/// Why one collection attempt failed: at the command, at the parser, or at
/// the registry. A failure at any stage aborts the attempt, so a half-decoded
/// state never reaches the registry.
#[derive(Clone, Debug)]
pub enum CollectError {
    Exec(ExecError),
    Parse(ParseError),
    Register(RegisterError),
}

/// The diagnostic text of a collection failure.
pub open spec fn collect_error_text(e: CollectError) -> Seq<char> {
    match e {
        CollectError::Exec(x) => exec_error_text(x),
        CollectError::Parse(p) => p.message@,
        CollectError::Register(r) => register_error_text(r),
    }
}

impl CollectError {
    /// The failure as a diagnostic message.
    pub fn message(&self) -> (r: String)
        ensures
            r@ == collect_error_text(*self),
    {
        match self {
            CollectError::Exec(x) => x.message(),
            CollectError::Parse(p) => p.message.clone(),
            CollectError::Register(r) => r.message(),
        }
    }
}

/// A projection of one decoded record onto the registry.
///
/// `wf` says where the registerer's families stand in a registry; `apply` is
/// the projection itself, as a function on registry models. `register` must
/// perform exactly `apply` on a registry where `wf` holds, and must leave any
/// other registry untouched.
pub trait Registerer {
    type Item;

    spec fn wf(&self, reg: RegistryModel) -> bool;

    spec fn apply(&self, reg: RegistryModel, item: Self::Item) -> RegistryModel;

    fn register(&self, item: Self::Item, registry: &mut Registry) -> (r: Result<
        (),
        RegisterError,
    >)
        ensures
            self.wf(old(registry)@) ==> r is Ok && final(registry)@ == self.apply(
                old(registry)@,
                item,
            ) && self.wf(final(registry)@),
            !self.wf(old(registry)@) ==> r is Err && final(registry)@ == old(registry)@,
    ;
}

/// One named collection unit. A failed collection leaves the registry as it
/// was: stale values are preferred over a blanked scrape.
pub trait Collector {
    /// The collector's name, under which its failures are attributed.
    spec fn spec_name(&self) -> Seq<char>;

    fn name(&self) -> (r: &'static str)
        ensures
            r@ == self.spec_name(),
    ;

    fn collect(&self, registry: &mut Registry) -> (r: Result<(), CollectError>)
        ensures
            r is Err ==> final(registry)@ == old(registry)@,
    ;
}

/// A scrape handler: produces the exposition body, or a diagnostic message
/// when even serialization is impossible.
pub trait Handler {
    fn handle(&mut self) -> (r: Result<String, String>);
}

/// The exposition handler: runs the configured collector, then serializes
/// whatever the registry holds. A collection failure is remembered for the
/// log sink, never surfaced to the scrape: the scrape shows the registry's
/// last good values.
pub struct MetricsHandler<C> {
    pub throttled: Option<C>,
    pub registry: Registry,
    pub last_failure: Option<String>,
}

impl<C: Collector> MetricsHandler<C> {
    /// A handler over the given collector and registry.
    pub fn new(throttled: Option<C>, registry: Registry) -> (r: MetricsHandler<C>)
        ensures
            r.throttled == throttled,
            r.registry == registry,
            r.last_failure is None,
    {
        MetricsHandler { throttled, registry, last_failure: None }
    }

    /// Runs the collector, then serializes the registry. Always returns the
    /// exposition body of the registry as it stands after the collection
    /// attempt; a collection failure only sets `last_failure`, wrapped with
    /// the collector's name for attribution.
    pub fn collect_and_encode(&mut self) -> (r: Result<String, String>)
        ensures
            r matches Ok(b) && b@ == spec_render_registry(final(self).registry@),
            final(self).throttled == old(self).throttled,
            old(self).throttled is None ==> final(self).registry == old(self).registry
                && final(self).last_failure is None,
            final(self).last_failure matches Some(m) ==> (old(self).throttled matches Some(c)
                && exists|e: CollectError| m@ == c.spec_name() + " collector error: "@
                + collect_error_text(e)),
    {
        let mut failure: Option<String> = None;
        match &self.throttled {
            Some(collector) => {
                match collector.collect(&mut self.registry) {
                    Ok(_) => {},
                    Err(e) => {
                        let mut msg = String::new();
                        msg.append(collector.name());
                        msg.append(" collector error: ");
                        let detail = e.message();
                        msg.append(detail.as_str());
                        proof {
                            assert(msg@ == collector.spec_name() + " collector error: "@
                                + collect_error_text(e));
                        }
                        failure = Some(msg);
                    },
                }
            },
            None => {},
        }
        self.last_failure = failure;
        let body = self.registry.render();
        Ok(body)
    }
}

impl<C: Collector> Handler for MetricsHandler<C> {
    /// The scrape entry point is exactly [`MetricsHandler::collect_and_encode`],
    /// with its contract.
    fn handle(&mut self) -> (r: Result<String, String>)
        ensures
            r matches Ok(b) && b@ == spec_render_registry(final(self).registry@),
            final(self).throttled == old(self).throttled,
            old(self).throttled is None ==> final(self).registry == old(self).registry
                && final(self).last_failure is None,
            final(self).last_failure matches Some(m) ==> (old(self).throttled matches Some(c)
                && exists|e: CollectError| m@ == c.spec_name() + " collector error: "@
                + collect_error_text(e)),
    {
        self.collect_and_encode()
    }
}

} // verus!
