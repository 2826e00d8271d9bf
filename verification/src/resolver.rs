//! Resolves an import of a loaded module through the edges of the graph.

use crate::error::BundleError;
use crate::graph::{graph_dependency, resolve_in};
use vstd::prelude::*;

verus! {

/// Resolves specifiers against the graph it is bound to.
pub struct BundleResolver<'a>(pub &'a deno_graph::ModuleGraph);

impl<'a> BundleResolver<'a> {
    /// The identity that the import `specifier` of the module `referrer`
    /// leads to, as the graph resolves it without a preference for types.
    /// Where the graph does not resolve the import, the error names the
    /// specifier and the referrer.
    pub fn resolve(&self, referrer: &str, specifier: &str) -> (out: Result<String, BundleError>)
        ensures
            match out {
                Ok(target) => graph_dependency(*self.0, specifier@, referrer@, false) == Some(
                    target@,
                ),
                Err(error) => {
                    &&& graph_dependency(*self.0, specifier@, referrer@, false) is None
                    &&& error matches BundleError::Unresolved { specifier: s, referrer: r }
                    &&& s@ == specifier@
                    &&& r@ == referrer@
                },
            },
    {
        match resolve_in(self.0, specifier, referrer, false) {
            Some(target) => Ok(target),
            None => Err(
                BundleError::Unresolved {
                    specifier: String::from_str(specifier),
                    referrer: String::from_str(referrer),
                },
            ),
        }
    }
}

} // verus!
