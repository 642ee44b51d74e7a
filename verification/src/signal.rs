//! Signals: asynchronous, fire-and-forget messages delivered into a
//! running execution's event stream.

use vstd::prelude::*;

verus! {

/// A signal kind, named so that the engine can route deliveries to
/// the handler registered under the same name.
pub trait Signal {
    /// The signal's registered name.
    fn name() -> &'static str;
}

} // verus!
