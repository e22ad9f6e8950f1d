//! One-time logging initializer.
//!
//! A process configures its logging backend at most once: the initialization
//! guard in this root module runs the dispatcher configurator on the first
//! call and ignores every later one.  The severity model and the configurator
//! live in [`logger`], the line formatting in [`textfmt`].

use vstd::prelude::*;

pub mod logger;
pub mod textfmt;

use crate::logger::{Backend, LogState, Sink};

verus! {

/// The guard transition: a first call installs the backend mapped from the
/// level and marks the state initialized; any later call changes nothing.
pub open spec fn spec_enable(s: LogState, level: int, sink: Sink) -> LogState {
    if s.initialized {
        s
    } else {
        LogState {
            initialized: true,
            backend: Some(Backend { filter: logger::spec_filter_of(level), sink }),
        }
    }
}

/// Initialization entry point: configures the backend on the first call,
/// silently ignores every repeat call whatever its arguments.
///
/// An uninitialized state with a backend already installed through an
/// unmanaged path is excluded: there the original configuration step fails
/// fatally instead of returning.
pub fn enable(state: &mut LogState, level: i32, sink: Sink)
    requires
        old(state).initialized || old(state).backend is None,
    ensures
        *final(state) == spec_enable(*old(state), level as int, sink),
{
    if !state.initialized {
        let _ = logger::setup(state, level, sink);
        state.initialized = true;
    }
}

/// Repeat initialization is ignored: enabling twice, with any second level
/// and sink, leaves exactly the state of the first call.
pub proof fn lemma_enable_second_call_ignored(
    s: LogState,
    l1: int,
    k1: Sink,
    l2: int,
    k2: Sink,
)
    ensures
        spec_enable(spec_enable(s, l1, k1), l2, k2) == spec_enable(s, l1, k1),
{
}

/// The guard never leaves the initialized state.
pub proof fn lemma_enable_initializes(s: LogState, level: int, sink: Sink)
    ensures
        spec_enable(s, level, sink).initialized,
{
}

/// After a first call to the initialization entry point, a record reaches
/// the sink exactly when the mapped filter admits its severity and a
/// concrete sink is attached; with an unrecognized level the filter is `Off`
/// and nothing is ever emitted.
pub proof fn lemma_enable_determines_emission(s: LogState, level: int, sink: Sink, rec: logger::Record)
    requires
        !s.initialized,
    ensures
        logger::spec_emits(spec_enable(s, level, sink), rec) <==> (logger::spec_passes(
            logger::spec_filter_of(level),
            rec.level,
        ) && sink != Sink::NoSink),
{
}

} // verus!
