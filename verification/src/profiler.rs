//! The memory-profiler singleton lifecycle: a lazily resolved, write-once
//! cell holding the outcome of at most one native activation attempt.
//!
//! The native layer (allocator hooks, the environment toggle, platform
//! support) is an external collaborator: the runtime around this library
//! probes it and reports a [`NativeInitOutcome`]; the resolution state
//! machine here is verified for every possible outcome. On a platform
//! without the capability the probe is the no-op variant
//! [`NativeInitOutcome::Unsupported`].

use vstd::prelude::*;
use crate::settings::MemoryProfilerSettings;
use crate::strutil::{dec_str, u64_to_dec};
use vstd::string::StrSliceExecFns;
use vstd::string::StringExecFns;

verus! {

/// What the platform layer reports for a native heap-profiling activation
/// attempt.
#[derive(Clone, Copy, Debug, PartialEq, Eq, Structural)]
pub enum NativeInitOutcome {
    /// The platform or build lacks heap-profiling capability; resolving to
    /// "no profiler" is a documented non-fatal degrade, never an error.
    Unsupported,
    /// Native heap profiling was activated.
    Activated,
    /// Activation was attempted and failed; the singleton stays
    /// unresolved so that a later attempt may still succeed.
    Failed,
}

/// Error returned when a native activation attempt fails.
#[derive(Clone, Copy, Debug, PartialEq, Eq, Structural)]
pub enum ProfilerError {
    /// The native layer reported a failed activation attempt.
    InitializationFailed,
}

impl ProfilerError {
    /// A human-readable description of the error.
    pub fn message(&self) -> (s: &'static str)
        ensures
            s@ == "memory profiler initialization failed"@,
    {
        "memory profiler initialization failed"
    }
}

/// Capability token proving that native heap profiling is active. Handed
/// out only by [`MemoryProfiler::get_or_init_with`]; it carries no state
/// of its own.
#[derive(Clone, Copy, Debug)]
pub struct ProfilerHandle {
    token: (),
}

impl ProfilerHandle {
    /// The `heap_stats` document: human-readable allocation statistics
    /// built from the native counters, beginning with the `Allocated`
    /// marker line.
    pub open spec fn spec_heap_stats(allocated: nat, active: nat, resident: nat) -> Seq<char> {
        "Allocated: "@ + dec_str(allocated) + "\nActive: "@ + dec_str(active) + "\nResident: "@
            + dec_str(resident) + "\n"@
    }

    /// Renders human-readable allocation statistics from the native
    /// counters the platform layer read.
    pub fn heap_stats(&self, allocated: u64, active: u64, resident: u64) -> (s: String)
        ensures
            s@ == Self::spec_heap_stats(allocated as nat, active as nat, resident as nat),
    {
        let mut s = String::new();
        s.append("Allocated: ");
        s.append(u64_to_dec(allocated).as_str());
        s.append("\nActive: ");
        s.append(u64_to_dec(active).as_str());
        s.append("\nResident: ");
        s.append(u64_to_dec(resident).as_str());
        s.append("\n");
        s
    }

    /// The `heap` profile document: the raw native dump with the
    /// mapped-libraries section appended.
    pub open spec fn spec_heap_profile(dump: Seq<char>, mapped_libraries: Seq<char>) -> Seq<char> {
        dump + "\nMAPPED_LIBRARIES:\n"@ + mapped_libraries
    }

    /// Appends the mapped-libraries section to the raw profile dump the
    /// platform layer produced.
    pub fn heap_profile(&self, dump: &str, mapped_libraries: &str) -> (s: String)
        ensures
            s@ == Self::spec_heap_profile(dump@, mapped_libraries@),
    {
        let mut s = dump.to_owned();
        s.append("\nMAPPED_LIBRARIES:\n");
        s.append(mapped_libraries);
        s
    }
}

/// Next state of the singleton's resolution state machine. `None` is the
/// unresolved state; `Some(outcome)` is resolved and final.
pub closed spec fn spec_next(
    state: Option<Option<ProfilerHandle>>,
    enabled: bool,
    native: NativeInitOutcome,
) -> Option<Option<ProfilerHandle>> {
    if !enabled {
        state
    } else if state is Some {
        state
    } else {
        match native {
            NativeInitOutcome::Unsupported => Some(None),
            NativeInitOutcome::Activated => Some(Some(ProfilerHandle { token: () })),
            NativeInitOutcome::Failed => state,
        }
    }
}

/// What a call observes: the result it returns.
pub closed spec fn spec_observed(
    state: Option<Option<ProfilerHandle>>,
    enabled: bool,
    native: NativeInitOutcome,
) -> Result<Option<ProfilerHandle>, ProfilerError> {
    if !enabled {
        Ok(None)
    } else if state is Some {
        Ok(state->Some_0)
    } else {
        match native {
            NativeInitOutcome::Unsupported => Ok(None),
            NativeInitOutcome::Activated => Ok(Some(ProfilerHandle { token: () })),
            NativeInitOutcome::Failed => Err(ProfilerError::InitializationFailed),
        }
    }
}

/// The process-wide memory-profiler singleton, modeled as an explicit,
/// lazily resolved, write-once cell. Exclusive access (`&mut self`) stands
/// for the mutual exclusion the host guarantees around the single
/// initializing attempt.
#[derive(Clone, Copy, Debug)]
pub struct MemoryProfiler {
    state: Option<Option<ProfilerHandle>>,
}

impl MemoryProfiler {
    /// The resolution state: `None` while unresolved, `Some(outcome)` once
    /// resolved.
    pub closed spec fn spec_state(self) -> Option<Option<ProfilerHandle>> {
        self.state
    }

    /// Whether the singleton has resolved.
    pub open spec fn is_resolved(self) -> bool {
        self.spec_state() is Some
    }

    /// A fresh, unresolved singleton.
    pub fn new() -> (p: Self)
        ensures
            !p.is_resolved(),
    {
        MemoryProfiler { state: None }
    }

    /// Resolves the singleton lazily and idempotently.
    ///
    /// * `enabled == false`: returns `Ok(None)` unconditionally, on every
    ///   call, without touching the state.
    /// * First enabled call: resolves per the reported native outcome —
    ///   `Activated` stores and returns a handle, `Unsupported` resolves
    ///   to `None` (non-fatal degrade), `Failed` is an error and leaves
    ///   the singleton unresolved.
    /// * Every enabled call after resolution returns the stored outcome,
    ///   whatever its arguments; the singleton never reinitializes.
    pub fn get_or_init_with(
        &mut self,
        settings: &MemoryProfilerSettings,
        native: NativeInitOutcome,
    ) -> (r: Result<Option<ProfilerHandle>, ProfilerError>)
        ensures
            final(self).spec_state() == spec_next(old(self).spec_state(), settings.enabled, native),
            r == spec_observed(old(self).spec_state(), settings.enabled, native),
            old(self).is_resolved() ==> final(self).spec_state() == old(self).spec_state(),
            !settings.enabled ==> r == Ok::<Option<ProfilerHandle>, ProfilerError>(None)
                && final(self).spec_state() == old(self).spec_state(),
            settings.enabled && old(self).is_resolved() ==> r == Ok::<
                Option<ProfilerHandle>,
                ProfilerError,
            >(old(self).spec_state()->Some_0),
            settings.enabled && !old(self).is_resolved() && native != NativeInitOutcome::Failed
                ==> final(self).is_resolved() && r == Ok::<Option<ProfilerHandle>, ProfilerError>(
                final(self).spec_state()->Some_0,
            ),
            settings.enabled && !old(self).is_resolved() && native
                == NativeInitOutcome::Unsupported ==> r == Ok::<
                Option<ProfilerHandle>,
                ProfilerError,
            >(None),
            settings.enabled && !old(self).is_resolved() && native == NativeInitOutcome::Activated
                ==> (r matches Ok(h) && h is Some),
            settings.enabled && !old(self).is_resolved() && native == NativeInitOutcome::Failed
                ==> r == Err::<Option<ProfilerHandle>, ProfilerError>(
                ProfilerError::InitializationFailed,
            ) && final(self).spec_state() == old(self).spec_state(),
    {
        if !settings.enabled {
            return Ok(None);
        }
        match &self.state {
            Some(resolved) => Ok(*resolved),
            None => match native {
                NativeInitOutcome::Unsupported => {
                    self.state = Some(None);
                    Ok(None)
                },
                NativeInitOutcome::Activated => {
                    let handle = ProfilerHandle { token: () };
                    self.state = Some(Some(handle));
                    Ok(Some(handle))
                },
                NativeInitOutcome::Failed => Err(ProfilerError::InitializationFailed),
            },
        }
    }
}

/// Law: resolution is write-once — a resolved singleton never changes,
/// whatever settings and native outcome later calls bring.
pub proof fn lemma_resolution_write_once(
    state: Option<Option<ProfilerHandle>>,
    enabled: bool,
    native: NativeInitOutcome,
)
    requires
        state is Some,
    ensures
        spec_next(state, enabled, native) == state,
{
}

/// Law: after resolution every enabled call observes exactly the resolved
/// outcome — all callers see the same value, never a mix.
pub proof fn lemma_resolved_observation(
    state: Option<Option<ProfilerHandle>>,
    native: NativeInitOutcome,
)
    requires
        state is Some,
    ensures
        spec_observed(state, true, native) == Ok::<Option<ProfilerHandle>, ProfilerError>(
            state->Some_0,
        ),
{
}

/// Law: exactly one call initializes. The first enabled call that does not
/// fail resolves the singleton, and what it returns is the resolved
/// outcome — the same value every later caller observes.
pub proof fn lemma_first_call_resolves(native: NativeInitOutcome)
    requires
        native != NativeInitOutcome::Failed,
    ensures
        spec_next(None, true, native) is Some,
        spec_observed(None, true, native) == Ok::<Option<ProfilerHandle>, ProfilerError>(
            spec_next(None, true, native)->Some_0,
        ),
{
}

/// Law: a disabled call neither resolves nor observes native state: it
/// returns `Ok(None)` and leaves the singleton exactly as it was.
pub proof fn lemma_disabled_call_is_inert(
    state: Option<Option<ProfilerHandle>>,
    native: NativeInitOutcome,
)
    ensures
        spec_next(state, false, native) == state,
        spec_observed(state, false, native) == Ok::<Option<ProfilerHandle>, ProfilerError>(None),
{
}

} // verus!
