//! The interception shim's binding to the real system library: a lazy,
//! at-most-once state machine. The embedding code performs the actual
//! resolution and serialises first use with a one-time-initialisation
//! primitive; this module carries the states, the transitions, and the
//! path of the real library.

use vstd::prelude::*;

use vstd::string::StringExecFns;

verus! {

/// The life of the binding. `Bound` and `Failed` are terminal: the handle,
/// once obtained, is kept for the rest of the process and deliberately
/// never released, so that in-flight forwarded calls stay valid; a failure
/// is fatal, since the shim exists only to forward.
#[derive(Clone, Copy, PartialEq, Eq, Structural, Debug)]
pub enum BindState {
    /// No binding attempt has started.
    Unbound,
    /// One caller is resolving; everyone else waits.
    Binding,
    /// The real entry point's address.
    Bound(usize),
    /// Resolution failed; the entry point can never be serviced.
    Failed,
}

/// What a caller that needs the binding is told to do.
#[derive(Clone, Copy, PartialEq, Eq, Structural, Debug)]
pub enum FirstUse {
    /// This caller won the race: it must resolve the real library and then
    /// report the result.
    StartResolve,
    /// Another caller is resolving: wait for it to finish.
    AwaitResolution,
    /// The binding is ready: forward through this address.
    Use(usize),
    /// The binding failed earlier; the process cannot be serviced.
    Fatal,
}

/// The transition taken when a caller first needs the binding.
pub open spec fn spec_first_use(s: BindState) -> (BindState, FirstUse) {
    match s {
        BindState::Unbound => (BindState::Binding, FirstUse::StartResolve),
        BindState::Binding => (BindState::Binding, FirstUse::AwaitResolution),
        BindState::Bound(h) => (BindState::Bound(h), FirstUse::Use(h)),
        BindState::Failed => (BindState::Failed, FirstUse::Fatal),
    }
}

/// The binding cell. The embedding code holds the single process-wide
/// instance; all access to it must be serialised.
pub struct BindCell {
    state: BindState,
}

impl View for BindCell {
    type V = BindState;

    closed spec fn view(&self) -> BindState {
        self.state
    }
}

impl BindCell {
    /// A fresh cell: nothing bound, nothing attempted.
    pub fn new() -> (c: BindCell)
        ensures
            c@ == BindState::Unbound,
    {
        BindCell { state: BindState::Unbound }
    }

    /// Takes the first-use transition and says what this caller must do.
    pub fn first_use(&mut self) -> (r: FirstUse)
        ensures
            (final(self)@, r) == spec_first_use(old(self)@),
    {
        match self.state {
            BindState::Unbound => {
                self.state = BindState::Binding;
                FirstUse::StartResolve
            },
            BindState::Binding => FirstUse::AwaitResolution,
            BindState::Bound(h) => FirstUse::Use(h),
            BindState::Failed => FirstUse::Fatal,
        }
    }

    /// Records that the caller told to resolve obtained the real entry
    /// point's address.
    pub fn resolve_succeeded(&mut self, addr: usize)
        requires
            old(self)@ is Binding,
        ensures
            final(self)@ == BindState::Bound(addr),
    {
        self.state = BindState::Bound(addr);
    }

    /// Records that resolution failed; the cell is terminally failed.
    pub fn resolve_failed(&mut self)
        requires
            old(self)@ is Binding,
        ensures
            final(self)@ == BindState::Failed,
    {
        self.state = BindState::Failed;
    }

    /// The bound address, when there is one.
    pub fn bound_handle(&self) -> (r: Option<usize>)
        ensures
            r == (match self@ {
                BindState::Bound(h) => Some(h),
                _ => None::<usize>,
            }),
    {
        match self.state {
            BindState::Bound(h) => Some(h),
            _ => None,
        }
    }
}

/// Binding happens at most once: only the very first use starts a
/// resolution, no transition ever returns to `Unbound`, and a bound or
/// failed cell never changes again, so every caller observes the one bound
/// handle or the one failure.
pub proof fn lemma_bind_exactly_once(s: BindState)
    ensures
        (spec_first_use(s).1 == FirstUse::StartResolve) <==> (s is Unbound),
        spec_first_use(s).0 !is Unbound,
        s is Bound ==> spec_first_use(s) == (s, FirstUse::Use(s->Bound_0)),
        s is Failed ==> spec_first_use(s) == (s, FirstUse::Fatal),
{
}

/// Where the real system input library lives: under the system directory
/// named by the `WINDIR` environment value when one is set, with a fixed
/// fallback root otherwise.
pub open spec fn spec_real_library_path(windir: Option<Seq<char>>) -> Seq<char> {
    (match windir {
        Some(w) => w,
        None => "C:\\Windows"@,
    }) + "\\System32\\dinput8.dll"@
}

/// Builds the path of the real library from the `WINDIR` value the
/// embedding code read, or from the fallback root when none is set.
pub fn real_library_path(windir: Option<&str>) -> (r: String)
    ensures
        r@ == spec_real_library_path(match windir {
            Some(w) => Some(w@),
            None => None,
        }),
{
    let base: String = match windir {
        Some(w) => w.to_owned(),
        None => "C:\\Windows".to_owned(),
    };
    base.concat("\\System32\\dinput8.dll")
}

} // verus!
