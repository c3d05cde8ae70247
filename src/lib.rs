use vstd::prelude::*;

pub mod display;

verus! {

/// Why the host subsystem could not be brought up.
#[derive(Debug, PartialEq, Eq, Structural)]
pub enum BCMHostInitError {
    /// A live session already exists in this process.
    AlreadyInitialized,
}

/// Whether an `init` attempt made while the process flag reads `flag` succeeds.
pub open spec fn init_succeeds(flag: bool) -> bool {
    !flag
}

/// The process flag after an `init` attempt made while it read `flag`.
pub open spec fn flag_after_init(flag: bool) -> bool {
    true
}

/// Which of `n` successive `init` attempts succeed, the first made while the
/// process flag reads `flag`.
pub open spec fn init_outcomes(flag: bool, n: nat) -> Seq<bool>
    decreases n,
{
    if n == 0 {
        Seq::empty()
    } else {
        seq![init_succeeds(flag)] + init_outcomes(flag_after_init(flag), (n - 1) as nat)
    }
}

/// Once the flag is set, no attempt succeeds.
proof fn lemma_init_outcomes_when_set(n: nat)
    ensures
        init_outcomes(true, n).len() == n,
        forall|i: int| 0 <= i < n ==> !init_outcomes(true, n)[i],
    decreases n,
{
    if n > 0 {
        lemma_init_outcomes_when_set((n - 1) as nat);
    }
}

/// Of any number of successive `init` attempts in a fresh process, exactly
/// the first succeeds; every later one fails while the session is live. The
/// flag is never cleared, so a session cannot be started twice in one process.
pub proof fn lemma_only_first_init_succeeds(n: nat)
    ensures
        init_outcomes(false, n).len() == n,
        forall|i: int| 0 <= i < n ==> init_outcomes(false, n)[i] == (i == 0),
{
    if n > 0 {
        lemma_init_outcomes_when_set((n - 1) as nat);
        let rest = init_outcomes(true, (n - 1) as nat);
        assert forall|i: int| 0 <= i < n implies init_outcomes(false, n)[i] == (i == 0) by {
            if i > 0 {
                assert(init_outcomes(false, n)[i] == rest[i - 1]);
            }
        }
    }
}

/// The host session's marker, shared by every token of one session.
#[derive(Debug)]
struct BCMHost {
    live: bool,
}

impl BCMHost {
    fn new() -> (r: Self)
        ensures
            r.live,
    {
        BCMHost { live: true }
    }
}

/// Shared token proving the host subsystem is initialised. Displays and
/// updates hold a clone of it.
#[derive(Debug, Clone)]
pub struct BCMHostHandle {
    handle: std::sync::Arc<BCMHost>,
}

impl BCMHostHandle {
    /// Initialises the host subsystem with `host_init` unless the process
    /// flag, read under the caller's process-wide lock, says it already was.
    /// On failure `host_init` is not called.
    pub fn init<F: FnOnce()>(flag: &mut bool, host_init: F) -> (r: Result<Self, BCMHostInitError>)
        requires
            host_init.requires(()),
        ensures
            r is Ok <==> init_succeeds(*old(flag)),
            r is Err ==> r == Err::<Self, _>(BCMHostInitError::AlreadyInitialized),
            r is Ok ==> host_init.ensures((), ()),
            *final(flag) == flag_after_init(*old(flag)),
    {
        if *flag {
            Err(BCMHostInitError::AlreadyInitialized)
        } else {
            host_init();
            *flag = true;
            Ok(BCMHostHandle { handle: std::sync::Arc::new(BCMHost::new()) })
        }
    }

    /// Opens the display `display_id` with `open`, which is handed the
    /// output's device number and returns the native handle, zero on failure.
    pub fn dispmanx_display<F: FnOnce(u32) -> u32>(
        &self,
        display_id: display::DisplayID,
        open: F,
    ) -> (r: Result<display::Display, ()>)
        requires
            open.requires((display::display_id_value(display_id),)),
        ensures
            exists|raw: u32|
                open.ensures((display::display_id_value(display_id),), raw)
                && (r is Ok <==> raw != 0)
                && (r is Ok ==> r->Ok_0.raw() == raw && r->Ok_0.id() == display_id),
    {
        display::Display::new(self, display_id, open)
    }

    /// Starts an update at `priority` with `start`, which returns the native
    /// handle of the update, zero on failure.
    pub fn dispmanx_update_builder<F: FnOnce(i32) -> u32>(
        &self,
        priority: i32,
        start: F,
    ) -> (r: Result<display::UpdateBuilder, ()>)
        requires
            start.requires((priority,)),
        ensures
            exists|raw: u32|
                start.ensures((priority,), raw)
                && (r is Ok <==> raw != 0)
                && (r is Ok ==> r->Ok_0.raw() == raw),
    {
        display::UpdateBuilder::new(self, priority, start)
    }
}

} // verus!
