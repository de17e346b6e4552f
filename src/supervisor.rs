use vstd::prelude::*;

verus! {

/// Owns the handle of the one backend child process, if any.
///
/// The host keeps the supervisor behind one lock, so that each method runs
/// as a single critical section. `spawns` counts the processes this
/// supervisor has spawned since it was made.
pub struct Supervisor<H> {
    slot: Option<H>,
    spawns: Ghost<nat>,
}

/// How one message of the child's output stream is handled.
#[derive(Clone, Copy, Debug, PartialEq, Eq, Structural)]
pub enum OutputKind {
    Stdout,
    Stderr,
    Error,
    Terminated,
    Other,
}

/// What the output reader does with one message.
#[derive(Clone, Copy, Debug, PartialEq, Eq, Structural)]
pub enum OutputAction {
    LogInfo,
    LogWarning,
    LogError,
    /// The handle has been cleared; the reader stops.
    Finish,
    Ignore,
}

/// The slot and spawn count after `start` with the given spawn outcome.
/// A running supervisor ignores the outcome: it never spawns.
pub open spec fn start_next<H, E>(slot: Option<H>, spawns: nat, spawned: Result<H, E>) -> (Option<H>, nat) {
    if slot is Some {
        (slot, spawns)
    } else {
        match spawned {
            Ok(h) => (Some(h), spawns + 1),
            Err(_) => (slot, spawns),
        }
    }
}

/// What `start` returns for the given spawn outcome.
pub open spec fn start_result<H, E>(slot: Option<H>, spawned: Result<H, E>) -> Result<(), E> {
    if slot is Some {
        Ok(())
    } else {
        match spawned {
            Ok(_) => Ok(()),
            Err(e) => Err(e),
        }
    }
}

/// The log level of each kind of output; a termination ends the reader.
pub open spec fn output_action(kind: OutputKind) -> OutputAction {
    match kind {
        OutputKind::Stdout => OutputAction::LogInfo,
        OutputKind::Stderr => OutputAction::LogWarning,
        OutputKind::Error => OutputAction::LogError,
        OutputKind::Terminated => OutputAction::Finish,
        OutputKind::Other => OutputAction::Ignore,
    }
}

impl<H> Supervisor<H> {
    /// The stored handle.
    pub closed spec fn handle(&self) -> Option<H> {
        self.slot
    }

    /// How many processes this supervisor has spawned.
    pub closed spec fn spawn_count(&self) -> nat {
        self.spawns@
    }

    /// A supervisor with nothing running.
    pub fn new() -> (r: Self)
        ensures
            r.handle() is None,
            r.spawn_count() == 0,
    {
        Supervisor { slot: None, spawns: Ghost(0) }
    }

    /// True iff a handle is stored.
    pub fn is_running(&self) -> (r: bool)
        ensures
            r == self.handle() is Some,
    {
        self.slot.is_some()
    }

    /// Starts the backend unless it runs already.
    ///
    /// When a handle is stored, `spawn` is not called and the result is
    /// `Ok(())`. Otherwise `spawn` is called once; the handle it gives is
    /// stored, and its error is handed back with nothing stored.
    pub fn start<E, F: FnOnce() -> Result<H, E>>(&mut self, spawn: F) -> (r: Result<(), E>)
        requires
            old(self).handle() is None ==> call_requires(spawn, ()),
        ensures
            old(self).handle() is Some ==> r is Ok && final(self).handle() == old(self).handle()
                && final(self).spawn_count() == old(self).spawn_count(),
            old(self).handle() is None ==> exists|spawned: Result<H, E>|
                #[trigger] call_ensures(spawn, (), spawned) && r == start_result(
                    old(self).handle(),
                    spawned,
                ) && (final(self).handle(), final(self).spawn_count()) == start_next(
                    old(self).handle(),
                    old(self).spawn_count(),
                    spawned,
                ),
    {
        if self.slot.is_some() {
            return Ok(());
        }
        let spawned = spawn();
        match spawned {
            Ok(h) => {
                self.slot = Some(h);
                self.spawns = Ghost(self.spawns@ + 1);
                Ok(())
            },
            Err(e) => Err(e),
        }
    }

    /// Takes the stored handle out, to be killed by the caller. Nothing
    /// remains stored; `None` means nothing was running.
    pub fn stop(&mut self) -> (r: Option<H>)
        ensures
            r == old(self).handle(),
            final(self).handle() is None,
            final(self).spawn_count() == old(self).spawn_count(),
    {
        self.slot.take()
    }

    /// Handles one message of the child's output stream. A termination
    /// clears the stored handle.
    pub fn on_output(&mut self, kind: OutputKind) -> (r: OutputAction)
        ensures
            r == output_action(kind),
            final(self).handle() == (if kind == OutputKind::Terminated {
                None
            } else {
                old(self).handle()
            }),
            final(self).spawn_count() == old(self).spawn_count(),
    {
        match kind {
            OutputKind::Stdout => OutputAction::LogInfo,
            OutputKind::Stderr => OutputAction::LogWarning,
            OutputKind::Error => OutputAction::LogError,
            OutputKind::Terminated => {
                self.slot = None;
                OutputAction::Finish
            },
            OutputKind::Other => OutputAction::Ignore,
        }
    }
}

/// Two starts, one after the other under the lock, spawn exactly one
/// process and store exactly its handle: the second start does not spawn,
/// whatever it would have been given.
pub proof fn lemma_start_twice_spawns_once<H, E>(
    spawns: nat,
    first: Result<H, E>,
    second: Result<H, E>,
    h: H,
)
    requires
        first == Ok::<H, E>(h),
    ensures
        ({
            let (slot1, n1) = start_next(None::<H>, spawns, first);
            let (slot2, n2) = start_next(slot1, n1, second);
            &&& slot2 == Some(h)
            &&& n2 == spawns + 1
            &&& start_result(slot1, second) is Ok
        }),
{
}

/// After a stop nothing is running, and the next start spawns a new process
/// and stores its handle.
pub proof fn lemma_start_after_stop<H, E>(spawns: nat, spawned: Result<H, E>, h: H)
    requires
        spawned == Ok::<H, E>(h),
    ensures
        start_next(None::<H>, spawns, spawned) == (Some(h), spawns + 1),
        start_result(None::<H>, spawned) is Ok,
{
}

} // verus!
