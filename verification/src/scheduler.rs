//! Refresh scheduler: owns the single in-flight fetch slot. Trigger
//! sources (timer, manual refresh, config change) are coalesced so that a
//! burst of triggers during a fetch queues at most one follow-up fetch.
//! Each fetch is tagged with the provider generation it was issued under.

use vstd::prelude::*;

verus! {

/// Whether a fetch is running, and whether one more was requested while
/// it ran.
#[derive(Clone, Copy, PartialEq, Eq, Structural, Debug)]
pub enum FetchState {
    Idle,
    Fetching { pending_extra: bool },
}

/// An instruction to the I/O layer to start one fetch, tagged with the
/// provider generation it belongs to.
#[derive(Clone, Copy, PartialEq, Eq, Structural, Debug)]
pub struct FetchCommand {
    pub generation: u64,
}

/// The scheduler's whole state: the fetch slot and the current provider
/// generation.
#[derive(Clone, Copy, PartialEq, Eq, Structural, Debug)]
pub struct Scheduler {
    pub state: FetchState,
    pub generation: u64,
}

/// Effect of one refresh trigger: start a fetch when idle; while one is
/// in flight only record that one more should follow.
pub open spec fn spec_request(s: Scheduler) -> (Scheduler, Option<FetchCommand>) {
    match s.state {
        FetchState::Idle => (
            Scheduler { state: FetchState::Fetching { pending_extra: false }, ..s },
            Option::Some(FetchCommand { generation: s.generation }),
        ),
        FetchState::Fetching { .. } => (
            Scheduler { state: FetchState::Fetching { pending_extra: true }, ..s },
            Option::None,
        ),
    }
}

/// Effect of a fetch finishing: run the one queued follow-up if there is
/// one, else fall back to idle.
pub open spec fn spec_complete(s: Scheduler) -> (Scheduler, Option<FetchCommand>) {
    match s.state {
        FetchState::Fetching { pending_extra: true } => (
            Scheduler { state: FetchState::Fetching { pending_extra: false }, ..s },
            Option::Some(FetchCommand { generation: s.generation }),
        ),
        FetchState::Fetching { pending_extra: false } => (
            Scheduler { state: FetchState::Idle, ..s },
            Option::None,
        ),
        FetchState::Idle => (s, Option::None),
    }
}

/// State after `n` refresh triggers, with the number of fetches they
/// started.
pub open spec fn spec_requests(s: Scheduler, n: nat) -> (Scheduler, int)
    decreases n,
{
    if n == 0 {
        (s, 0)
    } else {
        let (s1, c) = spec_request(s);
        let (s2, k) = spec_requests(s1, (n - 1) as nat);
        (
            s2,
            (if c.is_some() {
                1int
            } else {
                0int
            }) + k,
        )
    }
}

impl Scheduler {
    /// A fresh scheduler: idle, at the first provider generation.
    pub fn new() -> (s: Scheduler)
        ensures
            s == (Scheduler { state: FetchState::Idle, generation: 0u64 }),
    {
        Scheduler { state: FetchState::Idle, generation: 0 }
    }

    /// Handles one refresh trigger (startup, timer elapse, or a manual
    /// refresh). Returns the fetch to start, if one should start now.
    pub fn request_refresh(&mut self) -> (cmd: Option<FetchCommand>)
        ensures
            (*final(self), cmd) == spec_request(*old(self)),
    {
        match self.state {
            FetchState::Idle => {
                self.state = FetchState::Fetching { pending_extra: false };
                Option::Some(FetchCommand { generation: self.generation })
            },
            FetchState::Fetching { .. } => {
                self.state = FetchState::Fetching { pending_extra: true };
                Option::None
            },
        }
    }

    /// Handles the completion of the in-flight fetch. Returns the one
    /// queued follow-up fetch, if a trigger arrived meanwhile.
    pub fn complete_fetch(&mut self) -> (cmd: Option<FetchCommand>)
        ensures
            (*final(self), cmd) == spec_complete(*old(self)),
    {
        match self.state {
            FetchState::Fetching { pending_extra: true } => {
                self.state = FetchState::Fetching { pending_extra: false };
                Option::Some(FetchCommand { generation: self.generation })
            },
            FetchState::Fetching { pending_extra: false } => {
                self.state = FetchState::Idle;
                Option::None
            },
            FetchState::Idle => Option::None,
        }
    }

    /// Handles a config reload. A reload that changed the active provider
    /// advances the generation — so that outcomes of fetches already in
    /// flight can be recognized as stale — and triggers a refresh under
    /// the new generation.
    pub fn config_changed(&mut self, provider_changed: bool) -> (cmd: Option<FetchCommand>)
        requires
            old(self).generation < u64::MAX,
        ensures
            !provider_changed ==> *final(self) == *old(self) && cmd is None,
            provider_changed ==> final(self).generation == old(self).generation + 1 && (
            *final(self), cmd) == spec_request(
                Scheduler { generation: (old(self).generation + 1) as u64, ..*old(self) },
            ),
    {
        if !provider_changed {
            return Option::None;
        }
        self.generation = self.generation + 1;
        self.request_refresh()
    }
}

/// Law: any number of refresh triggers arriving while a fetch is in
/// flight start no fetch at all; they only mark one follow-up as pending,
/// and when the in-flight fetch completes exactly one further fetch runs.
pub proof fn lemma_refresh_triggers_coalesce(s: Scheduler, n: nat)
    requires
        s.state matches FetchState::Fetching { .. },
        n >= 1,
    ensures
        spec_requests(s, n).1 == 0,
        spec_requests(s, n).0 == (Scheduler {
            state: FetchState::Fetching { pending_extra: true },
            generation: s.generation,
        }),
        spec_complete(spec_requests(s, n).0).1 == Option::Some(
            FetchCommand { generation: s.generation },
        ),
        spec_complete(spec_requests(s, n).0).0.state == (FetchState::Fetching {
            pending_extra: false,
        }),
    decreases n,
{
    reveal_with_fuel(spec_requests, 3);
    if n > 1 {
        lemma_refresh_triggers_coalesce(spec_request(s).0, (n - 1) as nat);
    }
}

} // verus!
