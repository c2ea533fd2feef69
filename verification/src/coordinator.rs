//! Owner of the "last rendered view-model": accepts generation-tagged
//! refresh outcomes, drops the ones from a superseded provider
//! generation, keeps the last good snapshot for redisplay, and swaps the
//! active display config as one whole value on a reload.

use vstd::prelude::*;

use crate::model::OutcomeView;
use crate::model::RefreshOutcome;
use crate::model::UsageData;
use crate::model::UsageDataView;
use crate::render::render;
use crate::render::spec_render;
use crate::render::DisplayConfig;
use crate::render::ViewModel;

verus! {

/// Abstract value of the coordinator's optional retained snapshot.
pub open spec fn opt_data_view(d: Option<UsageData>) -> Option<UsageDataView> {
    match d {
        Option::Some(ref d) => Option::Some(d@),
        Option::None => Option::None,
    }
}

/// The outcome a redisplay renders: the retained snapshot as a success,
/// or the loading state when none has arrived yet.
pub open spec fn spec_redisplay_outcome(last_good: Option<UsageDataView>) -> Option<OutcomeView> {
    match last_good {
        Option::Some(d) => Option::Some(OutcomeView::Success(d)),
        Option::None => Option::None,
    }
}

/// What a reload leaves active: the parsed config on success, the
/// previous one on failure.
pub open spec fn spec_reload(active: DisplayConfig, parsed: Option<DisplayConfig>) -> DisplayConfig {
    match parsed {
        Option::Some(c) => c,
        Option::None => active,
    }
}

/// Law: a config reload is atomic. The active config after a reload step
/// is either exactly the previous config or exactly the parsed one —
/// never a value mixing fields of both.
pub proof fn lemma_reload_atomic(active: DisplayConfig, parsed: Option<DisplayConfig>)
    ensures
        spec_reload(active, parsed) == active || spec_reload(active, parsed)
            == parsed->Some_0,
        parsed is Some ==> spec_reload(active, parsed) == parsed->Some_0,
        parsed is None ==> spec_reload(active, parsed) == active,
{
}

/// The render coordinator's state.
pub struct RenderCoordinator {
    /// Current provider generation; outcomes tagged with an older one are
    /// stale and are dropped.
    pub generation: u64,
    /// The active display config, replaced wholesale on reload.
    pub config: DisplayConfig,
    /// Last successfully fetched snapshot, kept for redisplay.
    pub last_good: Option<UsageData>,
    /// The last rendered view-model.
    pub view: ViewModel,
}

impl RenderCoordinator {
    /// Well-formedness: the retained snapshot satisfies the model
    /// invariant.
    pub open spec fn wf(&self) -> bool {
        match self.last_good {
            Option::Some(ref d) => d@.wf(),
            Option::None => true,
        }
    }

    /// A fresh coordinator at generation zero, showing the loading view.
    pub fn new(config: DisplayConfig, now: i64, utc_offset_seconds: i32) -> (c: RenderCoordinator)
        requires
            -93599 <= utc_offset_seconds <= 93599,
        ensures
            c.generation == 0,
            c.config == config,
            c.last_good is None,
            c.view@ == spec_render(
                Option::None,
                config,
                now as int,
                utc_offset_seconds as int,
            ),
            c.wf(),
    {
        let view = render(Option::None, &config, now, utc_offset_seconds);
        RenderCoordinator { generation: 0, config, last_good: Option::None, view }
    }

    /// Accepts the outcome of a fetch issued under `generation`.
    ///
    /// An outcome from a superseded generation is dropped whole: the
    /// rendered view-model, the retained snapshot and the config stay
    /// exactly as they were. A current-generation outcome is rendered,
    /// and a successful one replaces the retained snapshot.
    pub fn deliver(
        &mut self,
        generation: u64,
        outcome: RefreshOutcome,
        now: i64,
        utc_offset_seconds: i32,
    ) -> (rendered: bool)
        requires
            -93599 <= utc_offset_seconds <= 93599,
            old(self).wf(),
            match outcome@ {
                OutcomeView::Success(s) => s.wf(),
                OutcomeView::Failure(_) => true,
            },
        ensures
            generation != old(self).generation ==> {
                &&& !rendered
                &&& final(self).generation == old(self).generation
                &&& final(self).config == old(self).config
                &&& opt_data_view(final(self).last_good) == opt_data_view(old(self).last_good)
                &&& final(self).view@ == old(self).view@
            },
            generation == old(self).generation ==> {
                &&& rendered
                &&& final(self).generation == old(self).generation
                &&& final(self).config == old(self).config
                &&& final(self).view@ == spec_render(
                    Option::Some(outcome@),
                    old(self).config,
                    now as int,
                    utc_offset_seconds as int,
                )
                &&& opt_data_view(final(self).last_good) == (match outcome@ {
                    OutcomeView::Success(s) => Option::Some(s),
                    OutcomeView::Failure(_) => opt_data_view(old(self).last_good),
                })
            },
            final(self).wf(),
    {
        if generation != self.generation {
            return false;
        }
        self.view = render(Option::Some(&outcome), &self.config, now, utc_offset_seconds);
        if let RefreshOutcome::Success(data) = outcome {
            self.last_good = Option::Some(data);
        }
        true
    }

    /// Applies a config reload: swaps in the parsed config as one whole
    /// value (or keeps the previous one when parsing failed), advances
    /// the generation when the active provider changed, and re-renders
    /// the retained snapshot under the new settings.
    pub fn apply_reload(
        &mut self,
        parsed: Option<DisplayConfig>,
        provider_changed: bool,
        now: i64,
        utc_offset_seconds: i32,
    )
        requires
            -93599 <= utc_offset_seconds <= 93599,
            old(self).wf(),
            old(self).generation < u64::MAX,
        ensures
            final(self).config == spec_reload(old(self).config, parsed),
            final(self).generation == (if provider_changed {
                old(self).generation + 1
            } else {
                old(self).generation as int
            }),
            opt_data_view(final(self).last_good) == opt_data_view(old(self).last_good),
            final(self).view@ == spec_render(
                spec_redisplay_outcome(opt_data_view(old(self).last_good)),
                spec_reload(old(self).config, parsed),
                now as int,
                utc_offset_seconds as int,
            ),
            final(self).wf(),
    {
        if let Option::Some(c) = parsed {
            self.config = c;
        }
        if provider_changed {
            self.generation = self.generation + 1;
        }
        match &self.last_good {
            Option::Some(data) => {
                let again = RefreshOutcome::Success(data.duplicate());
                self.view = render(Option::Some(&again), &self.config, now, utc_offset_seconds);
            },
            Option::None => {
                self.view = render(Option::None, &self.config, now, utc_offset_seconds);
            },
        }
    }
}

} // verus!
