//! The bounded side of the native input owner: the facts the input kernel
//! is started with, and how its effects are queued for the action worker
//! and the overlay renderer.
use vstd::prelude::*;
use vstd::wrapping::u32_specs::wrapping_sub;

use crate::input::{
    ActionId, BindingSetId, ConfigGeneration, ContextView, Point, SessionId, TargetToken,
    TriggerButton, CONTEXT_MAX_AGE_MS,
};
use crate::lane::{
    reservation, ActionWork, FixedLane, RenderLane, RenderWork, Reservation, ACTION_CAPACITY,
    RENDER_CAPACITY,
};

verus! {

/// What the input kernel asks the owner to do.
#[allow(inconsistent_fields)]
#[derive(Clone, Copy, Debug, PartialEq, Eq, Structural)]
pub enum InputEffect {
    ActivateTarget { session: SessionId, target: TargetToken },
    DispatchAction { session: SessionId, generation: ConfigGeneration, action: ActionId, repeat: u16 },
    ReplayTrigger { session: SessionId, trigger: TriggerButton, down_at: Point, up_at: Point },
    RenderStart { session: SessionId, generation: ConfigGeneration },
    RenderPoint { session: SessionId, point: Point },
    RenderLabel { session: SessionId, action: Option<ActionId> },
    RenderEnd { session: SessionId },
}

/// What the owner tells the input kernel alongside a pointer event.
#[derive(Clone, Copy, Debug, PartialEq, Eq, Structural)]
pub enum CallbackFacts {
    /// A session is running: whether its next action and its completion
    /// replay can still be queued.
    Continue { action_delivery: Reservation, completion_replay: Reservation },
    /// No usable context, or no configuration.
    MissingContext,
    /// The context is for another point or too old.
    StaleContext,
    /// The context was resolved under another configuration.
    WrongGeneration,
    /// A session may start with this context and these reservations.
    Start {
        generation: ConfigGeneration,
        binding_set: BindingSetId,
        target: TargetToken,
        activation: Reservation,
        render_lifecycle: Reservation,
        replay: Reservation,
    },
}

/// The abstract state of the owner's queues.
pub struct OwnerModel {
    pub actions: Seq<ActionWork>,
    pub renders: Seq<RenderWork>,
    pub terminal_reserved: bool,
    pub replay_reserved: bool,
    pub action_wakeup: bool,
    pub render_wakeup: bool,
}

/// Whether the queues can take an effect as the kernel's reservations
/// promise: an action slot for actions, a start and an end slot for a new
/// rendering session, an open session for its end.
pub open spec fn effect_fits(m: OwnerModel, effect: InputEffect) -> bool {
    match effect {
        InputEffect::ActivateTarget { .. } => m.actions.len() < ACTION_CAPACITY,
        InputEffect::DispatchAction { .. } => m.actions.len() < ACTION_CAPACITY,
        InputEffect::ReplayTrigger { .. } => m.actions.len() < ACTION_CAPACITY,
        InputEffect::RenderStart { .. } => !m.terminal_reserved && RENDER_CAPACITY - m.renders.len()
            >= 2,
        InputEffect::RenderEnd { .. } => m.terminal_reserved,
        _ => true,
    }
}

/// A lossy render update: queued only if a slot beyond the reserved end
/// slot is free.
pub open spec fn lossy_push(m: OwnerModel, work: RenderWork) -> Seq<RenderWork> {
    let reserved: int = if m.terminal_reserved {
        1
    } else {
        0
    };
    if RENDER_CAPACITY - m.renders.len() > reserved {
        m.renders.push(work)
    } else {
        m.renders
    }
}

/// The queues after one effect.
pub open spec fn apply_effect_spec(m: OwnerModel, effect: InputEffect) -> OwnerModel {
    match effect {
        InputEffect::ActivateTarget { session, target } => OwnerModel {
            actions: m.actions.push(ActionWork::Activate { session, target }),
            replay_reserved: true,
            action_wakeup: true,
            ..m
        },
        InputEffect::DispatchAction { session, generation, action, repeat } => OwnerModel {
            actions: m.actions.push(ActionWork::Dispatch { session, generation, action, repeat }),
            action_wakeup: true,
            ..m
        },
        InputEffect::ReplayTrigger { session, trigger, down_at, up_at } => OwnerModel {
            actions: m.actions.push(ActionWork::Replay { session, trigger, down_at, up_at }),
            replay_reserved: false,
            action_wakeup: true,
            ..m
        },
        InputEffect::RenderStart { session, generation } => OwnerModel {
            renders: m.renders.push(RenderWork::Start { session, generation }),
            terminal_reserved: true,
            render_wakeup: true,
            ..m
        },
        InputEffect::RenderPoint { session, point } => OwnerModel {
            renders: lossy_push(m, RenderWork::Point { session, point }),
            render_wakeup: true,
            ..m
        },
        InputEffect::RenderLabel { session, action } => OwnerModel {
            renders: lossy_push(m, RenderWork::Label { session, action }),
            render_wakeup: true,
            ..m
        },
        InputEffect::RenderEnd { session } => OwnerModel {
            renders: m.renders.push(RenderWork::End { session }),
            terminal_reserved: false,
            render_wakeup: true,
            ..m
        },
    }
}

/// The queues after a run of effects, applied in order.
pub open spec fn apply_effects_spec(m: OwnerModel, effects: Seq<InputEffect>) -> OwnerModel
    decreases effects.len(),
{
    if effects.len() == 0 {
        m
    } else {
        apply_effects_spec(apply_effect_spec(m, effects[0]), effects.drop_first())
    }
}

/// Whether every effect of a run fits the queues it meets.
pub open spec fn effects_fit(m: OwnerModel, effects: Seq<InputEffect>) -> bool
    decreases effects.len(),
{
    if effects.len() == 0 {
        true
    } else {
        effect_fits(m, effects[0]) && effects_fit(apply_effect_spec(m, effects[0]), effects.drop_first())
    }
}

pub open spec fn reservation_spec(available: bool) -> Reservation {
    if available {
        Reservation::Reserved
    } else {
        Reservation::CapacityExhausted
    }
}

/// The facts for a running session: an action can be delivered while a
/// slot beyond the one held for the completion replay is free.
pub open spec fn continue_facts_spec(m: OwnerModel) -> CallbackFacts {
    let held: int = if m.replay_reserved {
        1
    } else {
        0
    };
    CallbackFacts::Continue {
        action_delivery: reservation_spec(ACTION_CAPACITY - m.actions.len() > held),
        completion_replay: reservation_spec(m.replay_reserved),
    }
}

/// The facts for starting a session at `point` and `tick`: the context must
/// exist, be for this point, be fresh, and be of the configuration in
/// force; activation and replay need two free action slots and no replay
/// held; the rendering lifecycle needs the renderer to accept a start.
pub open spec fn start_facts_spec(
    m: OwnerModel,
    context: Option<ContextView>,
    generation: Option<ConfigGeneration>,
    point: Point,
    tick: u32,
) -> CallbackFacts {
    let capacity = !m.replay_reserved && ACTION_CAPACITY - m.actions.len() >= 2;
    match context {
        None => CallbackFacts::MissingContext,
        Some(c) => if c.point != point || wrapping_sub(tick, c.updated_tick) > CONTEXT_MAX_AGE_MS {
            CallbackFacts::StaleContext
        } else {
            match generation {
                None => CallbackFacts::MissingContext,
                Some(g) => if c.generation != g.0 {
                    CallbackFacts::WrongGeneration
                } else {
                    CallbackFacts::Start {
                        generation: g,
                        binding_set: c.binding_set,
                        target: c.target,
                        activation: reservation_spec(capacity),
                        render_lifecycle: reservation_spec(
                            !m.terminal_reserved && RENDER_CAPACITY - m.renders.len() >= 2,
                        ),
                        replay: reservation_spec(capacity),
                    }
                },
            }
        },
    }
}

/// Where the owner finds the runtime configuration of a generation.
#[derive(Clone, Copy, Debug, PartialEq, Eq, Structural)]
pub enum RuntimeSource {
    /// The configuration in force.
    Current,
    /// The configuration the running session was pinned to.
    Session,
}

/// The owner's queues and the facts it keeps between callbacks.
pub struct InputOwnerState {
    context: Option<ContextView>,
    current_generation: Option<ConfigGeneration>,
    session_generation: Option<ConfigGeneration>,
    actions: FixedLane<ActionWork, ACTION_CAPACITY>,
    renderer: RenderLane,
    replay_reserved: bool,
    action_wakeup: bool,
    render_wakeup: bool,
}

impl InputOwnerState {
    pub closed spec fn model(&self) -> OwnerModel {
        OwnerModel {
            actions: self.actions.contents(),
            renders: self.renderer.queued(),
            terminal_reserved: self.renderer.terminal_reserved_spec(),
            replay_reserved: self.replay_reserved,
            action_wakeup: self.action_wakeup,
            render_wakeup: self.render_wakeup,
        }
    }

    pub closed spec fn context_spec(&self) -> Option<ContextView> {
        self.context
    }

    pub closed spec fn generation_spec(&self) -> Option<ConfigGeneration> {
        self.current_generation
    }

    /// The generation the running session is pinned to, if one runs.
    pub closed spec fn session_spec(&self) -> Option<ConfigGeneration> {
        self.session_generation
    }

    /// Both lanes are well formed; an open rendering session always has a
    /// free slot for its end.
    pub closed spec fn wf(&self) -> bool {
        &&& self.actions.wf()
        &&& self.renderer.wf()
    }

    pub fn new() -> (s: Self)
        ensures
            s.wf(),
            s.context_spec() is None,
            s.generation_spec() is None,
            s.session_spec() is None,
            s.model() == (OwnerModel {
                actions: Seq::empty(),
                renders: Seq::empty(),
                terminal_reserved: false,
                replay_reserved: false,
                action_wakeup: false,
                render_wakeup: false,
            }),
    {
        InputOwnerState {
            context: None,
            current_generation: None,
            session_generation: None,
            actions: FixedLane::new(),
            renderer: RenderLane::new(),
            replay_reserved: false,
            action_wakeup: false,
            render_wakeup: false,
        }
    }

    /// Records the latest published context.
    pub fn set_context(&mut self, context: Option<ContextView>)
        requires
            old(self).wf(),
        ensures
            final(self).wf(),
            final(self).context_spec() == context,
            final(self).generation_spec() == old(self).generation_spec(),
            final(self).session_spec() == old(self).session_spec(),
            final(self).model() == old(self).model(),
    {
        self.context = context;
    }

    /// Records the configuration generation now in force.
    pub fn set_generation(&mut self, generation: Option<ConfigGeneration>)
        requires
            old(self).wf(),
        ensures
            final(self).wf(),
            final(self).generation_spec() == generation,
            final(self).context_spec() == old(self).context_spec(),
            final(self).session_spec() == old(self).session_spec(),
            final(self).model() == old(self).model(),
    {
        self.current_generation = generation;
    }

    /// The facts for a running session.
    pub fn continue_facts(&self) -> (r: CallbackFacts)
        requires
            self.wf(),
        ensures
            r == continue_facts_spec(self.model()),
    {
        let held: usize = if self.replay_reserved {
            1
        } else {
            0
        };
        CallbackFacts::Continue {
            action_delivery: reservation(self.actions.free() > held),
            completion_replay: reservation(self.replay_reserved),
        }
    }

    /// The facts for starting a session at `point` and `tick`.
    pub fn start_facts(&self, point: Point, tick: u32) -> (r: CallbackFacts)
        requires
            self.wf(),
        ensures
            r == start_facts_spec(
                self.model(),
                self.context_spec(),
                self.generation_spec(),
                point,
                tick,
            ),
    {
        let context = match self.context {
            Some(context) => context,
            None => {
                return CallbackFacts::MissingContext;
            },
        };
        if context.point != point || tick.wrapping_sub(context.updated_tick) > CONTEXT_MAX_AGE_MS {
            return CallbackFacts::StaleContext;
        }
        let generation = match self.current_generation {
            Some(generation) => generation,
            None => {
                return CallbackFacts::MissingContext;
            },
        };
        if context.generation != generation.0 {
            return CallbackFacts::WrongGeneration;
        }
        let capacity = !self.replay_reserved && self.actions.free() >= 2;
        CallbackFacts::Start {
            generation,
            binding_set: context.binding_set,
            target: context.target,
            activation: reservation(capacity),
            render_lifecycle: reservation(self.renderer.can_start()),
            replay: reservation(capacity),
        }
    }

    /// Queues one effect of the kernel.
    pub fn apply_effect(&mut self, effect: InputEffect)
        requires
            old(self).wf(),
            effect_fits(old(self).model(), effect),
        ensures
            final(self).wf(),
            final(self).model() == apply_effect_spec(old(self).model(), effect),
            final(self).context_spec() == old(self).context_spec(),
            final(self).generation_spec() == old(self).generation_spec(),
            final(self).session_spec() == old(self).session_spec(),
    {
        match effect {
            InputEffect::ActivateTarget { session, target } => {
                self.replay_reserved = true;
                self.actions.push(ActionWork::Activate { session, target });
                self.action_wakeup = true;
            },
            InputEffect::DispatchAction { session, generation, action, repeat } => {
                self.actions.push(ActionWork::Dispatch { session, generation, action, repeat });
                self.action_wakeup = true;
            },
            InputEffect::ReplayTrigger { session, trigger, down_at, up_at } => {
                self.actions.push(ActionWork::Replay { session, trigger, down_at, up_at });
                self.replay_reserved = false;
                self.action_wakeup = true;
            },
            InputEffect::RenderStart { session, generation } => {
                self.renderer.start(RenderWork::Start { session, generation });
                self.render_wakeup = true;
            },
            InputEffect::RenderPoint { session, point } => {
                self.renderer.lossy(RenderWork::Point { session, point });
                self.render_wakeup = true;
            },
            InputEffect::RenderLabel { session, action } => {
                self.renderer.lossy(RenderWork::Label { session, action });
                self.render_wakeup = true;
            },
            InputEffect::RenderEnd { session } => {
                self.renderer.end(RenderWork::End { session });
                self.render_wakeup = true;
            },
        }
    }

    /// Queues the kernel's effects in order.
    pub fn apply_effects(&mut self, effects: &[InputEffect])
        requires
            old(self).wf(),
            effects_fit(old(self).model(), effects@),
        ensures
            final(self).wf(),
            final(self).model() == apply_effects_spec(old(self).model(), effects@),
            final(self).context_spec() == old(self).context_spec(),
            final(self).generation_spec() == old(self).generation_spec(),
            final(self).session_spec() == old(self).session_spec(),
    {
        let ghost start = self.model();
        assert(effects@.skip(0) =~= effects@);
        let mut i: usize = 0;
        while i < effects.len()
            invariant
                0 <= i <= effects@.len(),
                self.wf(),
                effects_fit(self.model(), effects@.skip(i as int)),
                apply_effects_spec(self.model(), effects@.skip(i as int)) == apply_effects_spec(
                    start,
                    effects@,
                ),
                self.context_spec() == old(self).context_spec(),
                self.generation_spec() == old(self).generation_spec(),
                self.session_spec() == old(self).session_spec(),
            decreases effects@.len() - i,
        {
            proof {
                assert(effects@.skip(i as int)[0] == effects@[i as int]);
                assert(effects@.skip(i as int).drop_first() =~= effects@.skip(i + 1));
            }
            self.apply_effect(effects[i]);
            i = i + 1;
        }
        proof {
            assert(effects@.skip(i as int) =~= Seq::<InputEffect>::empty());
        }
    }

    /// Returns and clears the pending wake-ups of the action worker and the
    /// renderer.
    pub fn take_wakeups(&mut self) -> (r: (bool, bool))
        requires
            old(self).wf(),
        ensures
            final(self).wf(),
            r == (old(self).model().action_wakeup, old(self).model().render_wakeup),
            final(self).model() == (OwnerModel {
                action_wakeup: false,
                render_wakeup: false,
                ..old(self).model()
            }),
            final(self).context_spec() == old(self).context_spec(),
            final(self).generation_spec() == old(self).generation_spec(),
            final(self).session_spec() == old(self).session_spec(),
    {
        let wakeups = (self.action_wakeup, self.render_wakeup);
        self.action_wakeup = false;
        self.render_wakeup = false;
        wakeups
    }

    /// The oldest queued action work.
    pub fn pop_action(&mut self) -> (r: Option<ActionWork>)
        requires
            old(self).wf(),
        ensures
            final(self).wf(),
            old(self).model().actions.len() == 0 ==> r is None && final(self).model() == old(
                self,
            ).model(),
            old(self).model().actions.len() > 0 ==> r == Some(old(self).model().actions[0])
                && final(self).model() == (OwnerModel {
                actions: old(self).model().actions.drop_first(),
                ..old(self).model()
            }),
            final(self).context_spec() == old(self).context_spec(),
            final(self).generation_spec() == old(self).generation_spec(),
            final(self).session_spec() == old(self).session_spec(),
    {
        self.actions.pop()
    }

    /// The oldest queued render work.
    pub fn pop_render(&mut self) -> (r: Option<RenderWork>)
        requires
            old(self).wf(),
        ensures
            final(self).wf(),
            old(self).model().renders.len() == 0 ==> r is None && final(self).model() == old(
                self,
            ).model(),
            old(self).model().renders.len() > 0 ==> r == Some(old(self).model().renders[0])
                && final(self).model() == (OwnerModel {
                renders: old(self).model().renders.drop_first(),
                ..old(self).model()
            }),
            final(self).context_spec() == old(self).context_spec(),
            final(self).generation_spec() == old(self).generation_spec(),
            final(self).session_spec() == old(self).session_spec(),
    {
        self.renderer.pop()
    }

    /// Releases the replay slot held for a session that has ended or
    /// bypassed.
    pub fn release_replay(&mut self)
        requires
            old(self).wf(),
        ensures
            final(self).wf(),
            final(self).model() == (OwnerModel { replay_reserved: false, ..old(self).model() }),
            final(self).context_spec() == old(self).context_spec(),
            final(self).generation_spec() == old(self).generation_spec(),
            final(self).session_spec() == old(self).session_spec(),
    {
        self.replay_reserved = false;
    }

    /// The facts to hand the kernel with a pointer event, or `None` when the
    /// event passes without it: no session is pinned and the configuration
    /// is missing (`enabled` is `None`) or disabled.
    pub fn callback_facts(
        &self,
        pinned: Option<ConfigGeneration>,
        enabled: Option<bool>,
        point: Point,
        tick: u32,
    ) -> (r: Option<CallbackFacts>)
        requires
            self.wf(),
        ensures
            r == if pinned is Some {
                Some(continue_facts_spec(self.model()))
            } else if enabled == Some(true) {
                Some(
                    start_facts_spec(
                        self.model(),
                        self.context_spec(),
                        self.generation_spec(),
                        point,
                        tick,
                    ),
                )
            } else {
                None
            },
    {
        if pinned.is_some() {
            return Some(self.continue_facts());
        }
        match enabled {
            Some(true) => Some(self.start_facts(point, tick)),
            _ => None,
        }
    }

    /// Follows the kernel's pinned generation: a newly pinned session keeps
    /// the configuration in force; when no session is pinned, the session
    /// pin and the held replay slot are released.
    pub fn sync_session(&mut self, pinned: Option<ConfigGeneration>)
        requires
            old(self).wf(),
        ensures
            final(self).wf(),
            final(self).context_spec() == old(self).context_spec(),
            final(self).generation_spec() == old(self).generation_spec(),
            pinned is Some ==> {
                &&& final(self).model() == old(self).model()
                &&& final(self).session_spec() == if old(self).session_spec() is None {
                    old(self).generation_spec()
                } else {
                    old(self).session_spec()
                }
            },
            pinned is None ==> {
                &&& final(self).model() == (OwnerModel {
                    replay_reserved: false,
                    ..old(self).model()
                })
                &&& final(self).session_spec() is None
            },
    {
        match pinned {
            Some(_) => {
                if self.session_generation.is_none() {
                    self.session_generation = self.current_generation;
                }
            },
            None => {
                self.session_generation = None;
                self.replay_reserved = false;
            },
        }
    }

    /// Carries out a kernel decision: queues its effects, follows the pinned
    /// generation, and releases the held replay slot when input bypasses the
    /// kernel.
    pub fn finish_decision(
        &mut self,
        effects: &[InputEffect],
        pinned: Option<ConfigGeneration>,
        bypass: bool,
    )
        requires
            old(self).wf(),
            effects_fit(old(self).model(), effects@),
        ensures
            final(self).wf(),
            final(self).context_spec() == old(self).context_spec(),
            final(self).generation_spec() == old(self).generation_spec(),
            ({
                let queued = apply_effects_spec(old(self).model(), effects@);
                let released = pinned is None || bypass;
                final(self).model() == if released {
                    OwnerModel { replay_reserved: false, ..queued }
                } else {
                    queued
                }
            }),
            pinned is Some ==> final(self).session_spec() == if old(self).session_spec() is None {
                old(self).generation_spec()
            } else {
                old(self).session_spec()
            },
            pinned is None ==> final(self).session_spec() is None,
    {
        self.apply_effects(effects);
        self.sync_session(pinned);
        if bypass {
            self.release_replay();
        }
    }

    /// Which configuration serves `generation`: the one in force, or the
    /// one the pinned session keeps.
    pub fn runtime_source(&self, generation: ConfigGeneration, pinned: Option<ConfigGeneration>) -> (r:
        Option<RuntimeSource>)
        ensures
            r == if self.generation_spec() == Some(generation) {
                Some(RuntimeSource::Current)
            } else if self.session_spec() is Some && pinned == Some(generation) {
                Some(RuntimeSource::Session)
            } else {
                None
            },
    {
        match self.current_generation {
            Some(current) => {
                if current == generation {
                    return Some(RuntimeSource::Current);
                }
            },
            None => {},
        }
        match (self.session_generation, pinned) {
            (Some(_), Some(p)) => {
                if p == generation {
                    Some(RuntimeSource::Session)
                } else {
                    None
                }
            },
            _ => None,
        }
    }

    /// Drops all queued work, the session pin and pending wake-ups, as on
    /// shutdown.
    pub fn clear(&mut self)
        requires
            old(self).wf(),
        ensures
            final(self).wf(),
            final(self).session_spec() is None,
            final(self).model() == (OwnerModel {
                actions: Seq::empty(),
                renders: Seq::empty(),
                terminal_reserved: false,
                replay_reserved: false,
                action_wakeup: false,
                render_wakeup: false,
            }),
            final(self).context_spec() == old(self).context_spec(),
            final(self).generation_spec() == old(self).generation_spec(),
    {
        self.actions = FixedLane::new();
        self.renderer = RenderLane::new();
        self.replay_reserved = false;
        self.session_generation = None;
        self.action_wakeup = false;
        self.render_wakeup = false;
    }
}

} // verus!
