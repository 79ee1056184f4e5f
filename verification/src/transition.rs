//! The fade between scenes: cover the screen, commit one action behind it, and
//! reveal once the other side is ready. Times are in nanoseconds.

use vstd::prelude::*;

use crate::match_state::MatchPhase;

verus! {

pub const GAME_FADE_OUT_NANOS: u64 = 180_000_000;

pub const GAME_FADE_HOLD_NANOS: u64 = 60_000_000;

pub const GAME_FADE_IN_NANOS: u64 = 260_000_000;

/// What is done behind the covered screen; which one exactly is numbered by its
/// owner.
#[derive(Clone, Copy, Debug, PartialEq, Eq, Structural)]
pub enum GameTransitionAction {
    UserMode(u32),
    Tutorial(u32),
}

/// What the reveal waits for.
#[derive(Clone, Copy, Debug, PartialEq, Eq, Structural)]
pub enum GameTransitionReveal {
    Immediate,
    BattleReady,
    TutorialLessonReady,
}

#[derive(Clone, Copy, Debug, PartialEq, Eq, Structural)]
pub enum GameTransitionStage {
    Idle,
    FadingOut,
    Covered,
    FadingIn,
}

#[derive(Clone, Copy, Debug, PartialEq, Eq, Structural)]
pub struct GameTransition {
    pub stage: GameTransitionStage,
    pub elapsed: u64,
    pub action: Option<GameTransitionAction>,
    pub reveal: GameTransitionReveal,
    pub committed: bool,
}

/// Who keeps gameplay paused.
#[derive(Clone, Copy, Debug, PartialEq, Eq, Structural)]
pub struct GameplayPauseOwners {
    pub game_transition: bool,
    /// The other owners, one bit each.
    pub others: u32,
}

/// An opacity: `part` of `whole`, which is never nothing.
#[derive(Clone, Copy, Debug, PartialEq, Eq, Structural)]
pub struct Opacity {
    pub part: u128,
    pub whole: u128,
}

/// How long a stage lasts once it runs.
pub open spec fn stage_nanos(stage: GameTransitionStage) -> u64 {
    match stage {
        GameTransitionStage::Idle => 0,
        GameTransitionStage::FadingOut => GAME_FADE_OUT_NANOS,
        GameTransitionStage::Covered => GAME_FADE_HOLD_NANOS,
        GameTransitionStage::FadingIn => GAME_FADE_IN_NANOS,
    }
}

/// How much of `total * total * total` is covered after `elapsed` of `total`, eased
/// at both ends.
pub open spec fn eased(elapsed: int, total: int) -> int {
    let spent = if elapsed < total {
        elapsed
    } else {
        total
    };
    spent * spent * (3 * total - 2 * spent)
}

impl GameTransition {
    pub open spec fn spec_idle() -> GameTransition {
        GameTransition {
            stage: GameTransitionStage::Idle,
            elapsed: 0,
            action: None,
            reveal: GameTransitionReveal::Immediate,
            committed: false,
        }
    }

    /// No stage outlasts its time; nothing lingers while idle; an action is there
    /// whenever a transition runs, and is committed only once covered.
    pub open spec fn wf(self) -> bool {
        &&& self.stage == GameTransitionStage::Idle ==> self == Self::spec_idle()
        &&& self.stage != GameTransitionStage::Idle ==> self.elapsed < stage_nanos(self.stage)
            && self.action.is_some()
        &&& self.stage == GameTransitionStage::FadingOut ==> !self.committed
        &&& self.stage == GameTransitionStage::FadingIn ==> self.committed
    }

    /// No transition.
    pub fn idle() -> (transition: GameTransition)
        ensures
            transition == Self::spec_idle(),
            transition.wf(),
    {
        GameTransition {
            stage: GameTransitionStage::Idle,
            elapsed: 0,
            action: None,
            reveal: GameTransitionReveal::Immediate,
            committed: false,
        }
    }

    pub open spec fn spec_active(&self) -> bool {
        self.stage != GameTransitionStage::Idle
    }

    #[verifier::when_used_as_spec(spec_active)]
    pub fn active(&self) -> (active: bool)
        ensures
            active == self.spec_active(),
    {
        self.stage != GameTransitionStage::Idle
    }

    /// Starts a transition; refused while one is under way.
    pub fn request(
        &mut self,
        action: GameTransitionAction,
        reveal: GameTransitionReveal,
    ) -> (started: bool)
        ensures
            started == !old(self).active(),
            *final(self) == (if started {
                GameTransition {
                    stage: GameTransitionStage::FadingOut,
                    elapsed: 0,
                    action: Some(action),
                    reveal,
                    committed: false,
                }
            } else {
                *old(self)
            }),
            old(self).wf() ==> final(self).wf(),
    {
        if self.active() {
            return false;
        }
        self.stage = GameTransitionStage::FadingOut;
        self.elapsed = 0;
        self.action = Some(action);
        self.reveal = reveal;
        self.committed = false;
        true
    }

    pub open spec fn spec_pending_action(&self) -> Option<GameTransitionAction> {
        if self.stage == GameTransitionStage::Covered && !self.committed {
            self.action
        } else {
            None
        }
    }

    /// The action that is due now: behind the covered screen, and not committed.
    #[verifier::when_used_as_spec(spec_pending_action)]
    pub fn pending_action(&self) -> (action: Option<GameTransitionAction>)
        ensures
            action == self.spec_pending_action(),
    {
        if self.stage == GameTransitionStage::Covered && !self.committed {
            self.action
        } else {
            None
        }
    }

    pub fn action(&self) -> (action: Option<GameTransitionAction>)
        ensures
            action == self.action,
    {
        self.action
    }

    pub fn targets_tutorial(&self) -> (tutorial: bool)
        ensures
            tutorial == match self.action {
                Some(GameTransitionAction::Tutorial(_)) => true,
                _ => false,
            },
    {
        matches!(self.action, Some(GameTransitionAction::Tutorial(_)))
    }

    /// Notes that the due action was done.
    pub fn mark_committed(&mut self)
        requires
            old(self).stage == GameTransitionStage::Covered,
            !old(self).committed,
        ensures
            *final(self) == (GameTransition { committed: true, ..*old(self) }),
            old(self).wf() ==> final(self).wf(),
    {
        self.committed = true;
    }

    /// The transition after `delta`, and whether it ended. A covered screen waits
    /// for its commit and for what the reveal needs; surplus time is dropped at
    /// the end of a stage.
    pub open spec fn advanced(self, delta: u64, reveal_ready: bool) -> (GameTransition, bool) {
        if self.stage == GameTransitionStage::Idle || (self.stage == GameTransitionStage::Covered
            && !(self.committed && reveal_ready)) {
            (self, false)
        } else if self.elapsed + delta < stage_nanos(self.stage) {
            (GameTransition { elapsed: (self.elapsed + delta) as u64, ..self }, false)
        } else {
            match self.stage {
                GameTransitionStage::FadingOut => (
                    GameTransition { stage: GameTransitionStage::Covered, elapsed: 0, ..self },
                    false,
                ),
                GameTransitionStage::Covered => (
                    GameTransition { stage: GameTransitionStage::FadingIn, elapsed: 0, ..self },
                    false,
                ),
                _ => (Self::spec_idle(), true),
            }
        }
    }

    pub fn advance(&mut self, delta: u64, reveal_ready: bool) -> (ended: bool)
        ensures
            (*final(self), ended) == old(self).advanced(delta, reveal_ready),
            old(self).wf() ==> final(self).wf(),
    {
        let total: u64 = match self.stage {
            GameTransitionStage::Idle => {
                return false;
            },
            GameTransitionStage::FadingOut => GAME_FADE_OUT_NANOS,
            GameTransitionStage::Covered => {
                if !self.committed || !reveal_ready {
                    return false;
                }
                GAME_FADE_HOLD_NANOS
            },
            GameTransitionStage::FadingIn => GAME_FADE_IN_NANOS,
        };
        let elapsed: u64 = self.elapsed.saturating_add(delta);
        if elapsed < total {
            self.elapsed = elapsed;
            return false;
        }
        match self.stage {
            GameTransitionStage::FadingOut => {
                self.stage = GameTransitionStage::Covered;
                self.elapsed = 0;
                false
            },
            GameTransitionStage::Covered => {
                self.stage = GameTransitionStage::FadingIn;
                self.elapsed = 0;
                false
            },
            _ => {
                *self = GameTransition::idle();
                true
            },
        }
    }

    /// The opacity of the cover.
    pub open spec fn spec_alpha(&self) -> Opacity {
        match self.stage {
            GameTransitionStage::Idle => Opacity { part: 0, whole: 1 },
            GameTransitionStage::FadingOut => {
                let total = GAME_FADE_OUT_NANOS as int;
                Opacity {
                    part: eased(self.elapsed as int, total) as u128,
                    whole: (total * total * total) as u128,
                }
            },
            GameTransitionStage::Covered => Opacity { part: 1, whole: 1 },
            GameTransitionStage::FadingIn => {
                let total = GAME_FADE_IN_NANOS as int;
                Opacity {
                    part: (total * total * total - eased(self.elapsed as int, total)) as u128,
                    whole: (total * total * total) as u128,
                }
            },
        }
    }

    /// The opacity of the cover.
    pub fn alpha(&self) -> (alpha: Opacity)
        ensures
            alpha == self.spec_alpha(),
            alpha.part <= alpha.whole,
            0 < alpha.whole,
    {
        match self.stage {
            GameTransitionStage::Idle => Opacity { part: 0, whole: 1 },
            GameTransitionStage::FadingOut => game_transition_ease(
                self.elapsed,
                GAME_FADE_OUT_NANOS,
            ),
            GameTransitionStage::Covered => Opacity { part: 1, whole: 1 },
            GameTransitionStage::FadingIn => {
                let gone = game_transition_ease(self.elapsed, GAME_FADE_IN_NANOS);
                Opacity { part: gone.whole - gone.part, whole: gone.whole }
            },
        }
    }
}

proof fn lemma_ease_bounds(spent: int, total: int)
    requires
        0 <= spent <= total,
        0 < total <= 1_000_000_000,
    ensures
        0 <= spent * spent * (3 * total - 2 * spent) <= total * total * total,
        0 < total * total <= 1_000_000_000_000_000_000,
        0 < total * total * total <= 1_000_000_000_000_000_000_000_000_000,
        0 <= spent * spent <= 1_000_000_000_000_000_000,
{
    let cubed = total * total * total;
    let weight = spent * spent * (3 * total - 2 * spent);
    assert(weight <= cubed) by (nonlinear_arith)
        requires
            0 <= spent <= total,
            weight == spent * spent * (3 * total - 2 * spent),
            cubed == total * total * total,
    {
        let gap = total - spent;
        assert(cubed - weight == gap * gap * (total + 2 * spent));
        assert(gap * gap >= 0);
        assert(gap * gap * (total + 2 * spent) >= 0);
    }
    assert(0 <= weight) by (nonlinear_arith)
        requires
            0 <= spent <= total,
            weight == spent * spent * (3 * total - 2 * spent),
    {
        assert(spent * spent >= 0);
    }
    assert(0 < total * total <= 1_000_000_000_000_000_000) by (nonlinear_arith)
        requires
            0 < total <= 1_000_000_000,
    ;
    assert(0 < cubed <= 1_000_000_000_000_000_000_000_000_000) by (nonlinear_arith)
        requires
            0 < total <= 1_000_000_000,
            cubed == total * total * total,
    {
        assert(0 < total * total <= 1_000_000_000_000_000_000);
    }
    assert(0 <= spent * spent <= 1_000_000_000_000_000_000) by (nonlinear_arith)
        requires
            0 <= spent <= 1_000_000_000,
    ;
}

/// How far a fade of length `total` has come, eased at both ends.
fn game_transition_ease(elapsed: u64, total: u64) -> (amount: Opacity)
    requires
        0 < total <= 1_000_000_000,
    ensures
        amount.part == eased(elapsed as int, total as int),
        amount.whole == total * total * total,
        amount.part <= amount.whole,
        0 < amount.whole,
{
    let spent: u128 = if elapsed < total {
        elapsed as u128
    } else {
        total as u128
    };
    let whole: u128 = total as u128;
    proof {
        lemma_ease_bounds(spent as int, whole as int);
    }
    let squared: u128 = spent * spent;
    let area: u128 = whole * whole;
    Opacity { part: squared * (3 * whole - 2 * spent), whole: area * whole }
}

proof fn lemma_ease_ends(elapsed: int, total: int)
    requires
        0 <= elapsed,
        0 < total <= 1_000_000_000,
    ensures
        0 <= eased(elapsed, total) <= total * total * total,
        0 < total * total * total <= 1_000_000_000_000_000_000_000_000_000,
        elapsed == 0 ==> eased(elapsed, total) == 0,
        elapsed >= total ==> eased(elapsed, total) == total * total * total,
        elapsed * 2 == total ==> eased(elapsed, total) * 2 == total * total * total,
{
    let spent = if elapsed < total {
        elapsed
    } else {
        total
    };
    lemma_ease_bounds(spent, total);
    if elapsed == 0 {
        assert(0int * 0int * (3 * total - 2 * 0int) == 0) by (nonlinear_arith);
    }
    if elapsed >= total {
        assert(total * total * (3 * total - 2 * total) == total * total * total)
            by (nonlinear_arith);
    }
    if elapsed * 2 == total {
        assert(elapsed * elapsed * (3 * total - 2 * elapsed) * 2 == total * total * total)
            by (nonlinear_arith)
            requires
                elapsed * 2 == total,
        ;
    }
}

/// A fade out begins clear and ends covered, a fade in the other way round, and both
/// are half way through in the middle.
pub proof fn fades_run_from_end_to_end(transition: GameTransition)
    ensures
        ({
            let alpha = transition.spec_alpha();
            &&& transition.stage == GameTransitionStage::FadingOut && transition.elapsed == 0
                ==> alpha.part == 0
            &&& transition.stage == GameTransitionStage::FadingOut && transition.elapsed
                >= GAME_FADE_OUT_NANOS ==> alpha.part == alpha.whole
            &&& transition.stage == GameTransitionStage::FadingOut && transition.elapsed * 2
                == GAME_FADE_OUT_NANOS ==> alpha.part * 2 == alpha.whole
            &&& transition.stage == GameTransitionStage::FadingIn && transition.elapsed == 0
                ==> alpha.part == alpha.whole
            &&& transition.stage == GameTransitionStage::FadingIn && transition.elapsed
                >= GAME_FADE_IN_NANOS ==> alpha.part == 0
            &&& transition.stage == GameTransitionStage::FadingIn && transition.elapsed * 2
                == GAME_FADE_IN_NANOS ==> alpha.part * 2 == alpha.whole
        }),
{
    lemma_ease_ends(transition.elapsed as int, GAME_FADE_OUT_NANOS as int);
    lemma_ease_ends(transition.elapsed as int, GAME_FADE_IN_NANOS as int);
}

/// Starts a transition and pauses gameplay for it.
pub fn request_game_transition(
    transition: &mut GameTransition,
    pause_owners: &mut GameplayPauseOwners,
    action: GameTransitionAction,
    reveal: GameTransitionReveal,
) -> (started: bool)
    ensures
        started == !old(transition).active(),
        *final(transition) == (if started {
            GameTransition {
                stage: GameTransitionStage::FadingOut,
                elapsed: 0,
                action: Some(action),
                reveal,
                committed: false,
            }
        } else {
            *old(transition)
        }),
        *final(pause_owners) == (GameplayPauseOwners {
            game_transition: started || old(pause_owners).game_transition,
            ..*old(pause_owners)
        }),
        old(transition).wf() ==> final(transition).wf(),
{
    let started = transition.request(action, reveal);
    if started {
        pause_owners.game_transition = true;
    }
    started
}

/// What a reveal needs is there.
pub open spec fn reveal_is_ready(
    reveal: GameTransitionReveal,
    scene_ready: bool,
    phase: MatchPhase,
    lesson_prompted: bool,
) -> bool {
    match reveal {
        GameTransitionReveal::Immediate => true,
        GameTransitionReveal::BattleReady => scene_ready && phase == MatchPhase::Fighting,
        GameTransitionReveal::TutorialLessonReady => lesson_prompted,
    }
}

/// Lets a transition run for `delta`; gameplay goes on once it has ended.
pub fn advance_game_transition(
    transition: &mut GameTransition,
    pause_owners: &mut GameplayPauseOwners,
    delta: u64,
    scene_ready: bool,
    phase: MatchPhase,
    lesson_prompted: bool,
)
    ensures
        ({
            let ready = reveal_is_ready(
                old(transition).reveal,
                scene_ready,
                phase,
                lesson_prompted,
            );
            let (after, ended) = old(transition).advanced(delta, ready);
            &&& *final(transition) == after
            &&& *final(pause_owners) == (GameplayPauseOwners {
                game_transition: old(pause_owners).game_transition && !ended,
                ..*old(pause_owners)
            })
        }),
        old(transition).wf() ==> final(transition).wf(),
{
    let reveal_ready = match transition.reveal {
        GameTransitionReveal::Immediate => true,
        GameTransitionReveal::BattleReady => scene_ready && phase == MatchPhase::Fighting,
        GameTransitionReveal::TutorialLessonReady => lesson_prompted,
    };
    if transition.advance(delta, reveal_ready) {
        pause_owners.game_transition = false;
    }
}

/// A covered action is due until it is committed, and never again after.
pub proof fn covered_action_is_committed_once(
    transition: GameTransition,
    delta: u64,
    reveal_ready: bool,
)
    requires
        transition.wf(),
        transition.committed,
    ensures
        transition.pending_action().is_none(),
        transition.advanced(delta, reveal_ready).0.pending_action().is_none(),
{
}

/// The screen stays covered, however long it takes, until the action is committed
/// and the other side is ready.
pub proof fn reveal_waits_for_readiness(
    transition: GameTransition,
    delta: u64,
    reveal_ready: bool,
)
    requires
        transition.stage == GameTransitionStage::Covered,
        !transition.committed || !reveal_ready,
    ensures
        transition.advanced(delta, reveal_ready).0 == transition,
        transition.spec_alpha() == (Opacity { part: 1, whole: 1 }),
{
}

/// A committed transition whose other side is ready runs to its end in three
/// full stages.
pub proof fn ready_transitions_end(transition: GameTransition)
    requires
        transition.stage == GameTransitionStage::FadingOut,
        transition.wf(),
    ensures
        ({
            let covered = transition.advanced(GAME_FADE_OUT_NANOS, true).0;
            let committed = GameTransition { committed: true, ..covered };
            let revealing = committed.advanced(GAME_FADE_HOLD_NANOS, true).0;
            let (ended, done) = revealing.advanced(GAME_FADE_IN_NANOS, true);
            &&& covered.stage == GameTransitionStage::Covered
            &&& covered.pending_action() == transition.action
            &&& revealing.stage == GameTransitionStage::FadingIn
            &&& done
            &&& !ended.active()
        }),
{
}

} // verus!
