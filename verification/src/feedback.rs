//! Match-wide feedback: counters, hitstop, on-screen announcements and the words
//! in which lifecycle events are announced.

use vstd::prelude::*;
use vstd::string::*;

use crate::ids::FighterId;
use crate::match_state::{MatchPhaseEvent, MatchState};
use crate::presentation::{
    FighterLifeLossAnnouncement, FighterPresentationIntent, FighterPresentationKind,
};
use crate::presentation::fighter_presentation_matches_event;
use crate::reaction::{ReactionFamilyId, aftermath_feedback_priority, aftermath_landing_shake};
use crate::sim_event::SimEvent;
use crate::setup::DEFAULT_REPLAY_SEED;

verus! {

/// What is counted over a match.
#[derive(Clone, Copy, Debug, PartialEq, Eq, Structural)]
pub struct MatchTelemetry {
    pub replay_seed: u64,
    pub ring_outs: u32,
    pub falls: u32,
    pub item_hits: u32,
    pub throws: u32,
    pub guard_breaks: u32,
}

impl MatchTelemetry {
    /// Nothing counted yet.
    pub open spec fn fresh(replay_seed: u64) -> MatchTelemetry {
        MatchTelemetry {
            replay_seed,
            ring_outs: 0,
            falls: 0,
            item_hits: 0,
            throws: 0,
            guard_breaks: 0,
        }
    }

    pub fn new() -> (telemetry: MatchTelemetry)
        ensures
            telemetry == Self::fresh(DEFAULT_REPLAY_SEED),
    {
        MatchTelemetry {
            replay_seed: DEFAULT_REPLAY_SEED,
            ring_outs: 0,
            falls: 0,
            item_hits: 0,
            throws: 0,
            guard_breaks: 0,
        }
    }

    pub fn reset_for_seed(&mut self, replay_seed: u64)
        ensures
            *final(self) == Self::fresh(replay_seed),
    {
        *self = MatchTelemetry {
            replay_seed,
            ring_outs: 0,
            falls: 0,
            item_hits: 0,
            throws: 0,
            guard_breaks: 0,
        };
    }

    /// The counters after a ring-out: credited to somebody, or a mere fall.
    pub open spec fn after_ringout(self, credited: bool) -> MatchTelemetry {
        if credited {
            MatchTelemetry { ring_outs: (self.ring_outs + 1) as u32, ..self }
        } else {
            MatchTelemetry { falls: (self.falls + 1) as u32, ..self }
        }
    }

    pub fn record_ringout(&mut self, credited: bool)
        requires
            old(self).ring_outs < u32::MAX,
            old(self).falls < u32::MAX,
        ensures
            *final(self) == old(self).after_ringout(credited),
    {
        if credited {
            self.ring_outs += 1;
        } else {
            self.falls += 1;
        }
    }

    pub fn record_item_hit(&mut self)
        requires
            old(self).item_hits < u32::MAX,
        ensures
            *final(self) == (MatchTelemetry {
                item_hits: (old(self).item_hits + 1) as u32,
                ..*old(self)
            }),
    {
        self.item_hits += 1;
    }

    pub fn record_throw(&mut self)
        requires
            old(self).throws < u32::MAX,
        ensures
            *final(self) == (MatchTelemetry { throws: (old(self).throws + 1) as u32, ..*old(self) }),
    {
        self.throws += 1;
    }

    pub fn record_guard_break(&mut self)
        requires
            old(self).guard_breaks < u32::MAX,
        ensures
            *final(self) == (MatchTelemetry {
                guard_breaks: (old(self).guard_breaks + 1) as u32,
                ..*old(self)
            }),
    {
        self.guard_breaks += 1;
    }
}

/// A freeze of the simulation, in nanoseconds.
#[derive(Clone, Copy, Debug, PartialEq, Eq, Structural)]
pub struct Hitstop {
    pub remaining: u64,
}

impl Hitstop {
    pub open spec fn spec_active(&self) -> bool {
        self.remaining > 0
    }

    #[verifier::when_used_as_spec(spec_active)]
    pub fn active(&self) -> (active: bool)
        ensures
            active == self.spec_active(),
    {
        self.remaining > 0
    }

    /// Freezes for at least `duration`; a longer freeze is not cut short.
    pub fn trigger(&mut self, duration: u64)
        ensures
            final(self).remaining == (if old(self).remaining < duration {
                duration
            } else {
                old(self).remaining
            }),
    {
        if self.remaining < duration {
            self.remaining = duration;
        }
    }
}

/// What is left of a countdown after `delta`.
pub open spec fn countdown(remaining: u64, delta: u64) -> u64 {
    if remaining > delta {
        (remaining - delta) as u64
    } else {
        0
    }
}

pub fn tick_hitstop(delta: u64, hitstop: &mut Hitstop)
    ensures
        final(hitstop).remaining == countdown(old(hitstop).remaining, delta),
{
    hitstop.remaining = hitstop.remaining.saturating_sub(delta);
}

/// The message on screen and how long it stays, in nanoseconds.
#[derive(Debug)]
pub struct MatchAnnouncements {
    pub message: String,
    pub timer: u64,
}

impl MatchAnnouncements {
    pub fn show(&mut self, message: String, duration: u64)
        ensures
            final(self).message == message,
            final(self).timer == duration,
    {
        self.message = message;
        self.timer = duration;
    }
}

/// Lets the message run down and clears it when its time is over. A message
/// whose time was over already is left alone.
pub fn tick_announcements(delta: u64, announcements: &mut MatchAnnouncements)
    ensures
        final(announcements).timer == countdown(old(announcements).timer, delta),
        final(announcements).message@ == (if old(announcements).timer > 0 && old(
            announcements,
        ).timer <= delta {
            Seq::<char>::empty()
        } else {
            old(announcements).message@
        }),
{
    if announcements.timer > 0 {
        announcements.timer = announcements.timer.saturating_sub(delta);
        if announcements.timer == 0 {
            announcements.message = String::new();
        }
    }
}

/// A cue for the match itself: its name, priority, message and message time in
/// milliseconds.
#[derive(Clone, Copy, Debug, PartialEq, Eq)]
pub struct MatchFlowCue {
    pub cue: &'static str,
    pub priority: u8,
    pub message: &'static str,
    pub message_ms: u32,
}

/// How a change of phase is announced.
pub open spec fn spec_phase_cue(event: MatchPhaseEvent) -> MatchFlowCue {
    match event {
        MatchPhaseEvent::TimeUp => MatchFlowCue {
            cue: "match_timeup",
            priority: 22,
            message: "Time up",
            message_ms: 1100,
        },
        MatchPhaseEvent::Results => MatchFlowCue {
            cue: "match_results",
            priority: 28,
            message: "Results - press R",
            message_ms: 1400,
        },
    }
}

pub fn phase_cue(event: MatchPhaseEvent) -> (cue: MatchFlowCue)
    ensures
        cue == spec_phase_cue(event),
{
    match event {
        MatchPhaseEvent::TimeUp => MatchFlowCue {
            cue: "match_timeup",
            priority: 22,
            message: "Time up",
            message_ms: 1100,
        },
        MatchPhaseEvent::Results => MatchFlowCue {
            cue: "match_results",
            priority: 28,
            message: "Results - press R",
            message_ms: 1400,
        },
    }
}

/// Nanoseconds in a millisecond.
pub const NANOS_PER_MILLI: u64 = 1_000_000;

/// Lets `delta` nanoseconds of the match pass. Where a phase ends its message is
/// shown, and the cue is returned.
pub fn tick_match_timer(
    delta: u64,
    time_up: u64,
    state: &mut MatchState,
    announcements: &mut MatchAnnouncements,
) -> (cue: Option<MatchFlowCue>)
    ensures
        final(state)@ == old(state)@.advanced(delta, time_up).0,
        match old(state)@.advanced(delta, time_up).1 {
            Some(event) => {
                &&& cue == Some(spec_phase_cue(event))
                &&& final(announcements).message@ == spec_phase_cue(event).message@
                &&& final(announcements).timer == spec_phase_cue(event).message_ms * NANOS_PER_MILLI
            },
            None => cue.is_none() && *final(announcements) == *old(announcements),
        },
{
    match state.advance_phase(delta, time_up) {
        Some(event) => {
            let cue = phase_cue(event);
            announcements.show(cue.message.to_owned(), cue.message_ms as u64 * NANOS_PER_MILLI);
            Some(cue)
        },
        None => None,
    }
}

/// The decimal digit with a value below ten.
pub open spec fn digit_char(value: int) -> char {
    if value == 0 {
        '0'
    } else if value == 1 {
        '1'
    } else if value == 2 {
        '2'
    } else if value == 3 {
        '3'
    } else if value == 4 {
        '4'
    } else if value == 5 {
        '5'
    } else if value == 6 {
        '6'
    } else if value == 7 {
        '7'
    } else if value == 8 {
        '8'
    } else {
        '9'
    }
}

/// A natural number in decimal.
pub open spec fn decimal(value: nat) -> Seq<char>
    decreases value,
{
    if value < 10 {
        seq![digit_char(value as int)]
    } else {
        decimal(value / 10).push(digit_char((value % 10) as int))
    }
}

/// An integer in decimal, with a minus sign where it is negative.
pub open spec fn signed_decimal(value: int) -> Seq<char> {
    if value < 0 {
        seq!['-'] + decimal((-value) as nat)
    } else {
        decimal(value as nat)
    }
}

fn digit_text(value: u64) -> (text: &'static str)
    requires
        value < 10,
    ensures
        text@ == seq![digit_char(value as int)],
{
    proof {
        reveal_strlit("0");
        reveal_strlit("1");
        reveal_strlit("2");
        reveal_strlit("3");
        reveal_strlit("4");
        reveal_strlit("5");
        reveal_strlit("6");
        reveal_strlit("7");
        reveal_strlit("8");
        reveal_strlit("9");
    }
    let text = match value {
        0 => "0",
        1 => "1",
        2 => "2",
        3 => "3",
        4 => "4",
        5 => "5",
        6 => "6",
        7 => "7",
        8 => "8",
        _ => "9",
    };
    proof {
        assert(text@ =~= seq![digit_char(value as int)]);
    }
    text
}

fn append_decimal(out: &mut String, value: u64)
    ensures
        final(out)@ == old(out)@ + decimal(value as nat),
    decreases value,
{
    let ghost before = out@;
    if value >= 10 {
        append_decimal(out, value / 10);
    }
    out.append(digit_text(value % 10));
    proof {
        assert(out@ =~= before + decimal(value as nat));
    }
}

fn append_signed_decimal(out: &mut String, value: i32)
    ensures
        final(out)@ == old(out)@ + signed_decimal(value as int),
{
    let ghost before = out@;
    if value < 0 {
        proof {
            reveal_strlit("-");
            assert("-"@ =~= seq!['-']);
        }
        out.append("-");
        append_decimal(out, (-(value as i64)) as u64);
    } else {
        append_decimal(out, value as u64);
    }
    proof {
        assert(out@ =~= before + signed_decimal(value as int));
    }
}

/// The words for a lost life.
pub open spec fn life_lost_message(
    name: Seq<char>,
    ring_out: bool,
    announcement: FighterLifeLossAnnouncement,
) -> Seq<char> {
    let result = if ring_out {
        " ring out"@
    } else {
        " KO"@
    };
    match announcement {
        FighterLifeLossAnnouncement::MatchDecided => "Life match decided - press R"@,
        FighterLifeLossAnnouncement::Eliminated => name + " eliminated"@,
        FighterLifeLossAnnouncement::StockRemaining(stock) => name + result + " - "@
            + signed_decimal(stock as int) + (if stock == 1 {
            " life left"@
        } else {
            " lives left"@
        }),
        FighterLifeLossAnnouncement::LifeLost => name + result,
    }
}

pub fn life_loss_message(
    fighter_name: &str,
    ring_out: bool,
    announcement: FighterLifeLossAnnouncement,
) -> (message: String)
    ensures
        message@ == life_lost_message(fighter_name@, ring_out, announcement),
{
    let result = if ring_out {
        " ring out"
    } else {
        " KO"
    };
    match announcement {
        FighterLifeLossAnnouncement::MatchDecided => "Life match decided - press R".to_owned(),
        FighterLifeLossAnnouncement::Eliminated => {
            let mut message = fighter_name.to_owned();
            message.append(" eliminated");
            message
        },
        FighterLifeLossAnnouncement::StockRemaining(stock) => {
            let mut message = fighter_name.to_owned();
            message.append(result);
            message.append(" - ");
            append_signed_decimal(&mut message, stock);
            message.append(
                if stock == 1 {
                    " life left"
                } else {
                    " lives left"
                },
            );
            message
        },
        FighterLifeLossAnnouncement::LifeLost => {
            let mut message = fighter_name.to_owned();
            message.append(result);
            message
        },
    }
}

/// The words for a return to the arena.
pub fn respawn_message(fighter_name: &str) -> (message: String)
    ensures
        message@ == fighter_name@ + " returns"@,
{
    let mut message = fighter_name.to_owned();
    message.append(" returns");
    message
}

/// What the renderer spawns for a lifecycle event.
#[derive(Clone, Copy, Debug, PartialEq, Eq)]
pub enum LifecycleEffect {
    DrunkBubble { fighter: usize, phase: u32 },
    DashTrail,
    GuardFlash,
    DustPuff,
    AftermathPulse(ReactionFamilyId),
    RingOutBurst,
    RespawnColumn,
}

/// Where a feedback cue comes from.
#[derive(Clone, Copy, Debug, PartialEq, Eq, Structural)]
pub enum CueSource {
    FighterStrike,
    MatchFlow,
    RingOut,
}

/// A named feedback cue. The ring-out cue takes its name, shake and priority
/// from the impact feedback profile.
#[derive(Clone, Copy, Debug, PartialEq, Eq)]
pub enum LifecycleCue {
    Named { cue: &'static str, source: CueSource, priority: u8 },
    RingOutProfile,
}

/// A combat sound at the event's position.
#[derive(Clone, Copy, Debug, PartialEq, Eq, Structural)]
pub enum LifecycleSound {
    WallImpact { priority: u8 },
    GroundImpact { priority: u8 },
    AftermathImpact(ReactionFamilyId),
}

/// Everything the renderer does for one lifecycle event. The shake is in
/// hundredths and only ever raises the current one; the message time is in
/// milliseconds.
#[derive(Debug)]
pub struct LifecyclePresentation {
    pub effect: Option<LifecycleEffect>,
    pub shake: u8,
    pub cue: Option<LifecycleCue>,
    pub sound: Option<LifecycleSound>,
    pub message: Option<String>,
    pub message_ms: u32,
}

/// The effect of a payload.
pub open spec fn effect_for(
    fighter: FighterId,
    kind: FighterPresentationKind,
) -> Option<LifecycleEffect> {
    match kind {
        FighterPresentationKind::DrunkBubble { phase, .. } => Some(
            LifecycleEffect::DrunkBubble { fighter: fighter.spec_index(), phase },
        ),
        FighterPresentationKind::DashTrail { .. } => Some(LifecycleEffect::DashTrail),
        FighterPresentationKind::RecoveryStarted { .. } => Some(LifecycleEffect::GuardFlash),
        FighterPresentationKind::WallBounced { .. } => Some(LifecycleEffect::DustPuff),
        FighterPresentationKind::Landed { .. } => Some(LifecycleEffect::DustPuff),
        FighterPresentationKind::LandingAftermath { family, .. } => Some(
            LifecycleEffect::AftermathPulse(family),
        ),
        FighterPresentationKind::GroundBounced { .. } => Some(LifecycleEffect::DustPuff),
        FighterPresentationKind::LifeLost { ring_out: true, .. } => Some(
            LifecycleEffect::RingOutBurst,
        ),
        FighterPresentationKind::Respawned { .. } => Some(LifecycleEffect::RespawnColumn),
        _ => None,
    }
}

/// The camera shake of a payload, in hundredths. That of a ring-out comes from
/// its feedback profile.
pub open spec fn shake_for(kind: FighterPresentationKind) -> u8 {
    match kind {
        FighterPresentationKind::RecoveryStarted { .. } => 12,
        FighterPresentationKind::LandingAftermath { family, .. } => aftermath_landing_shake(family),
        _ => 0,
    }
}

/// The feedback cue of a payload.
pub open spec fn cue_for(kind: FighterPresentationKind) -> Option<LifecycleCue> {
    match kind {
        FighterPresentationKind::RecoveryStarted { .. } => Some(
            LifecycleCue::Named {
                cue: "reaction_getup_transition",
                source: CueSource::FighterStrike,
                priority: 44,
            },
        ),
        FighterPresentationKind::RecoveryCompleted => Some(
            LifecycleCue::Named {
                cue: "reaction_recover_control",
                source: CueSource::FighterStrike,
                priority: 28,
            },
        ),
        FighterPresentationKind::LandingAftermath { family, cue, .. } => Some(
            LifecycleCue::Named {
                cue,
                source: CueSource::FighterStrike,
                priority: aftermath_feedback_priority(family),
            },
        ),
        FighterPresentationKind::LifeLost { ring_out: true, .. } => Some(
            LifecycleCue::RingOutProfile,
        ),
        FighterPresentationKind::Respawned { .. } => Some(
            LifecycleCue::Named { cue: "respawn_return", source: CueSource::MatchFlow, priority: 16 },
        ),
        _ => None,
    }
}

/// The combat sound of a payload.
pub open spec fn sound_for(kind: FighterPresentationKind) -> Option<LifecycleSound> {
    match kind {
        FighterPresentationKind::WallBounced { .. } => Some(
            LifecycleSound::WallImpact { priority: 52 },
        ),
        FighterPresentationKind::LandingAftermath { family, .. } => Some(
            LifecycleSound::AftermathImpact(family),
        ),
        FighterPresentationKind::GroundBounced { .. } => Some(
            LifecycleSound::GroundImpact { priority: 50 },
        ),
        FighterPresentationKind::KnockdownLanded { .. } => Some(
            LifecycleSound::GroundImpact { priority: 46 },
        ),
        _ => None,
    }
}

/// The words of a payload and how long they stay, in milliseconds.
pub open spec fn message_for(
    name: Seq<char>,
    kind: FighterPresentationKind,
) -> Option<(Seq<char>, u32)> {
    match kind {
        FighterPresentationKind::LifeLost { ring_out, announcement, .. } => Some(
            (life_lost_message(name, ring_out, announcement), 1100),
        ),
        FighterPresentationKind::Respawned { .. } => Some((name + " returns"@, 900)),
        _ => None,
    }
}

/// What the renderer does for an event and its intent; nothing where they do
/// not belong together.
pub fn present_fighter_lifecycle_event(
    event: SimEvent,
    intent: FighterPresentationIntent,
) -> (presentation: Option<LifecyclePresentation>)
    ensures
        presentation.is_some() == fighter_presentation_matches_event(event, intent),
        presentation.is_some() ==> {
            let shown = presentation.unwrap();
            &&& shown.effect == effect_for(intent.fighter, intent.kind)
            &&& shown.shake == shake_for(intent.kind)
            &&& shown.cue == cue_for(intent.kind)
            &&& shown.sound == sound_for(intent.kind)
            &&& match message_for(intent.fighter_name@, intent.kind) {
                Some((words, time)) => shown.message.is_some() && shown.message.unwrap()@ == words
                    && shown.message_ms == time,
                None => shown.message.is_none() && shown.message_ms == 0,
            }
        },
{
    if !fighter_presentation_matches_event(event, intent) {
        return None;
    }
    let mut shown = LifecyclePresentation {
        effect: None,
        shake: 0,
        cue: None,
        sound: None,
        message: None,
        message_ms: 0,
    };
    match intent.kind {
        FighterPresentationKind::DrunkBubble { position: _, phase } => {
            shown.effect = Some(
                LifecycleEffect::DrunkBubble { fighter: intent.fighter.index(), phase },
            );
        },
        FighterPresentationKind::DashTrail { position: _, direction: _ } => {
            shown.effect = Some(LifecycleEffect::DashTrail);
        },
        FighterPresentationKind::RecoveryStarted { position: _ } => {
            shown.effect = Some(LifecycleEffect::GuardFlash);
            shown.shake = 12;
            shown.cue = Some(
                LifecycleCue::Named {
                    cue: "reaction_getup_transition",
                    source: CueSource::FighterStrike,
                    priority: 44,
                },
            );
        },
        FighterPresentationKind::RecoveryCompleted => {
            shown.cue = Some(
                LifecycleCue::Named {
                    cue: "reaction_recover_control",
                    source: CueSource::FighterStrike,
                    priority: 28,
                },
            );
        },
        FighterPresentationKind::WallBounced { position: _ } => {
            shown.effect = Some(LifecycleEffect::DustPuff);
            shown.sound = Some(LifecycleSound::WallImpact { priority: 52 });
        },
        FighterPresentationKind::Landed { position: _ } => {
            shown.effect = Some(LifecycleEffect::DustPuff);
        },
        FighterPresentationKind::LandingAftermath { position: _, family, cue } => {
            shown.effect = Some(LifecycleEffect::AftermathPulse(family));
            shown.shake = aftermath_landing_shake(family);
            shown.cue = Some(
                LifecycleCue::Named {
                    cue,
                    source: CueSource::FighterStrike,
                    priority: aftermath_feedback_priority(family),
                },
            );
            shown.sound = Some(LifecycleSound::AftermathImpact(family));
        },
        FighterPresentationKind::GroundBounced { position: _ } => {
            shown.effect = Some(LifecycleEffect::DustPuff);
            shown.sound = Some(LifecycleSound::GroundImpact { priority: 50 });
        },
        FighterPresentationKind::KnockdownLanded { position: _ } => {
            shown.sound = Some(LifecycleSound::GroundImpact { priority: 46 });
        },
        FighterPresentationKind::LifeLost { position: _, ring_out, announcement } => {
            if ring_out {
                shown.effect = Some(LifecycleEffect::RingOutBurst);
                shown.cue = Some(LifecycleCue::RingOutProfile);
            }
            shown.message = Some(life_loss_message(intent.fighter_name, ring_out, announcement));
            shown.message_ms = 1100;
        },
        FighterPresentationKind::Respawned { position: _ } => {
            shown.effect = Some(LifecycleEffect::RespawnColumn);
            shown.cue = Some(
                LifecycleCue::Named {
                    cue: "respawn_return",
                    source: CueSource::MatchFlow,
                    priority: 16,
                },
            );
            shown.message = Some(respawn_message(intent.fighter_name));
            shown.message_ms = 900;
        },
    }
    Some(shown)
}

/// An intent is shown for one event only: two events that it both belongs to
/// are the same event.
pub proof fn intent_belongs_to_one_event(
    left: SimEvent,
    right: SimEvent,
    intent: FighterPresentationIntent,
)
    requires
        fighter_presentation_matches_event(left, intent),
        fighter_presentation_matches_event(right, intent),
    ensures
        left == right,
{
}

} // verus!
