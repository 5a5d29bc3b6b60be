//! The attack-decay-sustain-release envelope.

use vstd::prelude::*;
use crate::fixed::{ONE, div_ceil, mul_div_ceil, mul_div_floor};

verus! {

/// The shortest attack, decay or release: about a microsecond.
pub const MIN_TIME: u64 = 4295;

/// The level below which a release falls as if it stood at this level: about a
/// millionth.
pub const EPSILON: i64 = 4295;

/// Where in its course an envelope stands.
#[derive(Clone, Copy, Debug, PartialEq, Eq, Structural)]
pub enum EnvelopeState {
    Idle,
    Attack,
    Decay,
    Sustain,
    Release,
}

/// What an envelope is: its three times in seconds, its sustain level, its
/// state and its level.
pub struct EnvelopeModel {
    pub attack: int,
    pub decay: int,
    pub sustain: int,
    pub release: int,
    pub state: EnvelopeState,
    pub level: int,
}

impl EnvelopeModel {
    /// The times are at least `MIN_TIME`, and the sustain level and the level
    /// lie between zero and one.
    pub open spec fn valid(self) -> bool {
        &&& self.attack >= MIN_TIME
        &&& self.decay >= MIN_TIME
        &&& self.release >= MIN_TIME
        &&& 0 <= self.sustain <= ONE
        &&& 0 <= self.level <= ONE
    }

    /// The envelope with another state and level.
    pub open spec fn at(self, state: EnvelopeState, level: int) -> EnvelopeModel {
        EnvelopeModel { state, level, ..self }
    }

    /// A note starts: the attack begins, from the level the envelope stands at.
    pub open spec fn note_on(self) -> EnvelopeModel {
        self.at(EnvelopeState::Attack, self.level)
    }

    /// A note ends: the release begins, unless the envelope is idle.
    pub open spec fn note_off(self) -> EnvelopeModel {
        if self.state == EnvelopeState::Idle {
            self
        } else {
            self.at(EnvelopeState::Release, self.level)
        }
    }

    /// The rise of an attack over `dt` seconds: `dt / attack`, rounded down.
    pub open spec fn rise(self, dt: int) -> int {
        (dt * ONE) / self.attack
    }

    /// The fall of a decay over `dt` seconds: `dt / decay * (1 - sustain)`,
    /// rounded down.
    pub open spec fn decay_fall(self, dt: int) -> int {
        (dt * (ONE - self.sustain)) / self.decay
    }

    /// The fall of a release over `dt` seconds: `dt / release` times the level,
    /// or times `EPSILON` where the level is below it. It is rounded up, so
    /// that a level above zero falls whenever time passes.
    pub open spec fn release_fall(self, dt: int) -> int {
        div_ceil(
            dt * (if self.level > EPSILON {
                self.level
            } else {
                EPSILON as int
            }),
            self.release,
        )
    }

    /// The envelope `dt` seconds later.
    pub open spec fn advance(self, dt: int) -> EnvelopeModel {
        match self.state {
            EnvelopeState::Idle => self.at(EnvelopeState::Idle, 0),
            EnvelopeState::Attack => {
                if self.level + self.rise(dt) >= ONE {
                    self.at(EnvelopeState::Decay, ONE as int)
                } else {
                    self.at(EnvelopeState::Attack, self.level + self.rise(dt))
                }
            },
            EnvelopeState::Decay => {
                if self.level - self.decay_fall(dt) <= self.sustain {
                    self.at(EnvelopeState::Sustain, self.sustain)
                } else {
                    self.at(EnvelopeState::Decay, self.level - self.decay_fall(dt))
                }
            },
            EnvelopeState::Sustain => self.at(EnvelopeState::Sustain, self.sustain),
            EnvelopeState::Release => {
                if self.level - self.release_fall(dt) <= 0 {
                    self.at(EnvelopeState::Idle, 0)
                } else {
                    self.at(EnvelopeState::Release, self.level - self.release_fall(dt))
                }
            },
        }
    }

    /// The envelope after an event.
    pub open spec fn after(self, event: EnvelopeEvent) -> EnvelopeModel {
        match event {
            EnvelopeEvent::NoteOn => self.note_on(),
            EnvelopeEvent::NoteOff => self.note_off(),
            EnvelopeEvent::Advance(dt) => self.advance(dt as int),
        }
    }

    /// The envelope after a run of events, the first of them first.
    pub open spec fn after_all(self, events: Seq<EnvelopeEvent>) -> EnvelopeModel
        decreases events.len(),
    {
        if events.len() == 0 {
            self
        } else {
            self.after_all(events.drop_last()).after(events.last())
        }
    }

    /// The envelope after a run of time steps, the first of them first.
    pub open spec fn advance_all(self, steps: Seq<nat>) -> EnvelopeModel
        decreases steps.len(),
    {
        if steps.len() == 0 {
            self
        } else {
            self.advance_all(steps.drop_last()).advance(steps.last() as int)
        }
    }

    /// The envelope has the times and the sustain level of `other`.
    pub open spec fn same_shape(self, other: EnvelopeModel) -> bool {
        &&& self.attack == other.attack
        &&& self.decay == other.decay
        &&& self.sustain == other.sustain
        &&& self.release == other.release
    }
}

/// What can happen to an envelope: a note starts, a note ends, or time passes.
pub enum EnvelopeEvent {
    NoteOn,
    NoteOff,
    Advance(nat),
}

/// A quotient of a number that is not negative by one above zero is not
/// negative.
proof fn lemma_quotient_not_negative(n: int, d: int)
    requires
        n >= 0,
        d > 0,
    ensures
        n / d >= 0,
{
    vstd::arithmetic::div_mod::lemma_div_pos_is_pos(n, d);
}

/// No event takes a valid envelope out of range, and none changes its times
/// or its sustain level.
pub proof fn lemma_event_keeps_valid(m: EnvelopeModel, event: EnvelopeEvent)
    requires
        m.valid(),
    ensures
        m.after(event).valid(),
        m.after(event).same_shape(m),
{
    match event {
        EnvelopeEvent::Advance(dt) => {
            let base = if m.level > EPSILON {
                m.level
            } else {
                EPSILON as int
            };
            assert(dt * ONE >= 0 && dt * (ONE - m.sustain) >= 0 && dt * base >= 0)
                by (nonlinear_arith)
                requires
                    dt >= 0,
                    ONE - m.sustain >= 0,
                    base >= 0,
            ;
            lemma_quotient_not_negative(dt * ONE, m.attack);
            lemma_quotient_not_negative(dt * (ONE - m.sustain), m.decay);
            lemma_quotient_not_negative(dt * base + m.release - 1, m.release);
        },
        _ => {},
    }
}

/// The level of an envelope lies between zero and one after every run of
/// events, whatever its times above zero and its sustain level between zero
/// and one.
pub proof fn lemma_level_stays_in_range(m: EnvelopeModel, events: Seq<EnvelopeEvent>)
    requires
        m.valid(),
    ensures
        m.after_all(events).valid(),
        0 <= m.after_all(events).level <= ONE,
        m.after_all(events).same_shape(m),
    decreases events.len(),
{
    if events.len() > 0 {
        lemma_level_stays_in_range(m, events.drop_last());
        lemma_event_keeps_valid(m.after_all(events.drop_last()), events.last());
    }
}

/// A release that is given a time step of at least its release time ends in
/// that step.
pub proof fn lemma_long_step_ends_release(m: EnvelopeModel, dt: nat)
    requires
        m.valid(),
        m.state == EnvelopeState::Release || m.state == EnvelopeState::Idle,
        dt >= m.release,
    ensures
        m.advance(dt as int).state == EnvelopeState::Idle,
        m.advance(dt as int).level == 0,
{
    if m.state == EnvelopeState::Release {
        let base = if m.level > EPSILON {
            m.level
        } else {
            EPSILON as int
        };
        let r = m.release;
        assert(dt * base >= r * base) by (nonlinear_arith)
            requires
                dt >= r,
                base >= 0,
        ;
        vstd::arithmetic::div_mod::lemma_div_is_ordered(r * base, dt * base + r - 1, r);
        vstd::arithmetic::div_mod::lemma_div_multiples_vanish(base, r);
        assert(r * base == base * r) by (nonlinear_arith);
    }
}

/// A releasing or idle envelope stays releasing or idle while time passes.
pub proof fn lemma_release_stays(m: EnvelopeModel, steps: Seq<nat>)
    requires
        m.valid(),
        m.state == EnvelopeState::Release || m.state == EnvelopeState::Idle,
    ensures
        m.advance_all(steps).valid(),
        m.advance_all(steps).same_shape(m),
        m.advance_all(steps).state == EnvelopeState::Release || m.advance_all(steps).state
            == EnvelopeState::Idle,
        m.advance_all(steps).level <= m.level,
    decreases steps.len(),
{
    if steps.len() > 0 {
        let before = m.advance_all(steps.drop_last());
        lemma_release_stays(m, steps.drop_last());
        lemma_event_keeps_valid(before, EnvelopeEvent::Advance(steps.last()));
        let base = if before.level > EPSILON {
            before.level
        } else {
            EPSILON as int
        };
        assert(steps.last() * base >= 0) by (nonlinear_arith)
            requires
                steps.last() >= 0,
                base >= 0,
        ;
        lemma_quotient_not_negative(steps.last() * base + before.release - 1, before.release);
    }
}

/// After a note has ended, whatever the state was unless idle, the envelope is
/// idle at level zero once time has passed in steps of which one is at least
/// the release time long.
pub proof fn lemma_release_reaches_idle(m: EnvelopeModel, steps: Seq<nat>, long: int)
    requires
        m.valid(),
        m.state != EnvelopeState::Idle,
        0 <= long < steps.len(),
        steps[long] >= m.release,
    ensures
        m.note_off().advance_all(steps).state == EnvelopeState::Idle,
        m.note_off().advance_all(steps).level == 0,
    decreases steps.len(),
{
    let start = m.note_off();
    let before = start.advance_all(steps.drop_last());
    lemma_release_stays(start, steps.drop_last());
    if long == steps.len() - 1 {
        lemma_long_step_ends_release(before, steps.last());
    } else {
        lemma_release_reaches_idle(m, steps.drop_last(), long);
    }
}

/// A release ends. Each time step above zero lowers a releasing level by at
/// least one unit, so that after as many such steps as the level has units,
/// and at least one, the envelope is idle at level zero.
pub proof fn lemma_release_ends(m: EnvelopeModel, steps: Seq<nat>)
    requires
        m.valid(),
        m.state == EnvelopeState::Release,
        forall|i: int| 0 <= i < steps.len() ==> steps[i] >= 1,
    ensures
        m.advance_all(steps).state == EnvelopeState::Release ==> m.advance_all(steps).level
            <= m.level - steps.len(),
        steps.len() >= 1 && steps.len() >= m.level ==> {
            &&& m.advance_all(steps).state == EnvelopeState::Idle
            &&& m.advance_all(steps).level == 0
        },
    decreases steps.len(),
{
    if steps.len() > 0 {
        let before = m.advance_all(steps.drop_last());
        let dt = steps.last();
        lemma_release_ends(m, steps.drop_last());
        lemma_release_stays(m, steps.drop_last());
        lemma_release_stays(m, steps);
        if before.state == EnvelopeState::Release {
            let base = if before.level > EPSILON {
                before.level
            } else {
                EPSILON as int
            };
            let r = before.release;
            assert(dt * base >= 1) by (nonlinear_arith)
                requires
                    dt >= 1,
                    base >= 1,
            ;
            vstd::arithmetic::div_mod::lemma_div_is_ordered(r, dt * base + r - 1, r);
            vstd::arithmetic::div_mod::lemma_div_by_self(r);
        }
    }
}

/// An envelope generator. Its view is an `EnvelopeModel`, which is valid at all
/// times.
#[derive(Clone, Copy, Debug)]
pub struct Envelope {
    attack: u64,
    decay: u64,
    sustain: i64,
    release: u64,
    state: EnvelopeState,
    level: i64,
}

impl View for Envelope {
    type V = EnvelopeModel;

    closed spec fn view(&self) -> EnvelopeModel {
        EnvelopeModel {
            attack: self.attack as int,
            decay: self.decay as int,
            sustain: self.sustain as int,
            release: self.release as int,
            state: self.state,
            level: self.level as int,
        }
    }
}

impl Envelope {
    /// The view is valid: this holds of every value of the type.
    #[verifier::type_invariant]
    pub open spec fn inv(self) -> bool {
        self@.valid()
    }

    /// An idle envelope at level zero. A time below `MIN_TIME` is raised to
    /// it.
    pub fn new(attack: u64, decay: u64, sustain: i64, release: u64) -> (env: Envelope)
        requires
            0 <= sustain <= ONE,
        ensures
            env@ == (EnvelopeModel {
                attack: if attack >= MIN_TIME { attack as int } else { MIN_TIME as int },
                decay: if decay >= MIN_TIME { decay as int } else { MIN_TIME as int },
                sustain: sustain as int,
                release: if release >= MIN_TIME { release as int } else { MIN_TIME as int },
                state: EnvelopeState::Idle,
                level: 0,
            }),
            env@.valid(),
    {
        Envelope {
            attack: if attack >= MIN_TIME { attack } else { MIN_TIME },
            decay: if decay >= MIN_TIME { decay } else { MIN_TIME },
            sustain,
            release: if release >= MIN_TIME { release } else { MIN_TIME },
            state: EnvelopeState::Idle,
            level: 0,
        }
    }

    /// A note starts. The attack begins whatever the state was, and from the
    /// level that the envelope stands at.
    pub fn note_on(&mut self)
        ensures
            final(self)@ == old(self)@.note_on(),
            final(self)@.state == EnvelopeState::Attack,
            final(self)@.level == old(self)@.level,
            final(self)@.valid(),
    {
        proof {
            use_type_invariant(&*self);
        }
        self.state = EnvelopeState::Attack;
    }

    /// A note ends. The release begins, unless the envelope is idle: then
    /// nothing changes.
    pub fn note_off(&mut self)
        ensures
            final(self)@ == old(self)@.note_off(),
            final(self)@.valid(),
    {
        proof {
            use_type_invariant(&*self);
        }
        match self.state {
            EnvelopeState::Idle => {},
            _ => {
                self.state = EnvelopeState::Release;
            },
        }
    }

    /// Moves the envelope `dt` seconds on and gives its new level.
    pub fn advance(&mut self, dt: u64) -> (level: i64)
        ensures
            final(self)@ == old(self)@.advance(dt as int),
            level == final(self)@.level,
            0 <= level <= ONE,
            final(self)@.valid(),
    {
        proof {
            use_type_invariant(&*self);
        }
        match self.state {
            EnvelopeState::Idle => {
                self.level = 0;
            },
            EnvelopeState::Attack => {
                let rise: u128 = mul_div_floor(dt, ONE as u64, self.attack);
                if rise >= (ONE - self.level) as u128 {
                    self.level = ONE;
                    self.state = EnvelopeState::Decay;
                } else {
                    self.level = self.level + rise as i64;
                }
            },
            EnvelopeState::Decay => {
                let fall: u128 = mul_div_floor(dt, (ONE - self.sustain) as u64, self.decay);
                if self.level <= self.sustain || fall >= (self.level - self.sustain) as u128 {
                    self.level = self.sustain;
                    self.state = EnvelopeState::Sustain;
                } else {
                    self.level = self.level - fall as i64;
                }
            },
            EnvelopeState::Sustain => {
                self.level = self.sustain;
            },
            EnvelopeState::Release => {
                let base: i64 = if self.level > EPSILON {
                    self.level
                } else {
                    EPSILON
                };
                let fall: u128 = mul_div_ceil(dt, base as u64, self.release);
                if fall >= self.level as u128 {
                    self.level = 0;
                    self.state = EnvelopeState::Idle;
                } else {
                    self.level = self.level - fall as i64;
                }
            },
        }
        self.level
    }

    /// The attack time in seconds, at least `MIN_TIME`.
    pub fn attack(&self) -> (attack: u64)
        ensures
            attack == self@.attack,
            attack >= MIN_TIME,
    {
        proof {
            use_type_invariant(self);
        }
        self.attack
    }

    /// The decay time in seconds, at least `MIN_TIME`.
    pub fn decay(&self) -> (decay: u64)
        ensures
            decay == self@.decay,
            decay >= MIN_TIME,
    {
        proof {
            use_type_invariant(self);
        }
        self.decay
    }

    /// The sustain level, between zero and one.
    pub fn sustain(&self) -> (sustain: i64)
        ensures
            sustain == self@.sustain,
            0 <= sustain <= ONE,
    {
        proof {
            use_type_invariant(self);
        }
        self.sustain
    }

    /// The release time in seconds, at least `MIN_TIME`.
    pub fn release(&self) -> (release: u64)
        ensures
            release == self@.release,
            release >= MIN_TIME,
    {
        proof {
            use_type_invariant(self);
        }
        self.release
    }

    /// The state.
    pub fn state(&self) -> (state: EnvelopeState)
        ensures
            state == self@.state,
    {
        self.state
    }

    /// The level, between zero and one.
    pub fn level(&self) -> (level: i64)
        ensures
            level == self@.level,
            0 <= level <= ONE,
    {
        proof {
            use_type_invariant(self);
        }
        self.level
    }
}

} // verus!
