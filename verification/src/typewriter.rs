//! The reveal progress of one sentence.

use vstd::prelude::*;

verus! {

/// The reveal time at which a sentence is fully shown.
pub const TIME_FULL: u64 = 1_000_000_000_000;

/// The highest speed: the whole sentence in one second.
pub const SPEED_FULL: u32 = 1_000_000;

/// The speed of a typewriter that was given none: half a sentence per second.
pub const DEFAULT_SPEED: u32 = 500_000;

/// Progressive reveal of a sentence.
///
/// `time` runs from 0 to [`TIME_FULL`]; `speed` is in millionths of a
/// sentence per second, at most [`SPEED_FULL`].
#[derive(Debug)]
pub struct TypeWriter {
    active: bool,
    time: u64,
    speed: u32,
}

/// What a [`TypeWriter`] is, as mathematical values.
pub ghost struct TypeWriterView {
    pub active: bool,
    pub time: nat,
    pub speed: nat,
}

impl TypeWriterView {
    /// Both quantities are within their ranges.
    pub open spec fn in_range(self) -> bool {
        self.time <= TIME_FULL && self.speed <= SPEED_FULL
    }

    /// The reveal is over: nothing is hidden any more.
    pub open spec fn finished(self) -> bool {
        !self.active || self.time == TIME_FULL
    }

    /// The state after `amount` microseconds have passed.
    pub open spec fn advance(self, amount: nat) -> TypeWriterView {
        TypeWriterView { time: clamp_time(self.time + amount * self.speed), ..self }
    }

    /// The state after a skip to the end.
    pub open spec fn finish(self) -> TypeWriterView {
        TypeWriterView { time: TIME_FULL as nat, ..self }
    }

    /// The state after a restart.
    pub open spec fn reset(self) -> TypeWriterView {
        TypeWriterView { time: 0, ..self }
    }

    /// The state after the frames `amounts`, each given in microseconds, in order.
    pub open spec fn advance_all(self, amounts: Seq<nat>) -> TypeWriterView
        decreases amounts.len(),
    {
        if amounts.len() == 0 {
            self
        } else {
            self.advance(amounts[0]).advance_all(amounts.drop_first())
        }
    }
}

/// `time`, held to the range of a reveal time.
pub open spec fn clamp_time(time: nat) -> nat {
    if time <= TIME_FULL {
        time
    } else {
        TIME_FULL as nat
    }
}

/// `speed`, held to the range of a speed.
pub open spec fn clamp_speed(speed: nat) -> nat {
    if speed <= SPEED_FULL {
        speed
    } else {
        SPEED_FULL as nat
    }
}

/// The sum of `amounts`.
pub open spec fn total(amounts: Seq<nat>) -> nat
    decreases amounts.len(),
{
    if amounts.len() == 0 {
        0
    } else {
        amounts[0] + total(amounts.drop_first())
    }
}

/// A run of frames acts as one frame of their total length.
pub proof fn lemma_advance_all(typewriter: TypeWriterView, amounts: Seq<nat>)
    requires
        typewriter.time <= TIME_FULL,
    ensures
        typewriter.advance_all(amounts) == (TypeWriterView {
            time: clamp_time(typewriter.time + total(amounts) * typewriter.speed),
            ..typewriter
        }),
    decreases amounts.len(),
{
    let speed = typewriter.speed;
    if amounts.len() == 0 {
        assert(total(amounts) * speed == 0) by (nonlinear_arith)
            requires
                total(amounts) == 0,
        ;
    } else {
        let first = amounts[0];
        let rest = amounts.drop_first();
        lemma_advance_all(typewriter.advance(first), rest);
        assert((first + total(rest)) * speed == first * speed + total(rest) * speed
            && first * speed >= 0 && total(rest) * speed >= 0) by (nonlinear_arith);
    }
}

/// Frames whose lengths add up to at least the time that a whole reveal
/// takes at the typewriter's speed leave it exactly at the end, wherever it
/// started and however the time was cut into frames.
pub proof fn lemma_advance_reaches_full(typewriter: TypeWriterView, amounts: Seq<nat>)
    requires
        typewriter.time <= TIME_FULL,
        total(amounts) * typewriter.speed >= TIME_FULL,
    ensures
        typewriter.advance_all(amounts).time == TIME_FULL,
{
    lemma_advance_all(typewriter, amounts);
}

/// No run of frames takes the time past the end or back.
pub proof fn lemma_advance_bounded(typewriter: TypeWriterView, amounts: Seq<nat>)
    requires
        typewriter.time <= TIME_FULL,
    ensures
        typewriter.time <= typewriter.advance_all(amounts).time <= TIME_FULL,
{
    lemma_advance_all(typewriter, amounts);
}

/// After a skip to the end, frames change nothing: the time stays at the
/// end until a restart.
pub proof fn lemma_finish_then_advance(typewriter: TypeWriterView, amount: nat)
    ensures
        typewriter.finish().advance(amount) == typewriter.finish(),
        typewriter.finish().time == TIME_FULL,
        typewriter.finish().reset().time == 0,
{
}

impl View for TypeWriter {
    type V = TypeWriterView;

    closed spec fn view(&self) -> TypeWriterView {
        TypeWriterView { active: self.active, time: self.time as nat, speed: self.speed as nat }
    }
}

impl Default for TypeWriter {
    /// An inactive typewriter at the start, with the default speed.
    fn default() -> (typewriter: Self)
        ensures
            typewriter@ == (TypeWriterView {
                active: false,
                time: 0,
                speed: DEFAULT_SPEED as nat,
            }),
    {
        Self { active: false, time: 0, speed: DEFAULT_SPEED }
    }
}

impl TypeWriter {
    /// Time and speed are within their ranges, in every typewriter that runs.
    #[verifier::type_invariant]
    pub open spec fn well_formed(&self) -> bool {
        self@.in_range()
    }

    /// An active typewriter at the start, with the default speed.
    pub fn new() -> (typewriter: Self)
        ensures
            typewriter@ == (TypeWriterView {
                active: true,
                time: 0,
                speed: DEFAULT_SPEED as nat,
            }),
    {
        Self { active: true, time: 0, speed: DEFAULT_SPEED }
    }

    /// Switches the reveal on: the sentence shows only what has been revealed.
    pub fn activate(&mut self)
        ensures
            final(self)@ == (TypeWriterView { active: true, ..old(self)@ }),
    {
        proof {
            use_type_invariant(&*self);
        }
        self.active = true;
    }

    /// Switches the reveal off: the sentence shows its whole text.
    pub fn deactivate(&mut self)
        ensures
            final(self)@ == (TypeWriterView { active: false, ..old(self)@ }),
    {
        proof {
            use_type_invariant(&*self);
        }
        self.active = false;
    }

    /// Whether the reveal is switched on.
    pub fn is_active(&self) -> (active: bool)
        ensures
            active == self@.active,
    {
        self.active
    }

    /// Lets `amount` microseconds pass: the time grows by `amount` times the
    /// speed and stops at [`TIME_FULL`].
    pub fn advance(&mut self, amount: u64)
        ensures
            final(self)@ == old(self)@.advance(amount as nat),
            final(self)@.in_range(),
            final(self)@.time >= old(self)@.time,
    {
        proof {
            use_type_invariant(&*self);
            assert(amount * self.speed <= u64::MAX * SPEED_FULL) by (nonlinear_arith)
                requires
                    amount <= u64::MAX,
                    self.speed <= SPEED_FULL,
            ;
        }
        let step: u128 = (amount as u128) * (self.speed as u128);
        let room: u64 = TIME_FULL - self.time;
        if step >= room as u128 {
            self.time = TIME_FULL;
        } else {
            self.time = self.time + (step as u64);
        }
    }

    /// The typewriter at reveal time `time`, or at the end if `time` lies past it.
    pub fn with_time(self, time: u64) -> (typewriter: Self)
        ensures
            typewriter@ == (TypeWriterView { time: clamp_time(time as nat), ..self@ }),
    {
        let mut typewriter = self;
        typewriter.set_time(time);
        typewriter
    }

    /// Sets the reveal time to `time`, or to the end if `time` lies past it.
    pub fn set_time(&mut self, time: u64)
        ensures
            final(self)@ == (TypeWriterView { time: clamp_time(time as nat), ..old(self)@ }),
    {
        proof {
            use_type_invariant(&*self);
        }
        self.time = if time <= TIME_FULL { time } else { TIME_FULL };
    }

    /// Skips to the end of the reveal.
    pub fn finish(&mut self)
        ensures
            final(self)@ == old(self)@.finish(),
    {
        proof {
            use_type_invariant(&*self);
        }
        self.time = TIME_FULL;
    }

    /// Goes back to the start of the reveal.
    pub fn reset(&mut self)
        ensures
            final(self)@ == old(self)@.reset(),
    {
        proof {
            use_type_invariant(&*self);
        }
        self.time = 0;
    }

    /// The reveal time, from 0 to [`TIME_FULL`].
    pub fn current_time(&self) -> (time: u64)
        ensures
            time == self@.time,
            time <= TIME_FULL,
    {
        proof {
            use_type_invariant(self);
        }
        self.time
    }

    /// The typewriter at speed `speed`, or at the highest speed if `speed` lies above it.
    pub fn with_speed(self, speed: u32) -> (typewriter: Self)
        ensures
            typewriter@ == (TypeWriterView { speed: clamp_speed(speed as nat), ..self@ }),
    {
        let mut typewriter = self;
        typewriter.set_speed(speed);
        typewriter
    }

    /// Sets the speed to `speed`, or to the highest speed if `speed` lies above it.
    pub fn set_speed(&mut self, speed: u32)
        ensures
            final(self)@ == (TypeWriterView { speed: clamp_speed(speed as nat), ..old(self)@ }),
    {
        proof {
            use_type_invariant(&*self);
        }
        self.speed = if speed <= SPEED_FULL { speed } else { SPEED_FULL };
    }

    /// The speed in millionths of a sentence per second.
    pub fn speed(&self) -> (speed: u32)
        ensures
            speed == self@.speed,
            speed <= SPEED_FULL,
    {
        proof {
            use_type_invariant(self);
        }
        self.speed
    }
}

} // verus!
