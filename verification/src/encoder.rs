//! Quadrature encoder: a software accumulator above a hardware pulse counter
//! that overflows at symmetric limits, read as an angular position in degrees.

use vstd::arithmetic::div_mod::{lemma_fundamental_div_mod, lemma_mod_pos_bound};
use vstd::prelude::*;

verus! {

/// Count at which the hardware counter raises its high-limit event.
pub const POS_LIMIT: i16 = 100;

/// Count at which the hardware counter raises its low-limit event.
pub const NEG_LIMIT: i16 = -100;

/// An overflow event of the hardware counter.
#[derive(Clone, Copy, Debug, PartialEq, Eq, Structural)]
pub enum PcntEvent {
    HighLimit,
    LowLimit,
}

/// The ticks that one overflow event stands for.
pub open spec fn step(event: PcntEvent) -> int {
    match event {
        PcntEvent::HighLimit => POS_LIMIT as int,
        PcntEvent::LowLimit => NEG_LIMIT as int,
    }
}

/// `x`, negated where the encoder is mounted inverted.
pub open spec fn oriented(x: int, invert: bool) -> int {
    if invert {
        -x
    } else {
        x
    }
}

/// `n / d` rounded towards zero, for a positive `d`.
pub open spec fn quotient(n: int, d: int) -> int {
    if n >= 0 {
        n / d
    } else {
        -((-n) / d)
    }
}

/// `x`, held to the range of a position.
pub open spec fn clamp64(x: int) -> i64 {
    if x < i64::MIN {
        i64::MIN
    } else if x > i64::MAX {
        i64::MAX
    } else {
        x as i64
    }
}

/// The sum of the ticks of a run of overflow events.
pub open spec fn ticks_of(events: Seq<PcntEvent>) -> int
    decreases events.len(),
{
    if events.len() == 0 {
        0
    } else {
        ticks_of(events.drop_last()) + step(events.last())
    }
}

/// What an encoder is, as plain values.
pub struct EncoderState {
    /// Ticks gathered from overflow events, or stored by `set_position`.
    pub accumulated: i64,
    pub ticks_per_revolution: u32,
    pub invert: bool,
}

impl EncoderState {
    /// Signed ticks at hardware count `counter`.
    pub open spec fn raw(self, counter: i16) -> int {
        oriented(self.accumulated + counter, self.invert)
    }

    /// Degrees at hardware count `counter`: raw ticks over ticks per degree,
    /// which is ticks per revolution over 360.
    pub open spec fn degrees(self, counter: i16) -> int {
        quotient(self.raw(counter) * 360, self.ticks_per_revolution as int)
    }

    /// The state after one overflow event.
    pub open spec fn limit(self, event: PcntEvent) -> EncoderState {
        EncoderState { accumulated: self.accumulated.wrapping_add(step(event) as i64), ..self }
    }

    /// The state after a run of overflow events.
    pub open spec fn replay(self, events: Seq<PcntEvent>) -> EncoderState
        decreases events.len(),
    {
        if events.len() == 0 {
            self
        } else {
            self.replay(events.drop_last()).limit(events.last())
        }
    }

    /// The state after the position was set to `position` degrees.
    pub open spec fn placed(self, position: i64) -> EncoderState {
        EncoderState {
            accumulated: clamp64(
                quotient(
                    oriented(position as int, self.invert) * self.ticks_per_revolution,
                    360,
                ),
            ),
            ..self
        }
    }
}

/// The encoder.
#[derive(Clone, Copy, Debug)]
pub struct Encoder {
    accumulated: i64,
    ticks_per_revolution: u32,
    invert: bool,
}

impl View for Encoder {
    type V = EncoderState;

    closed spec fn view(&self) -> EncoderState {
        EncoderState {
            accumulated: self.accumulated,
            ticks_per_revolution: self.ticks_per_revolution,
            invert: self.invert,
        }
    }
}

/// `value * times / over`, rounded towards zero and held to the range of a
/// position.
fn scaled(value: i128, times: u32, over: u32) -> (result: i64)
    requires
        -0x1_0000_0000_0000_0000 <= value <= 0x1_0000_0000_0000_0000,
        over > 0,
    ensures
        result == clamp64(quotient(value * times, over as int)),
{
    assert(-0x1_0000_0000_0000_0000_0000_0000 <= value * times
        <= 0x1_0000_0000_0000_0000_0000_0000) by (nonlinear_arith)
        requires
            -0x1_0000_0000_0000_0000 <= value <= 0x1_0000_0000_0000_0000,
            0 <= times <= 0xffff_ffff,
    ;
    let product: i128 = value * (times as i128);
    let negative = product < 0;
    let size: u128 = if negative {
        (-product) as u128
    } else {
        product as u128
    };
    let parts: u128 = size / (over as u128);
    assert(parts <= size) by (nonlinear_arith)
        requires
            parts == size / (over as u128),
            over > 0,
    ;
    if negative {
        if parts > 0x8000_0000_0000_0000 {
            i64::MIN
        } else {
            (-(parts as i128)) as i64
        }
    } else {
        if parts > 0x7fff_ffff_ffff_ffff {
            i64::MAX
        } else {
            parts as i64
        }
    }
}

impl Encoder {
    /// An encoder can turn ticks into degrees: a revolution has ticks.
    #[verifier::type_invariant]
    spec fn has_ticks(self) -> bool {
        self.ticks_per_revolution > 0
    }

    /// An encoder at position zero with `ticks_per_revolution` ticks to the
    /// full turn, read negated where `invert` is set. There is no encoder
    /// without ticks.
    pub fn new(ticks_per_revolution: u32, invert: bool) -> (encoder: Option<Encoder>)
        ensures
            encoder is Some <==> ticks_per_revolution > 0,
            encoder matches Some(made) ==> made@ == (EncoderState {
                accumulated: 0,
                ticks_per_revolution,
                invert,
            }),
    {
        if ticks_per_revolution == 0 {
            None
        } else {
            Some(Encoder { accumulated: 0, ticks_per_revolution, invert })
        }
    }

    /// The encoder with `accumulated` in place of its gathered ticks.
    pub fn resume(&self, accumulated: i64) -> (encoder: Encoder)
        ensures
            encoder@ == (EncoderState { accumulated, ..self@ }),
    {
        proof {
            use_type_invariant(self);
        }
        Encoder { accumulated, ..*self }
    }

    /// The ticks of a full turn, of which there is at least one.
    pub fn ticks_per_revolution(&self) -> (ticks: u32)
        ensures
            ticks == self@.ticks_per_revolution,
            ticks > 0,
    {
        proof {
            use_type_invariant(self);
        }
        self.ticks_per_revolution
    }

    /// Whether positions are read negated.
    pub fn is_inverted(&self) -> (invert: bool)
        ensures
            invert == self@.invert,
    {
        self.invert
    }

    /// The ticks gathered so far.
    pub fn accumulated(&self) -> (ticks: i64)
        ensures
            ticks == self@.accumulated,
    {
        self.accumulated
    }

    /// The ticks that an overflow event adds.
    pub fn ticks(event: PcntEvent) -> (ticks: i64)
        ensures
            ticks == step(event),
    {
        match event {
            PcntEvent::HighLimit => POS_LIMIT as i64,
            PcntEvent::LowLimit => NEG_LIMIT as i64,
        }
    }

    /// Takes one overflow event of the hardware counter: adds its ticks,
    /// wrapping as the counter word does.
    pub fn on_limit(&mut self, event: PcntEvent)
        ensures
            final(self)@ == old(self)@.limit(event),
    {
        proof {
            use_type_invariant(&*self);
        }
        self.accumulated = self.accumulated.wrapping_add(Self::ticks(event));
    }

    /// Signed ticks at hardware count `counter`, held to the range of a
    /// position.
    pub fn get_raw_position(&self, counter: i16) -> (raw: i64)
        ensures
            raw == clamp64(self@.raw(counter)),
    {
        let sum: i128 = self.accumulated as i128 + counter as i128;
        let signed: i128 = if self.invert {
            -sum
        } else {
            sum
        };
        if signed > i64::MAX as i128 {
            i64::MAX
        } else if signed < i64::MIN as i128 {
            i64::MIN
        } else {
            signed as i64
        }
    }

    /// Degrees at hardware count `counter`, rounded towards zero and held to
    /// the range of a position.
    pub fn get_position(&self, counter: i16) -> (position: i64)
        ensures
            position == clamp64(self@.degrees(counter)),
    {
        proof {
            use_type_invariant(self);
        }
        let sum: i128 = self.accumulated as i128 + counter as i128;
        let signed: i128 = if self.invert {
            -sum
        } else {
            sum
        };
        scaled(signed, 360, self.ticks_per_revolution)
    }

    /// Sets the position to `position` degrees: stores the ticks that stand
    /// for it. The hardware counter is to be cleared before the call.
    pub fn set_position(&mut self, position: i64)
        ensures
            final(self)@ == old(self)@.placed(position),
    {
        proof {
            use_type_invariant(&*self);
        }
        let signed: i128 = if self.invert {
            -(position as i128)
        } else {
            position as i128
        };
        self.accumulated = scaled(signed, self.ticks_per_revolution, 360);
    }
}

/// Wrapping is all that separates the gathered ticks from the plain sum of
/// the events: they differ by a whole number of turns of the 64-bit word.
proof fn lemma_replay_turns(state: EncoderState, events: Seq<PcntEvent>) -> (turns: int)
    ensures
        state.replay(events).accumulated == state.accumulated + ticks_of(events) + turns
            * 0x1_0000_0000_0000_0000,
        state.replay(events).ticks_per_revolution == state.ticks_per_revolution,
        state.replay(events).invert == state.invert,
    decreases events.len(),
{
    if events.len() == 0 {
        0
    } else {
        let before = lemma_replay_turns(state, events.drop_last());
        let sum = state.replay(events.drop_last()).accumulated + step(events.last());
        if sum > i64::MAX {
            before - 1
        } else if sum < i64::MIN {
            before + 1
        } else {
            before
        }
    }
}

/// After any run of overflow events, and at any hardware count, the position
/// is the gathered ticks plus the count, over the ticks per degree, negated
/// exactly where the encoder is inverted. The gathered ticks are the sum of
/// the events as long as that sum is one the accumulator can hold.
pub proof fn law_position_follows_events(
    state: EncoderState,
    events: Seq<PcntEvent>,
    counter: i16,
)
    requires
        state.ticks_per_revolution > 0,
        i64::MIN <= state.accumulated + ticks_of(events) <= i64::MAX,
    ensures
        state.replay(events).accumulated == state.accumulated + ticks_of(events),
        state.replay(events).degrees(counter) == quotient(
            oriented(state.accumulated + ticks_of(events) + counter, state.invert) * 360,
            state.ticks_per_revolution as int,
        ),
{
    let turns = lemma_replay_turns(state, events);
    let sum = state.accumulated + ticks_of(events);
    let got = state.replay(events).accumulated;
    assert(turns == 0) by (nonlinear_arith)
        requires
            got == sum + turns * 0x1_0000_0000_0000_0000,
            i64::MIN <= sum <= i64::MAX,
            i64::MIN <= got <= i64::MAX,
    ;
}

/// Inverting the encoder negates every position and changes nothing else.
pub proof fn law_invert_negates(state: EncoderState, counter: i16)
    requires
        state.ticks_per_revolution > 0,
    ensures
        (EncoderState { invert: !state.invert, ..state }).degrees(counter) == -state.degrees(
            counter,
        ),
        (EncoderState { invert: !state.invert, ..state }).raw(counter) == -state.raw(counter),
{
    let ticks = state.accumulated + counter;
    assert((-ticks) * 360 == -(ticks * 360)) by (nonlinear_arith);
    if ticks == 0 {
        assert(0int / (state.ticks_per_revolution as int) == 0) by (nonlinear_arith)
            requires
                state.ticks_per_revolution > 0,
        ;
    }
}

/// Scaling down and up again, both rounded down, loses less than one step
/// of the finer scale plus one.
proof fn lemma_there_and_back(x: int, t: int)
    requires
        x >= 0,
        t > 0,
    ensures
        0 <= (x * t) / 360,
        0 <= (((x * t) / 360) * 360) / t <= x,
        (x - (((x * t) / 360) * 360) / t - 1) * t < 360,
{
    let a = (x * t) / 360;
    assert(x * t >= 0) by (nonlinear_arith)
        requires
            x >= 0,
            t > 0,
    ;
    lemma_fundamental_div_mod(x * t, 360);
    lemma_mod_pos_bound(x * t, 360);
    assert(a >= 0);
    let g = (a * 360) / t;
    lemma_fundamental_div_mod(a * 360, t);
    lemma_mod_pos_bound(a * 360, t);
    assert(t * g <= a * 360);
    assert(g >= 0) by (nonlinear_arith)
        requires
            a * 360 == t * g + (a * 360) % t,
            0 <= (a * 360) % t < t,
            a >= 0,
            t > 0,
    ;
    assert(g <= x && (x - g - 1) * t < 360) by (nonlinear_arith)
        requires
            x * t == 360 * a + (x * t) % 360,
            0 <= (x * t) % 360 < 360,
            a * 360 == t * g + (a * 360) % t,
            0 <= (a * 360) % t < t,
            t > 0,
    ;
}

/// Setting a position and reading it back, with no hardware ticks in
/// between, gives a position that is no farther from zero than the one set
/// and on the same side, and that falls short by less than the degrees of
/// one tick plus one. Where a revolution has at least 360 ticks that is at
/// most one degree.
///
/// The position must be one whose ticks the accumulator can hold.
pub proof fn law_set_then_get(state: EncoderState, position: i64)
    requires
        state.ticks_per_revolution > 0,
        i64::MIN <= quotient(
            oriented(position as int, state.invert) * state.ticks_per_revolution,
            360,
        ) <= i64::MAX,
    ensures
        ({
            let got = state.placed(position).degrees(0);
            let short = position - got;
            &&& position >= 0 ==> 0 <= got <= position
            &&& position <= 0 ==> position <= got <= 0
            &&& (short - 1) * state.ticks_per_revolution < 360
            &&& (-short - 1) * state.ticks_per_revolution < 360
            &&& state.ticks_per_revolution >= 360 ==> -1 <= short <= 1
        }),
{
    let t = state.ticks_per_revolution as int;
    let p = position as int;
    let x = if p >= 0 {
        p
    } else {
        -p
    };
    lemma_there_and_back(x, t);
    let a = (x * t) / 360;
    let g = (a * 360) / t;
    let signed = oriented(p, state.invert);
    // The stored ticks are `a`, with the sign of the oriented position.
    assert(signed * t == x * t || signed * t == -(x * t)) by (nonlinear_arith)
        requires
            signed == x || signed == -x,
    ;
    assert(x * t >= 0) by (nonlinear_arith)
        requires
            x >= 0,
            t > 0,
    ;
    let stored = state.placed(position).accumulated as int;
    assert(stored == a || stored == -a);
    assert(signed >= 0 ==> stored == a) by {
        if signed >= 0 {
            assert(signed == x);
            assert(signed * t == x * t) by (nonlinear_arith)
                requires
                    signed == x,
            ;
        }
    }
    assert(signed <= 0 ==> stored == -a) by {
        if signed <= 0 {
            assert(signed == -x);
            assert(signed * t == -(x * t)) by (nonlinear_arith)
                requires
                    signed == -x,
            ;
            if x * t == 0 {
                assert(a == 0);
            }
        }
    }
    let back = oriented(stored + 0, state.invert);
    assert(p >= 0 ==> back == a);
    assert(p <= 0 ==> back == -a);
    assert(back * 360 == a * 360 || back * 360 == -(a * 360)) by (nonlinear_arith)
        requires
            back == a || back == -a,
    ;
    let got = state.placed(position).degrees(0);
    assert(got == quotient(back * 360, t));
    if a == 0 {
        assert(0int / t == 0) by (nonlinear_arith)
            requires
                t > 0,
        ;
        assert(got == 0);
        assert(g == 0);
    } else if p >= 0 {
        assert(got == g);
    } else {
        assert(got == -g);
    }
    let short = position - got;
    assert(short == x - g || short == -(x - g));
    assert((short - 1) * t < 360 && (-short - 1) * t < 360) by (nonlinear_arith)
        requires
            short == x - g || short == -(x - g),
            (x - g - 1) * t < 360,
            0 <= g <= x,
            t > 0,
    ;
    if t >= 360 {
        assert(-1 <= short <= 1) by (nonlinear_arith)
            requires
                (short - 1) * t < 360,
                (-short - 1) * t < 360,
                t >= 360,
        ;
    }
}

} // verus!
