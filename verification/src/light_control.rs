//! Day/night switching of the camera's IR-cut filter from ambient-light and
//! temperature readings, and decoding of the two sensors' registers.
use vstd::prelude::*;

verus! {

/// Ambient-light readings below this (plus the offset the IR light adds at
/// night) count as dark.
pub const LIGHT_THRESHOLD: u32 = 40;

/// How many consecutive dark (or bright) readings switch the mode.
pub const REQUIRED_CONSECUTIVE: u8 = 3;

/// The temperature limit, 90 °C, in the sensor's raw unit of 1/16 °C. A raw
/// reading `t` is `t / 16` °C exactly, so `t < 1440` is `t / 16 < 90.0` and
/// `t > 1440` is `t / 16 > 90.0`.
pub const TEMP_THRESHOLD_RAW: i16 = 1440;

/// The largest 20-bit ambient-light reading.
pub const ALS_MAX: u32 = 0xFFFFF;

/// The camera's light mode.
#[derive(Debug, PartialEq, Eq, Structural, Clone, Copy)]
pub enum Mode {
    /// IR off, IR-cut filter in front of the sensor.
    Day,
    /// IR on, IR-cut filter removed.
    Night,
}

/// What the controller asks the hardware to do after a reading.
#[derive(Debug, PartialEq, Eq, Structural, Clone, Copy)]
pub enum ModeSwitch {
    /// Keep the current mode.
    Stay,
    /// Switch to night mode, then measure the light the IR adds and pass it to
    /// [`LightController::set_night_offset`].
    ToNight,
    /// Switch to day mode, saying which condition held: enough bright
    /// readings in a row, a temperature above the limit, or both.
    ToDay { bright_enough: bool, too_hot: bool },
}

/// The hysteresis state of the day/night switch.
#[derive(Debug, PartialEq, Eq, Structural, Clone, Copy)]
pub struct LightController {
    pub mode: Mode,
    /// Consecutive dark readings.
    pub below_cnt: u8,
    /// Consecutive bright readings.
    pub above_cnt: u8,
    /// The light the IR adds to readings in night mode.
    pub light_threshold_offset: u32,
}

/// `x + 1`, saturating at 255.
pub open spec fn sat_inc(x: u8) -> u8 {
    if x == 255 {
        255
    } else {
        (x + 1) as u8
    }
}

/// Whether a reading counts as dark in state `s`.
pub open spec fn is_dark(s: LightController, als: u32) -> bool {
    als < LIGHT_THRESHOLD + s.light_threshold_offset
}

/// The state after counting one reading, before any mode decision.
pub open spec fn counted(s: LightController, als: u32) -> LightController {
    if is_dark(s, als) {
        LightController { below_cnt: sat_inc(s.below_cnt), above_cnt: 0, ..s }
    } else {
        LightController { above_cnt: sat_inc(s.above_cnt), below_cnt: 0, ..s }
    }
}

/// One reading of light `als` and raw temperature `temp_raw`: the next state
/// and the requested switch. Day turns to night after enough dark readings
/// while the temperature is below the limit; night turns to day after enough
/// bright readings or as soon as the temperature is above the limit.
pub open spec fn step_spec(s: LightController, als: u32, temp_raw: i16) -> (LightController, ModeSwitch) {
    let c = counted(s, als);
    match s.mode {
        Mode::Day => if c.below_cnt >= REQUIRED_CONSECUTIVE && temp_raw < TEMP_THRESHOLD_RAW {
            (LightController { mode: Mode::Night, below_cnt: 0, ..c }, ModeSwitch::ToNight)
        } else {
            (c, ModeSwitch::Stay)
        },
        Mode::Night => if c.above_cnt >= REQUIRED_CONSECUTIVE || temp_raw > TEMP_THRESHOLD_RAW {
            (
                LightController {
                    mode: Mode::Day,
                    above_cnt: 0,
                    light_threshold_offset: 0,
                    ..c
                },
                ModeSwitch::ToDay {
                    bright_enough: c.above_cnt >= REQUIRED_CONSECUTIVE,
                    too_hot: temp_raw > TEMP_THRESHOLD_RAW,
                },
            )
        } else {
            (c, ModeSwitch::Stay)
        },
    }
}

/// The state the camera starts in: day mode, no readings counted, no offset.
pub open spec fn initial_state() -> LightController {
    LightController { mode: Mode::Day, below_cnt: 0, above_cnt: 0, light_threshold_offset: 0 }
}

impl LightController {
    /// The controller at start-up, in day mode.
    pub fn new() -> (s: LightController)
        ensures
            s == initial_state(),
    {
        LightController { mode: Mode::Day, below_cnt: 0, above_cnt: 0, light_threshold_offset: 0 }
    }

    /// Counts one reading and decides whether to switch the mode.
    pub fn step(&mut self, als: u32, temp_raw: i16) -> (r: ModeSwitch)
        ensures
            (*final(self), r) == step_spec(*old(self), als, temp_raw),
    {
        let dark = (als as u64) < (LIGHT_THRESHOLD as u64) + (self.light_threshold_offset as u64);
        if dark {
            self.below_cnt = if self.below_cnt == 255 {
                255
            } else {
                self.below_cnt + 1
            };
            self.above_cnt = 0;
        } else {
            self.above_cnt = if self.above_cnt == 255 {
                255
            } else {
                self.above_cnt + 1
            };
            self.below_cnt = 0;
        }
        match self.mode {
            Mode::Day => {
                if self.below_cnt >= REQUIRED_CONSECUTIVE && temp_raw < TEMP_THRESHOLD_RAW {
                    self.mode = Mode::Night;
                    self.below_cnt = 0;
                    ModeSwitch::ToNight
                } else {
                    ModeSwitch::Stay
                }
            },
            Mode::Night => {
                let bright_enough = self.above_cnt >= REQUIRED_CONSECUTIVE;
                let too_hot = temp_raw > TEMP_THRESHOLD_RAW;
                if bright_enough || too_hot {
                    self.mode = Mode::Day;
                    self.above_cnt = 0;
                    self.light_threshold_offset = 0;
                    ModeSwitch::ToDay { bright_enough, too_hot }
                } else {
                    ModeSwitch::Stay
                }
            },
        }
    }

    /// Records the light the IR adds, measured right after switching to night.
    pub fn set_night_offset(&mut self, offset: u32)
        ensures
            *final(self) == (LightController { light_threshold_offset: offset, ..*old(self) }),
    {
        self.light_threshold_offset = offset;
    }
}

/// The state and switches after feeding the readings `als[i]`, `temp[i]` in order.
pub open spec fn run_spec(s: LightController, als: Seq<u32>, temp: Seq<i16>) -> (LightController, Seq<ModeSwitch>)
    decreases als.len(),
{
    if als.len() == 0 || temp.len() == 0 {
        (s, seq![])
    } else {
        let (s1, m) = step_spec(s, als[0], temp[0]);
        let (s2, ms) = run_spec(s1, als.drop_first(), temp.drop_first());
        (s2, seq![m] + ms)
    }
}

/// Day mode never switches to night while the temperature is at or above the
/// limit, and only after [`REQUIRED_CONSECUTIVE`] dark readings in a row.
pub proof fn law_night_needs_cool_and_dark(s: LightController, als: u32, temp_raw: i16)
    requires
        s.mode == Mode::Day,
        step_spec(s, als, temp_raw).1 == ModeSwitch::ToNight,
    ensures
        temp_raw < TEMP_THRESHOLD_RAW,
        is_dark(s, als),
        s.below_cnt + 1 >= REQUIRED_CONSECUTIVE,
{
}

/// In night mode a reading above the temperature limit always switches back
/// to day and clears the IR offset.
pub proof fn law_overheat_forces_day(s: LightController, als: u32, temp_raw: i16)
    requires
        s.mode == Mode::Night,
        temp_raw > TEMP_THRESHOLD_RAW,
    ensures
        step_spec(s, als, temp_raw).1 is ToDay,
        step_spec(s, als, temp_raw).0.mode == Mode::Day,
        step_spec(s, als, temp_raw).0.light_threshold_offset == 0,
{
}

/// The mode changes exactly when a switch is requested, and the switch names the new mode.
pub proof fn law_switch_matches_mode(s: LightController, als: u32, temp_raw: i16)
    ensures
        ({
            let (t, m) = step_spec(s, als, temp_raw);
            &&& (m == ModeSwitch::Stay <==> t.mode == s.mode)
            &&& (m == ModeSwitch::ToNight ==> s.mode == Mode::Day && t.mode == Mode::Night)
            &&& (m is ToDay ==> s.mode == Mode::Night && t.mode == Mode::Day)
        }),
{
}

/// A dark reading clears the count of bright readings and a bright reading
/// clears the count of dark ones, so a switch to day for brightness comes
/// only on a bright reading after enough bright readings in a row, and a
/// switch to night only on a dark reading after enough dark ones.
pub proof fn law_readings_reset_the_opposite_count(s: LightController, als: u32, temp_raw: i16)
    ensures
        als < LIGHT_THRESHOLD + s.light_threshold_offset ==> step_spec(s, als, temp_raw).0.above_cnt
            == 0,
        als >= LIGHT_THRESHOLD + s.light_threshold_offset ==> step_spec(s, als, temp_raw).0.below_cnt
            == 0,
        step_spec(s, als, temp_raw).1 matches ModeSwitch::ToDay { bright_enough, .. } && bright_enough
            ==> als >= LIGHT_THRESHOLD + s.light_threshold_offset && s.above_cnt + 1
            >= REQUIRED_CONSECUTIVE,
        step_spec(s, als, temp_raw).1 is ToNight ==> als < LIGHT_THRESHOLD
            + s.light_threshold_offset && s.below_cnt + 1 >= REQUIRED_CONSECUTIVE,
{
}

/// From start-up, three dark readings below the temperature limit switch to
/// night on the third reading and not before.
pub proof fn law_three_dark_readings_switch_to_night(als: Seq<u32>, temp: Seq<i16>)
    requires
        als.len() == 3,
        temp.len() == 3,
        forall|i: int| 0 <= i < 3 ==> als[i] < LIGHT_THRESHOLD,
        forall|i: int| 0 <= i < 3 ==> temp[i] < TEMP_THRESHOLD_RAW,
    ensures
        run_spec(initial_state(), als, temp).1 == seq![
            ModeSwitch::Stay,
            ModeSwitch::Stay,
            ModeSwitch::ToNight,
        ],
        run_spec(initial_state(), als, temp).0.mode == Mode::Night,
{
    let s0 = initial_state();
    let (s1, m1) = step_spec(s0, als[0], temp[0]);
    let (s2, m2) = step_spec(s1, als[1], temp[1]);
    let (s3, m3) = step_spec(s2, als[2], temp[2]);
    let a1 = als.drop_first();
    let t1 = temp.drop_first();
    let a2 = a1.drop_first();
    let t2 = t1.drop_first();
    let a3 = a2.drop_first();
    let t3 = t2.drop_first();
    assert(a1[0] == als[1] && t1[0] == temp[1]);
    assert(a2[0] == als[2] && t2[0] == temp[2]);
    assert(a3.len() == 0);
    assert(run_spec(s3, a3, t3) == (s3, Seq::<ModeSwitch>::empty()));
    assert(run_spec(s2, a2, t2) == (s3, seq![m3]));
    assert(run_spec(s1, a1, t1) == (s3, seq![m2] + seq![m3]));
    assert(seq![m1] + (seq![m2] + seq![m3]) =~= seq![m1, m2, m3]);
}

/// Decodes the 20-bit ambient-light reading from the three data registers
/// (least significant byte first; only the low four bits of the third count).
pub fn als_raw20(b0: u8, b1: u8, b2: u8) -> (r: u32)
    ensures
        r == b0 + 256 * b1 + 65536 * (b2 % 16),
        r <= ALS_MAX,
{
    let r = (b0 as u32) | ((b1 as u32) << 8) | (((b2 as u32) & 0x0F) << 16);
    assert(r == b0 + 256 * b1 + 65536 * (b2 % 16) && r <= 0xFFFFF) by (bit_vector)
        requires
            r == (b0 as u32) | ((b1 as u32) << 8) | (((b2 as u32) & 0x0F) << 16),
    ;
    r
}

/// Whether the light sensor's status register reports unread data (bit 3).
pub fn als_new_data(status: u8) -> (b: bool)
    ensures
        b == ((status / 8) % 2 == 1),
{
    let b = (status & 8) != 0;
    assert(((status & 8) != 0) == ((status / 8) % 2 == 1)) by (bit_vector);
    b
}

/// The signed 16-bit value of two big-endian bytes.
pub open spec fn be_i16(msb: u8, lsb: u8) -> int {
    let u = msb * 256 + lsb;
    if u >= 32768 {
        u - 65536
    } else {
        u
    }
}

/// Decodes the 12-bit temperature reading (in 1/16 °C) from the two bytes of
/// the temperature register, most significant first: the signed 16-bit
/// value shifted right by four, rounding down.
pub fn temp_raw12(msb: u8, lsb: u8) -> (r: i16)
    ensures
        r as int == be_i16(msb, lsb) / 16,
        -2048 <= r < 2048,
{
    let u: i32 = (msb as i32) * 256 + (lsb as i32);
    let v: i32 = if u >= 32768 {
        u - 65536
    } else {
        u
    };
    let q: i32 = if v >= 0 {
        v / 16
    } else {
        -((-v + 15) / 16)
    };
    assert(q == v / 16) by (nonlinear_arith)
        requires
            v >= 0 ==> q == v / 16,
            v < 0 ==> q == -((-v + 15) / 16),
            -32768 <= v < 32768,
    ;
    q as i16
}

/// The length of the coil pulse that moves the IR-cut filter, in milliseconds.
pub const PULSE_MS: u64 = 120;

/// The time the bridge driver gets to wake up, in milliseconds.
pub const BRIDGE_WAKE_MS: u64 = 1000;

/// The output pins of the IR-cut driver.
#[derive(Debug, PartialEq, Eq, Structural, Clone, Copy)]
pub enum Pin {
    /// Coil input 1 of the H-bridge.
    In1,
    /// Coil input 2 of the H-bridge.
    In2,
    /// Bridge enable (high = enabled).
    Sleep,
    /// IR illuminator (high = on).
    Ir,
}

/// One step of driving the IR-cut filter.
#[derive(Debug, PartialEq, Eq, Structural, Clone, Copy)]
pub enum CoilStep {
    /// Drive `pin` high or low.
    Drive { pin: Pin, high: bool },
    /// Wait this many milliseconds.
    WaitMs { ms: u64 },
}

/// The level a step sequence leaves on `pin`, starting from `start`.
pub open spec fn level_after(steps: Seq<CoilStep>, pin: Pin, start: bool) -> bool
    decreases steps.len(),
{
    if steps.len() == 0 {
        start
    } else {
        match steps.last() {
            CoilStep::Drive { pin: p, high } => if p == pin {
                high
            } else {
                level_after(steps.drop_last(), pin, start)
            },
            CoilStep::WaitMs { .. } => level_after(steps.drop_last(), pin, start),
        }
    }
}

/// The steps that switch to night: IR on first, wake the bridge, pulse the
/// coil with IN1 low and IN2 high, then release the coil and the bridge.
pub open spec fn night_steps() -> Seq<CoilStep> {
    seq![
        CoilStep::Drive { pin: Pin::Ir, high: true },
        CoilStep::Drive { pin: Pin::In1, high: false },
        CoilStep::Drive { pin: Pin::In2, high: false },
        CoilStep::Drive { pin: Pin::Sleep, high: true },
        CoilStep::WaitMs { ms: BRIDGE_WAKE_MS },
        CoilStep::Drive { pin: Pin::In1, high: false },
        CoilStep::Drive { pin: Pin::In2, high: true },
        CoilStep::WaitMs { ms: PULSE_MS },
        CoilStep::Drive { pin: Pin::In1, high: false },
        CoilStep::Drive { pin: Pin::In2, high: false },
        CoilStep::Drive { pin: Pin::Sleep, high: false },
    ]
}

/// The steps that switch to day: wake the bridge, pulse the coil with IN1
/// high and IN2 low, release the coil and the bridge, and turn IR off last.
pub open spec fn day_steps() -> Seq<CoilStep> {
    seq![
        CoilStep::Drive { pin: Pin::In1, high: false },
        CoilStep::Drive { pin: Pin::In2, high: false },
        CoilStep::Drive { pin: Pin::Sleep, high: true },
        CoilStep::WaitMs { ms: BRIDGE_WAKE_MS },
        CoilStep::Drive { pin: Pin::In1, high: true },
        CoilStep::Drive { pin: Pin::In2, high: false },
        CoilStep::WaitMs { ms: PULSE_MS },
        CoilStep::Drive { pin: Pin::In1, high: false },
        CoilStep::Drive { pin: Pin::In2, high: false },
        CoilStep::Drive { pin: Pin::Sleep, high: false },
        CoilStep::Drive { pin: Pin::Ir, high: false },
    ]
}

/// The steps that move the filter into night mode.
pub fn night_sequence() -> (r: Vec<CoilStep>)
    ensures
        r@ == night_steps(),
{
    let r = vec![
        CoilStep::Drive { pin: Pin::Ir, high: true },
        CoilStep::Drive { pin: Pin::In1, high: false },
        CoilStep::Drive { pin: Pin::In2, high: false },
        CoilStep::Drive { pin: Pin::Sleep, high: true },
        CoilStep::WaitMs { ms: BRIDGE_WAKE_MS },
        CoilStep::Drive { pin: Pin::In1, high: false },
        CoilStep::Drive { pin: Pin::In2, high: true },
        CoilStep::WaitMs { ms: PULSE_MS },
        CoilStep::Drive { pin: Pin::In1, high: false },
        CoilStep::Drive { pin: Pin::In2, high: false },
        CoilStep::Drive { pin: Pin::Sleep, high: false },
    ];
    assert(r@ =~= night_steps());
    r
}

/// The steps that move the filter into day mode.
pub fn day_sequence() -> (r: Vec<CoilStep>)
    ensures
        r@ == day_steps(),
{
    let r = vec![
        CoilStep::Drive { pin: Pin::In1, high: false },
        CoilStep::Drive { pin: Pin::In2, high: false },
        CoilStep::Drive { pin: Pin::Sleep, high: true },
        CoilStep::WaitMs { ms: BRIDGE_WAKE_MS },
        CoilStep::Drive { pin: Pin::In1, high: true },
        CoilStep::Drive { pin: Pin::In2, high: false },
        CoilStep::WaitMs { ms: PULSE_MS },
        CoilStep::Drive { pin: Pin::In1, high: false },
        CoilStep::Drive { pin: Pin::In2, high: false },
        CoilStep::Drive { pin: Pin::Sleep, high: false },
        CoilStep::Drive { pin: Pin::Ir, high: false },
    ];
    assert(r@ =~= day_steps());
    r
}

/// After either switch the coil is released and the bridge disabled,
/// whatever levels the pins had before; night leaves IR on, day leaves it off.
pub proof fn law_switch_leaves_coil_released(start_in1: bool, start_in2: bool, start_sleep: bool, start_ir: bool)
    ensures
        !level_after(night_steps(), Pin::In1, start_in1),
        !level_after(night_steps(), Pin::In2, start_in2),
        !level_after(night_steps(), Pin::Sleep, start_sleep),
        level_after(night_steps(), Pin::Ir, start_ir),
        !level_after(day_steps(), Pin::In1, start_in1),
        !level_after(day_steps(), Pin::In2, start_in2),
        !level_after(day_steps(), Pin::Sleep, start_sleep),
        !level_after(day_steps(), Pin::Ir, start_ir),
{
    reveal_with_fuel(level_after, 12);
}

/// The pulse that moves the filter: night drives IN2 against IN1, day the
/// reverse, each for [`PULSE_MS`] with the bridge enabled; night turns IR on
/// before the pulse and day turns it off after.
pub proof fn law_pulse_polarity()
    ensures
        level_after(night_steps().take(7), Pin::In2, false) && !level_after(
            night_steps().take(7),
            Pin::In1,
            false,
        ),
        level_after(day_steps().take(6), Pin::In1, false) && !level_after(
            day_steps().take(6),
            Pin::In2,
            false,
        ),
        level_after(night_steps().take(7), Pin::Sleep, false),
        level_after(day_steps().take(6), Pin::Sleep, false),
        night_steps()[7] == (CoilStep::WaitMs { ms: PULSE_MS }),
        day_steps()[6] == (CoilStep::WaitMs { ms: PULSE_MS }),
        level_after(night_steps().take(7), Pin::Ir, false),
        day_steps()[10] == (CoilStep::Drive { pin: Pin::Ir, high: false }),
{
    reveal_with_fuel(level_after, 8);
    assert(night_steps().take(7) =~= seq![
        CoilStep::Drive { pin: Pin::Ir, high: true },
        CoilStep::Drive { pin: Pin::In1, high: false },
        CoilStep::Drive { pin: Pin::In2, high: false },
        CoilStep::Drive { pin: Pin::Sleep, high: true },
        CoilStep::WaitMs { ms: BRIDGE_WAKE_MS },
        CoilStep::Drive { pin: Pin::In1, high: false },
        CoilStep::Drive { pin: Pin::In2, high: true },
    ]);
    assert(day_steps().take(6) =~= seq![
        CoilStep::Drive { pin: Pin::In1, high: false },
        CoilStep::Drive { pin: Pin::In2, high: false },
        CoilStep::Drive { pin: Pin::Sleep, high: true },
        CoilStep::WaitMs { ms: BRIDGE_WAKE_MS },
        CoilStep::Drive { pin: Pin::In1, high: true },
        CoilStep::Drive { pin: Pin::In2, high: false },
    ]);
}

/// The day sequence pulses the coil one way only: no step drives IN2 high or
/// turns IR on, exactly one step drives IN1 high, and turning IR off is the
/// last step. The night sequence is its mirror: IR on first, no step drives
/// IN1 high or turns IR off, and exactly one step drives IN2 high.
pub proof fn law_each_switch_pulses_one_way()
    ensures
        forall|i: int| 0 <= i < day_steps().len() ==> #[trigger] day_steps()[i] != (CoilStep::Drive {
            pin: Pin::In2,
            high: true,
        }) && day_steps()[i] != (CoilStep::Drive { pin: Pin::Ir, high: true }),
        forall|i: int, j: int|
            0 <= i < day_steps().len() && 0 <= j < day_steps().len() && #[trigger] day_steps()[i]
                == (CoilStep::Drive { pin: Pin::In1, high: true }) && #[trigger] day_steps()[j]
                == (CoilStep::Drive { pin: Pin::In1, high: true }) ==> i == j,
        day_steps().len() > 0,
        day_steps().last() == (CoilStep::Drive { pin: Pin::Ir, high: false }),
        forall|i: int| 0 <= i < night_steps().len() ==> #[trigger] night_steps()[i] != (
        CoilStep::Drive { pin: Pin::In1, high: true }) && night_steps()[i] != (CoilStep::Drive {
            pin: Pin::Ir,
            high: false,
        }),
        forall|i: int, j: int|
            0 <= i < night_steps().len() && 0 <= j < night_steps().len() && #[trigger] night_steps()[i]
                == (CoilStep::Drive { pin: Pin::In2, high: true }) && #[trigger] night_steps()[j]
                == (CoilStep::Drive { pin: Pin::In2, high: true }) ==> i == j,
        night_steps()[0] == (CoilStep::Drive { pin: Pin::Ir, high: true }),
{
    let d = day_steps();
    let n = night_steps();
    assert(d.len() == 11);
    assert(n.len() == 11);
    assert forall|i: int| 0 <= i < d.len() implies #[trigger] d[i] != (CoilStep::Drive {
        pin: Pin::In2,
        high: true,
    }) && d[i] != (CoilStep::Drive { pin: Pin::Ir, high: true }) && (d[i] == (CoilStep::Drive {
        pin: Pin::In1,
        high: true,
    }) ==> i == 4) by {
        assert(0 <= i < 11);
    }
    assert forall|i: int| 0 <= i < n.len() implies #[trigger] n[i] != (CoilStep::Drive {
        pin: Pin::In1,
        high: true,
    }) && n[i] != (CoilStep::Drive { pin: Pin::Ir, high: false }) && (n[i] == (CoilStep::Drive {
        pin: Pin::In2,
        high: true,
    }) ==> i == 6) by {
        assert(0 <= i < 11);
    }
}

} // verus!
