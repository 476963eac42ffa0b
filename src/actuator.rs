//! What the actuator does for each action, as a sequence of timed hardware settings.
//!
//! The actuator takes one action at a time off the command channel, turns it
//! into its whole pulse sequence, and performs that sequence to the end before
//! it takes the next action.
use crate::action::Action;
use crate::command_channel::CommandChannel;
use vstd::prelude::*;

verus! {

/// A duty cycle of the whole period, in millionths.
pub const FULL_DUTY: u64 = 1_000_000;

/// One hardware setting or pause.
#[derive(Debug, Clone, Copy, PartialEq, Eq, Structural)]
pub enum Pulse {
    /// Drive the stepper's direction line high (`true`) or low.
    Direction(bool),
    /// Drive the stepper's step line high (`true`) or low.
    Step(bool),
    /// Set the trigger's PWM duty cycle, in millionths of the period.
    Duty(u64),
    /// Hold everything as it is for this many milliseconds.
    Wait(u64),
}

/// How one azimuth move is stepped.
#[derive(Debug, Clone, Copy, PartialEq, Eq, Structural)]
pub struct MoveConfig {
    /// Number of step pulses.
    pub pulses: u32,
    /// Time the step line stays high, and then low, in milliseconds.
    pub dwell_ms: u64,
    /// Level the direction line is driven to before the first pulse; a move
    /// that drives it high lowers it again after the last pulse.
    pub direction_high: bool,
}

/// A servo sweep from `min_duty` up to `max_duty` in `steps` equal steps and back down.
#[derive(Debug, Clone, Copy, PartialEq, Eq, Structural)]
pub struct SweepConfig {
    /// Duty cycle at both ends of the sweep, in millionths of the period.
    pub min_duty: u64,
    /// Duty cycle at the turning point, in millionths of the period.
    pub max_duty: u64,
    /// Number of steps between the two ends.
    pub steps: u32,
    /// Time each setting is held, in milliseconds.
    pub step_ms: u64,
}

impl SweepConfig {
    /// Both ends are duty cycles, the sweep goes up, and it has at least one step.
    pub open spec fn wf(&self) -> bool {
        &&& self.min_duty <= self.max_duty
        &&& self.max_duty <= FULL_DUTY
        &&& self.steps > 0
    }
}

/// The `i`-th duty cycle of a sweep's way up.
pub open spec fn sweep_duty(c: SweepConfig, i: nat) -> nat {
    (c.min_duty + (i * (c.max_duty - c.min_duty)) / (c.steps as int)) as nat
}

/// Each duty cycle held for `ms` milliseconds, in order.
pub open spec fn settings(duties: Seq<nat>, ms: u64) -> Seq<Pulse>
    decreases duties.len(),
{
    if duties.len() == 0 {
        Seq::empty()
    } else {
        settings(duties.drop_last(), ms) + seq![Pulse::Duty(duties.last() as u64), Pulse::Wait(ms)]
    }
}

/// The duty cycles of a sweep's way up.
pub open spec fn rising_duties(c: SweepConfig) -> Seq<nat> {
    Seq::new((c.steps + 1) as nat, |i: int| sweep_duty(c, i as nat))
}

/// The duty cycles of a sweep's way down.
pub open spec fn falling_duties(c: SweepConfig) -> Seq<nat> {
    Seq::new((c.steps + 1) as nat, |i: int| sweep_duty(c, (c.steps - i) as nat))
}

/// A whole sweep: up, down, then the signal switched off.
pub open spec fn sweep_plan(c: SweepConfig) -> Seq<Pulse> {
    settings(rising_duties(c), c.step_ms) + settings(falling_duties(c), c.step_ms) + seq![
        Pulse::Duty(0),
    ]
}

/// `n` step pulses, each high for `dwell` and then low for `dwell` milliseconds.
pub open spec fn step_pulses(n: nat, dwell: u64) -> Seq<Pulse>
    decreases n,
{
    if n == 0 {
        Seq::empty()
    } else {
        step_pulses((n - 1) as nat, dwell) + seq![
            Pulse::Step(true),
            Pulse::Wait(dwell),
            Pulse::Step(false),
            Pulse::Wait(dwell),
        ]
    }
}

/// A whole azimuth move.
pub open spec fn move_plan(c: MoveConfig) -> Seq<Pulse> {
    if c.direction_high {
        seq![Pulse::Direction(true)] + step_pulses(c.pulses as nat, c.dwell_ms) + seq![
            Pulse::Direction(false),
        ]
    } else {
        seq![Pulse::Direction(false)] + step_pulses(c.pulses as nat, c.dwell_ms)
    }
}

/// The pulses for one azimuth move.
pub fn plan_move(c: MoveConfig) -> (r: Vec<Pulse>)
    ensures
        r@ == move_plan(c),
{
    let mut r: Vec<Pulse> = Vec::new();
    r.push(Pulse::Direction(c.direction_high));
    let ghost start = r@;
    let mut i: u32 = 0;
    while i < c.pulses
        invariant
            i <= c.pulses,
            r@ == start + step_pulses(i as nat, c.dwell_ms),
            start == seq![Pulse::Direction(c.direction_high)],
        decreases c.pulses - i,
    {
        r.push(Pulse::Step(true));
        r.push(Pulse::Wait(c.dwell_ms));
        r.push(Pulse::Step(false));
        r.push(Pulse::Wait(c.dwell_ms));
        i = i + 1;
        assert(r@ =~= start + step_pulses(i as nat, c.dwell_ms));
    }
    if c.direction_high {
        r.push(Pulse::Direction(false));
        assert(r@ =~= move_plan(c));
    } else {
        assert(r@ =~= move_plan(c));
    }
    r
}

/// The `i`-th duty cycle of a sweep's way up.
fn duty_at(c: SweepConfig, i: u64) -> (r: u64)
    requires
        c.wf(),
        i <= c.steps,
    ensures
        r == sweep_duty(c, i as nat),
        c.min_duty <= r <= c.max_duty,
{
    let span: u64 = c.max_duty - c.min_duty;
    assert(i * span <= c.steps * span) by (nonlinear_arith)
        requires
            i <= c.steps,
    ;
    assert(c.steps * span <= 4294967295 * 1000000) by (nonlinear_arith)
        requires
            c.steps <= 4294967295,
            span <= 1000000,
    ;
    assert((i * span) / (c.steps as int) <= span) by (nonlinear_arith)
        requires
            i * span <= c.steps * span,
            c.steps > 0,
    ;
    c.min_duty + (i * span) / (c.steps as u64)
}

/// Appending one duty cycle appends its setting and its hold.
proof fn lemma_settings_push(duties: Seq<nat>, d: nat, ms: u64)
    ensures
        settings(duties.push(d), ms) == settings(duties, ms) + seq![Pulse::Duty(d as u64), Pulse::Wait(ms)],
{
    assert(duties.push(d).drop_last() =~= duties);
}

/// The pulses of a whole sweep.
pub fn plan_sweep(c: SweepConfig) -> (r: Vec<Pulse>)
    requires
        c.wf(),
    ensures
        r@ == sweep_plan(c),
{
    let mut r: Vec<Pulse> = Vec::new();
    let last: u64 = c.steps as u64;
    let mut i: u64 = 0;
    while i <= last
        invariant
            c.wf(),
            last == c.steps,
            i <= last + 1,
            r@ == settings(rising_duties(c).take(i as int), c.step_ms),
        decreases last + 1 - i,
    {
        let d = duty_at(c, i);
        r.push(Pulse::Duty(d));
        r.push(Pulse::Wait(c.step_ms));
        proof {
            lemma_settings_push(rising_duties(c).take(i as int), d as nat, c.step_ms);
            assert(rising_duties(c).take(i as int).push(d as nat) =~= rising_duties(c).take(
                i + 1,
            ));
        }
        i = i + 1;
    }
    assert(rising_duties(c).take(i as int) =~= rising_duties(c));
    let ghost up = r@;
    let mut k: u64 = 0;
    while k <= last
        invariant
            c.wf(),
            last == c.steps,
            k <= last + 1,
            up == settings(rising_duties(c), c.step_ms),
            r@ == up + settings(falling_duties(c).take(k as int), c.step_ms),
        decreases last + 1 - k,
    {
        let d = duty_at(c, last - k);
        r.push(Pulse::Duty(d));
        r.push(Pulse::Wait(c.step_ms));
        proof {
            lemma_settings_push(falling_duties(c).take(k as int), d as nat, c.step_ms);
            assert(falling_duties(c).take(k as int).push(d as nat) =~= falling_duties(c).take(
                k + 1,
            ));
        }
        k = k + 1;
    }
    assert(falling_duties(c).take(k as int) =~= falling_duties(c));
    r.push(Pulse::Duty(0));
    r
}

/// Servo pulse width at angle zero, in microseconds.
pub const MIN_PULSE_US: u64 = 1000;

/// Servo pulse width at the largest angle, in microseconds.
pub const MAX_PULSE_US: u64 = 2500;

/// Largest servo angle, 180 degrees, in hundredths of a degree.
pub const MAX_ANGLE: u32 = 18_000;

/// Frequency of the servo's PWM signal, in hertz.
pub const SERVO_HZ: u64 = 55;

/// The angle the servo is actually sent to, in hundredths of a degree: angles
/// past the largest one are cut back to it.
pub open spec fn clamp_angle(angle: u32) -> nat {
    if angle > MAX_ANGLE {
        MAX_ANGLE as nat
    } else {
        angle as nat
    }
}

/// The duty cycle that holds the servo at `angle` (in hundredths of a
/// degree), in millionths of the period, rounded down.
///
/// The pulse width grows linearly from `MIN_PULSE_US` to `MAX_PULSE_US` over
/// the angle range. One period lasts one million microseconds over the
/// frequency, so the duty cycle in millionths is the width in microseconds
/// times the frequency.
pub open spec fn servo_duty(angle: u32) -> nat {
    (((MIN_PULSE_US * MAX_ANGLE + (MAX_PULSE_US - MIN_PULSE_US) * clamp_angle(angle)) * SERVO_HZ)
        / (MAX_ANGLE as int)) as nat
}

/// The duty cycle that holds the servo at `angle` (in hundredths of a
/// degree), in millionths of the period.
pub fn angle_duty(angle: u32) -> (r: u64)
    ensures
        r == servo_duty(angle),
        r <= FULL_DUTY,
{
    let a: u64 = if angle > MAX_ANGLE {
        MAX_ANGLE as u64
    } else {
        angle as u64
    };
    assert((MAX_PULSE_US - MIN_PULSE_US) * a <= 1500 * 18000) by (nonlinear_arith)
        requires
            a <= 18000,
    ;
    let scaled: u64 = (MIN_PULSE_US * (MAX_ANGLE as u64) + (MAX_PULSE_US - MIN_PULSE_US) * a) * SERVO_HZ;
    assert(scaled / 18000 <= 137500) by (nonlinear_arith)
        requires
            scaled <= 45000000 * 55,
    ;
    scaled / (MAX_ANGLE as u64)
}

/// An open-loop trigger pull: swing the servo to one angle, hold, swing it back, hold.
#[derive(Debug, Clone, Copy, PartialEq, Eq, Structural)]
pub struct TriggerConfig {
    /// Angle that pulls the trigger, in hundredths of a degree.
    pub fire_angle: u32,
    /// Angle that releases it, in hundredths of a degree.
    pub rest_angle: u32,
    /// Time each angle is held, in milliseconds.
    pub hold_ms: u64,
}

/// The pulses of a trigger pull.
pub open spec fn trigger_plan(c: TriggerConfig) -> Seq<Pulse> {
    seq![
        Pulse::Duty(servo_duty(c.fire_angle) as u64),
        Pulse::Wait(c.hold_ms),
        Pulse::Duty(servo_duty(c.rest_angle) as u64),
        Pulse::Wait(c.hold_ms),
    ]
}

/// The pulses of a trigger pull.
pub fn plan_trigger(c: TriggerConfig) -> (r: Vec<Pulse>)
    ensures
        r@ == trigger_plan(c),
{
    let fire = angle_duty(c.fire_angle);
    let rest = angle_duty(c.rest_angle);
    let r = vec![Pulse::Duty(fire), Pulse::Wait(c.hold_ms), Pulse::Duty(rest), Pulse::Wait(c.hold_ms)];
    assert(r@ =~= trigger_plan(c));
    r
}

/// How the turret shoots.
#[derive(Debug, Clone, Copy, PartialEq, Eq, Structural)]
pub enum ShootConfig {
    /// A fixed trigger pull with no feedback.
    Trigger(TriggerConfig),
    /// A full servo sweep up and back down.
    Sweep(SweepConfig),
}

/// How each action is carried out on this turret.
#[derive(Debug, Clone, Copy, PartialEq, Eq, Structural)]
pub struct ActuatorConfig {
    /// The move for [`Action::Left`].
    pub left: MoveConfig,
    /// The move for [`Action::Right`].
    pub right: MoveConfig,
    /// The shot for [`Action::Shoot`].
    pub shoot: ShootConfig,
}

impl ActuatorConfig {
    /// A sweep, if that is how the turret shoots, goes up from a duty cycle and has a step.
    pub open spec fn wf(&self) -> bool {
        self.shoot matches ShootConfig::Sweep(s) ==> s.wf()
    }
}

/// The pulses that carry out `action`.
pub open spec fn action_plan(c: ActuatorConfig, action: Action) -> Seq<Pulse> {
    match action {
        Action::Left => move_plan(c.left),
        Action::Right => move_plan(c.right),
        Action::Shoot => match c.shoot {
            ShootConfig::Trigger(t) => trigger_plan(t),
            ShootConfig::Sweep(s) => sweep_plan(s),
        },
    }
}

/// The pulses that carry out `action`.
pub fn plan(c: &ActuatorConfig, action: Action) -> (r: Vec<Pulse>)
    requires
        c.wf(),
    ensures
        r@ == action_plan(*c, action),
{
    match action {
        Action::Left => plan_move(c.left),
        Action::Right => plan_move(c.right),
        Action::Shoot => match c.shoot {
            ShootConfig::Trigger(t) => plan_trigger(t),
            ShootConfig::Sweep(s) => plan_sweep(s),
        },
    }
}

/// Everything the actuator does for `actions`, one whole action after the other.
pub open spec fn schedule(c: ActuatorConfig, actions: Seq<Action>) -> Seq<Pulse>
    decreases actions.len(),
{
    if actions.len() == 0 {
        Seq::empty()
    } else {
        schedule(c, actions.drop_last()) + action_plan(c, actions.last())
    }
}

/// The single consumer of the command channel.
pub struct Actuator {
    config: ActuatorConfig,
}

impl Actuator {
    /// How this actuator carries out each action.
    pub closed spec fn spec_config(&self) -> ActuatorConfig {
        self.config
    }

    /// An actuator that carries out actions as `config` says.
    pub fn new(config: ActuatorConfig) -> (r: Actuator)
        requires
            config.wf(),
        ensures
            r.spec_config() == config,
            r.wf(),
    {
        Actuator { config }
    }

    /// The configuration is usable.
    pub open spec fn wf(&self) -> bool {
        self.spec_config().wf()
    }

    /// How this actuator carries out each action.
    pub fn config(&self) -> (r: ActuatorConfig)
        ensures
            r == self.spec_config(),
    {
        self.config
    }

    /// Takes the oldest waiting action and returns it with all of its pulses.
    ///
    /// The caller performs the whole sequence before it asks for the next
    /// action, so two actions never overlap.
    pub fn next_job(&self, queue: &mut CommandChannel) -> (r: Option<(Action, Vec<Pulse>)>)
        requires
            self.wf(),
        ensures
            final(queue).is_open() == old(queue).is_open(),
            old(queue).queued().len() == 0 ==> r.is_none() && final(queue).queued() == old(queue).queued(),
            old(queue).queued().len() > 0 ==> (r matches Some((a, pulses)) && a == old(queue).queued()[0]
                && pulses@ == action_plan(self.spec_config(), a)
                && final(queue).queued() == old(queue).queued().drop_first()),
    {
        match queue.next() {
            Some(action) => Some((action, plan(&self.config, action))),
            None => None,
        }
    }
}

/// The duty cycles a pulse sequence sets, in order.
pub open spec fn duties_of(p: Seq<Pulse>) -> Seq<nat>
    decreases p.len(),
{
    if p.len() == 0 {
        Seq::empty()
    } else {
        match p.last() {
            Pulse::Duty(d) => duties_of(p.drop_last()).push(d as nat),
            _ => duties_of(p.drop_last()),
        }
    }
}

/// The time a pulse sequence spends waiting, in milliseconds.
pub open spec fn total_wait(p: Seq<Pulse>) -> nat
    decreases p.len(),
{
    if p.len() == 0 {
        0
    } else {
        match p.last() {
            Pulse::Wait(ms) => total_wait(p.drop_last()) + ms as nat,
            _ => total_wait(p.drop_last()),
        }
    }
}

proof fn lemma_concat_measures(a: Seq<Pulse>, b: Seq<Pulse>)
    ensures
        duties_of(a + b) == duties_of(a) + duties_of(b),
        total_wait(a + b) == total_wait(a) + total_wait(b),
    decreases b.len(),
{
    if b.len() == 0 {
        assert(a + b =~= a);
        assert(duties_of(a) + duties_of(b) =~= duties_of(a));
    } else {
        lemma_concat_measures(a, b.drop_last());
        assert((a + b).drop_last() =~= a + b.drop_last());
        assert((a + b).last() == b.last());
        match b.last() {
            Pulse::Duty(d) => {
                assert(duties_of(a) + duties_of(b.drop_last()).push(d as nat) =~= (duties_of(a)
                    + duties_of(b.drop_last())).push(d as nat));
            },
            _ => {},
        }
    }
}

proof fn lemma_settings_measures(duties: Seq<nat>, ms: u64)
    requires
        forall|i: int| 0 <= i < duties.len() ==> duties[i] <= u64::MAX,
    ensures
        duties_of(settings(duties, ms)) == duties,
        total_wait(settings(duties, ms)) == duties.len() * ms,
    decreases duties.len(),
{
    if duties.len() > 0 {
        let head = duties.drop_last();
        let tail = seq![Pulse::Duty(duties.last() as u64), Pulse::Wait(ms)];
        lemma_settings_measures(head, ms);
        lemma_concat_measures(settings(head, ms), tail);
        let one = seq![Pulse::Duty(duties.last() as u64)];
        assert(tail.drop_last() =~= one);
        assert(one.drop_last() =~= Seq::<Pulse>::empty());
        assert(duties.last() == duties[duties.len() - 1]);
        assert(duties.last() as u64 as nat == duties.last());
        assert(one.last() == Pulse::Duty(duties.last() as u64));
        assert(duties_of(one.drop_last()) =~= Seq::<nat>::empty());
        assert(total_wait(one.drop_last()) == 0);
        assert(duties_of(one) =~= seq![duties.last()]);
        assert(total_wait(one) == 0);
        assert(duties_of(tail) =~= seq![duties.last()]);
        assert(total_wait(tail) == ms);
        assert(head.push(duties.last()) =~= duties);
        assert(head.len() * ms + ms == duties.len() * ms) by (nonlinear_arith)
            requires
                head.len() + 1 == duties.len(),
        ;
    }
}

proof fn lemma_floor_div_gap(a: int, b: int, n: int)
    requires
        0 <= a,
        a + n <= b,
        0 < n,
    ensures
        a / n < b / n,
{
    assert(a / n < (a + n) / n) by (nonlinear_arith)
        requires
            0 <= a,
            0 < n,
    ;
    assert((a + n) / n <= b / n) by (nonlinear_arith)
        requires
            a + n <= b,
            0 < n,
            0 <= a,
    ;
}

/// A sweep sets `steps + 1` duty cycles on the way up, from the minimum to the
/// maximum, the same ones in reverse on the way down, and then switches the
/// signal off; it waits `step_ms` after each of the `2 * (steps + 1)` settings.
/// When the span is at least the number of steps the way up rises strictly and
/// the way down falls strictly.
pub proof fn lemma_sweep_shape(c: SweepConfig)
    requires
        c.wf(),
    ensures
        duties_of(sweep_plan(c)) == rising_duties(c) + falling_duties(c) + seq![0nat],
        rising_duties(c).len() == c.steps + 1,
        falling_duties(c) == rising_duties(c).reverse(),
        rising_duties(c)[0] == c.min_duty,
        rising_duties(c)[c.steps as int] == c.max_duty,
        total_wait(sweep_plan(c)) == 2 * (c.steps + 1) * c.step_ms,
        c.max_duty - c.min_duty >= c.steps ==> forall|i: int, j: int|
            0 <= i < j <= c.steps ==> #[trigger] rising_duties(c)[i] < #[trigger] rising_duties(c)[j],
        c.max_duty - c.min_duty >= c.steps ==> forall|i: int, j: int|
            0 <= i < j <= c.steps ==> #[trigger] falling_duties(c)[i] > #[trigger] falling_duties(c)[j],
{
    let up = rising_duties(c);
    let down = falling_duties(c);
    let span: int = c.max_duty - c.min_duty;
    assert forall|i: int| 0 <= i < up.len() implies up[i] <= c.max_duty by {
        assert(i * span <= c.steps * span) by (nonlinear_arith)
            requires
                i <= c.steps,
                span >= 0,
        ;
        assert((i * span) / (c.steps as int) <= span) by (nonlinear_arith)
            requires
                i * span <= c.steps * span,
                c.steps > 0,
        ;
    }
    assert(down =~= up.reverse());
    lemma_settings_measures(up, c.step_ms);
    lemma_settings_measures(down, c.step_ms);
    let off = seq![Pulse::Duty(0)];
    lemma_concat_measures(settings(up, c.step_ms), settings(down, c.step_ms));
    lemma_concat_measures(settings(up, c.step_ms) + settings(down, c.step_ms), off);
    assert(off.drop_last() =~= Seq::<Pulse>::empty());
    assert(duties_of(Seq::<Pulse>::empty()) =~= Seq::<nat>::empty());
    assert(duties_of(off) == duties_of(off.drop_last()).push(0nat));
    assert(total_wait(off.drop_last()) == 0);
    assert(duties_of(off) =~= seq![0nat]);
    assert(total_wait(off) == 0);
    assert(up.len() * c.step_ms + down.len() * c.step_ms == 2 * (c.steps + 1) * c.step_ms)
        by (nonlinear_arith)
        requires
            up.len() == c.steps + 1,
            down.len() == c.steps + 1,
    ;
    assert((c.steps * span) / (c.steps as int) == span) by (nonlinear_arith)
        requires
            c.steps > 0,
    ;
    assert(0 * span == 0);
    assert(up[0] == c.min_duty);
    if span >= c.steps {
        assert forall|i: int, j: int| 0 <= i < j <= c.steps implies #[trigger] up[i] < #[trigger] up[j] by {
            assert(i * span + c.steps <= j * span) by (nonlinear_arith)
                requires
                    i < j,
                    span >= c.steps,
            ;
            assert(0 <= i * span) by (nonlinear_arith)
                requires
                    0 <= i,
                    0 <= span,
            ;
            lemma_floor_div_gap(i * span, j * span, c.steps as int);
        }
        assert forall|i: int, j: int| 0 <= i < j <= c.steps implies #[trigger] down[i] > #[trigger] down[j] by {
            assert(down[i] == up[c.steps - i]);
            assert(down[j] == up[c.steps - j]);
        }
    }
}

/// Each action's pulses form one unbroken block of the schedule: everything
/// for the actions before it comes first and everything for the actions after
/// it comes last.
pub proof fn lemma_actions_never_overlap(c: ActuatorConfig, actions: Seq<Action>, i: int)
    requires
        0 <= i < actions.len(),
    ensures
        schedule(c, actions) == schedule(c, actions.take(i)) + action_plan(c, actions[i]) + schedule(
            c,
            actions.skip(i + 1),
        ),
    decreases actions.len(),
{
    let front = actions.drop_last();
    if i == actions.len() - 1 {
        assert(actions.take(i) =~= front);
        assert(actions.skip(i + 1).len() == 0);
        assert(schedule(c, actions.skip(i + 1)) =~= Seq::<Pulse>::empty());
        assert(schedule(c, actions) =~= schedule(c, front) + action_plan(c, actions[i]) + Seq::<
            Pulse,
        >::empty());
    } else {
        lemma_actions_never_overlap(c, front, i);
        assert(front.take(i) =~= actions.take(i));
        assert(front[i] == actions[i]);
        let rest = actions.skip(i + 1);
        assert(rest.drop_last() =~= front.skip(i + 1));
        assert(rest.last() == actions.last());
        assert(schedule(c, rest) == schedule(c, front.skip(i + 1)) + action_plan(c, actions.last()));
        assert(schedule(c, actions) =~= schedule(c, actions.take(i)) + action_plan(c, actions[i])
            + schedule(c, rest));
    }
}

/// Step pulses in one azimuth move of the turret.
pub const MOVE_PULSES: u32 = 50;

/// Time the step line stays high, and then low, in milliseconds.
pub const STEP_DWELL_MS: u64 = 10;

/// Trigger sweep's duty cycle at rest: 2.5 % of the period, in millionths.
pub const SWEEP_MIN_DUTY: u64 = 25_000;

/// Trigger sweep's duty cycle at the turning point: 12.5 % of the period, in millionths.
pub const SWEEP_MAX_DUTY: u64 = 125_000;

/// Steps of the trigger sweep in each direction.
pub const SWEEP_STEPS: u32 = 180;

/// Time each sweep setting is held, in milliseconds.
pub const SWEEP_STEP_MS: u64 = 20;

impl SweepConfig {
    /// The turret's trigger sweep: 2.5 % to 12.5 % in 180 steps of 20 ms.
    pub fn trigger_sweep() -> (r: SweepConfig)
        ensures
            r == (SweepConfig {
                min_duty: SWEEP_MIN_DUTY,
                max_duty: SWEEP_MAX_DUTY,
                steps: SWEEP_STEPS,
                step_ms: SWEEP_STEP_MS,
            }),
            r.wf(),
    {
        SweepConfig {
            min_duty: SWEEP_MIN_DUTY,
            max_duty: SWEEP_MAX_DUTY,
            steps: SWEEP_STEPS,
            step_ms: SWEEP_STEP_MS,
        }
    }
}

impl ActuatorConfig {
    /// The turret's actions: 50 steps of 10 ms each way, the direction line
    /// low for moves to the left and high for moves to the right, and the
    /// trigger sweep for a shot.
    pub fn turret() -> (r: ActuatorConfig)
        ensures
            r.left == (MoveConfig { pulses: MOVE_PULSES, dwell_ms: STEP_DWELL_MS, direction_high: false }),
            r.right == (MoveConfig { pulses: MOVE_PULSES, dwell_ms: STEP_DWELL_MS, direction_high: true }),
            r.shoot == ShootConfig::Sweep(SweepConfig {
                min_duty: SWEEP_MIN_DUTY,
                max_duty: SWEEP_MAX_DUTY,
                steps: SWEEP_STEPS,
                step_ms: SWEEP_STEP_MS,
            }),
            r.wf(),
    {
        ActuatorConfig {
            left: MoveConfig { pulses: MOVE_PULSES, dwell_ms: STEP_DWELL_MS, direction_high: false },
            right: MoveConfig { pulses: MOVE_PULSES, dwell_ms: STEP_DWELL_MS, direction_high: true },
            shoot: ShootConfig::Sweep(SweepConfig::trigger_sweep()),
        }
    }
}

/// Angle of the open-loop trigger pull, 160 degrees, in hundredths of a degree.
pub const PULL_FIRE_ANGLE: u32 = 16_000;

/// Angle the open-loop trigger pull returns to, 50 degrees, in hundredths of a degree.
pub const PULL_REST_ANGLE: u32 = 5_000;

/// Time each angle of the open-loop trigger pull is held, in milliseconds.
pub const PULL_HOLD_MS: u64 = 700;

/// Frequency of the PWM signal for the trigger sweep, in hertz.
pub const SWEEP_PWM_HZ: u64 = 50;

impl TriggerConfig {
    /// The turret's open-loop trigger pull: 160 degrees, then 50 degrees, 700 ms each.
    pub fn trigger_pull() -> (r: TriggerConfig)
        ensures
            r == (TriggerConfig {
                fire_angle: PULL_FIRE_ANGLE,
                rest_angle: PULL_REST_ANGLE,
                hold_ms: PULL_HOLD_MS,
            }),
    {
        TriggerConfig { fire_angle: PULL_FIRE_ANGLE, rest_angle: PULL_REST_ANGLE, hold_ms: PULL_HOLD_MS }
    }
}

impl ShootConfig {
    /// The PWM frequency the shot's duty cycles are meant for, in hertz: the
    /// trigger pull's angles assume [`SERVO_HZ`], the sweep runs at [`SWEEP_PWM_HZ`].
    pub fn pwm_hz(&self) -> (r: u64)
        ensures
            r == (match *self {
                ShootConfig::Trigger(_) => SERVO_HZ,
                ShootConfig::Sweep(_) => SWEEP_PWM_HZ,
            }),
    {
        match self {
            ShootConfig::Trigger(_) => SERVO_HZ,
            ShootConfig::Sweep(_) => SWEEP_PWM_HZ,
        }
    }
}

} // verus!
