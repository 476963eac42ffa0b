use turret_relay::action::Action;
use turret_relay::actuator::{
    angle_duty, plan, plan_move, plan_sweep, plan_trigger, ActuatorConfig, Actuator, MoveConfig,
    Pulse, ShootConfig, SweepConfig, TriggerConfig,
};
use turret_relay::command_channel::{ChannelClosed, CommandChannel};
use turret_relay::ingress::{outcome_page, route, submit, Page, Route};

fn duties(p: &[Pulse]) -> Vec<u64> {
    p.iter()
        .filter_map(|x| match x {
            Pulse::Duty(d) => Some(*d),
            _ => None,
        })
        .collect()
}

fn waited(p: &[Pulse]) -> u64 {
    p.iter()
        .map(|x| match x {
            Pulse::Wait(ms) => *ms,
            _ => 0,
        })
        .sum()
}

#[test]
fn commands_run_in_queue_order() {
    let mut q = CommandChannel::new();
    assert_eq!(q.enqueue(Action::Left), Ok(()));
    assert_eq!(q.enqueue(Action::Shoot), Ok(()));
    assert_eq!(q.enqueue(Action::Right), Ok(()));
    assert_eq!(q.len(), 3);
    let config = ActuatorConfig::turret();
    let actuator = Actuator::new(config);
    let mut run: Vec<Pulse> = Vec::new();
    let mut order = Vec::new();
    while let Some((a, pulses)) = actuator.next_job(&mut q) {
        order.push(a);
        run.extend(pulses);
    }
    assert_eq!(order, vec![Action::Left, Action::Shoot, Action::Right]);
    let left = plan(&config, Action::Left);
    let shoot = plan(&config, Action::Shoot);
    let right = plan(&config, Action::Right);
    let mut expected = left.clone();
    expected.extend(shoot.iter().copied());
    expected.extend(right.iter().copied());
    assert_eq!(run, expected);
    // The shot's final reset comes right before the first pulse of the move right.
    assert_eq!(run[left.len() + shoot.len() - 1], Pulse::Duty(0));
    assert_eq!(run[left.len() + shoot.len()], Pulse::Direction(true));
}

#[test]
fn enqueue_after_close_fails() {
    let mut q = CommandChannel::new();
    assert_eq!(q.enqueue(Action::Left), Ok(()));
    q.close();
    assert!(q.is_closed());
    assert_eq!(q.enqueue(Action::Shoot), Err(ChannelClosed));
    assert_eq!(q.len(), 0);
    assert_eq!(q.next(), None);
}

#[test]
fn shoot_sweep_rises_falls_and_resets() {
    let c = SweepConfig { min_duty: 25_000, max_duty: 125_000, steps: 180, step_ms: 20 };
    assert_eq!(SweepConfig::trigger_sweep(), c);
    let p = plan_sweep(c);
    assert_eq!(p.len(), 2 * 181 * 2 + 1);
    let d = duties(&p);
    assert_eq!(d.len(), 181 + 181 + 1);
    assert_eq!(d[0], 25_000);
    assert_eq!(d[1], 25_555);
    assert_eq!(d[90], 75_000);
    assert_eq!(d[180], 125_000);
    assert!(d[..181].windows(2).all(|w| w[0] < w[1]));
    assert_eq!(d[181], 125_000);
    assert!(d[181..362].windows(2).all(|w| w[0] > w[1]));
    assert_eq!(d[361], 25_000);
    assert_eq!(d[362], 0);
    assert_eq!(*p.last().unwrap(), Pulse::Duty(0));
    assert_eq!(waited(&p), 7240);
}

#[test]
fn sweep_of_one_step() {
    let c = SweepConfig { min_duty: 10, max_duty: 20, steps: 1, step_ms: 5 };
    assert_eq!(
        plan_sweep(c),
        vec![
            Pulse::Duty(10),
            Pulse::Wait(5),
            Pulse::Duty(20),
            Pulse::Wait(5),
            Pulse::Duty(20),
            Pulse::Wait(5),
            Pulse::Duty(10),
            Pulse::Wait(5),
            Pulse::Duty(0),
        ]
    );
}

#[test]
fn moves_pulse_the_step_line() {
    let left = plan_move(MoveConfig { pulses: 50, dwell_ms: 10, direction_high: false });
    assert_eq!(left.len(), 201);
    assert_eq!(
        left[..5],
        [Pulse::Direction(false), Pulse::Step(true), Pulse::Wait(10), Pulse::Step(false), Pulse::Wait(10)]
    );
    assert!(!left[1..].iter().any(|p| matches!(p, Pulse::Direction(_))));
    assert_eq!(waited(&left), 1000);
    let right = plan_move(MoveConfig { pulses: 2, dwell_ms: 3, direction_high: true });
    assert_eq!(
        right,
        vec![
            Pulse::Direction(true),
            Pulse::Step(true),
            Pulse::Wait(3),
            Pulse::Step(false),
            Pulse::Wait(3),
            Pulse::Step(true),
            Pulse::Wait(3),
            Pulse::Step(false),
            Pulse::Wait(3),
            Pulse::Direction(false),
        ]
    );
    assert_eq!(
        plan_move(MoveConfig { pulses: 0, dwell_ms: 3, direction_high: false }),
        vec![Pulse::Direction(false)]
    );
}

#[test]
fn servo_angles_map_to_duty_cycles() {
    assert_eq!(angle_duty(0), 55_000);
    assert_eq!(angle_duty(9_000), 96_250);
    assert_eq!(angle_duty(16_000), 128_333);
    assert_eq!(angle_duty(5_000), 77_916);
    assert_eq!(angle_duty(4_550), 75_854);
    assert_eq!(angle_duty(18_000), 137_500);
    assert_eq!(angle_duty(40_000), 137_500);
}

#[test]
fn trigger_pull_holds_each_angle() {
    let t = TriggerConfig { fire_angle: 16_000, rest_angle: 5_000, hold_ms: 700 };
    assert_eq!(TriggerConfig::trigger_pull(), t);
    assert_eq!(
        plan_trigger(t),
        vec![Pulse::Duty(128_333), Pulse::Wait(700), Pulse::Duty(77_916), Pulse::Wait(700)]
    );
    assert_eq!(ShootConfig::Trigger(t).pwm_hz(), 55);
    assert_eq!(ShootConfig::Sweep(SweepConfig::trigger_sweep()).pwm_hz(), 50);
    let config = ActuatorConfig { shoot: ShootConfig::Trigger(t), ..ActuatorConfig::turret() };
    assert_eq!(plan(&config, Action::Shoot), plan_trigger(t));
}

#[test]
fn requests_route_to_commands_and_pages() {
    assert_eq!(route(true, b"/"), Route::Show(Page::Index));
    assert_eq!(route(true, b"/left"), Route::Command(Action::Left));
    assert_eq!(route(true, b"/right"), Route::Command(Action::Right));
    assert_eq!(route(true, b"/shoot"), Route::Command(Action::Shoot));
    assert_eq!(route(true, b"/lefts"), Route::Show(Page::NotFound));
    assert_eq!(route(true, b""), Route::Show(Page::NotFound));
    assert_eq!(route(false, b"/left"), Route::Empty);
    assert_eq!(Page::Index.file_name(), "index.html");
    assert_eq!(Page::Accepted.file_name(), "wegood.html");
    assert_eq!(Page::Rejected.file_name(), "wenotgood.html");
    assert_eq!(Page::NotFound.file_name(), "404.html");
}

#[test]
fn submitted_commands_report_their_outcome() {
    let mut q = CommandChannel::new();
    assert_eq!(submit(&mut q, Action::Right), Page::Accepted);
    assert_eq!(q.next(), Some(Action::Right));
    q.close();
    assert_eq!(submit(&mut q, Action::Shoot), Page::Rejected);
    assert_eq!(outcome_page(Ok(())), Page::Accepted);
    assert_eq!(outcome_page(Err(ChannelClosed)), Page::Rejected);
}
