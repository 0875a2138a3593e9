use hadeda::report::{
    report_line, EmitterPhase, Report, ReportEmitter, TimerState, ANGLE_WIDTH, REPORT_FRAME,
};
use hadeda::text::{Line, LINE_CAPACITY};
use hadeda::shared::SharedTelemetry;
use hadeda::telemetry::{Orientation, Telemetry};

fn some_orientation() -> Orientation {
    Orientation { w: 11, i: 22, j: 33, k: 44 }
}

fn text(line: Option<Line>) -> String {
    String::from_utf8(line.unwrap().as_bytes().to_vec()).unwrap()
}

#[test]
fn report_line_has_the_exact_format() {
    assert_eq!(text(report_line("1.5", "-20.25", "179", 42)), "/*1.5,-20.25,179,42*/\n");
    assert_eq!(text(report_line("0", "0", "0", 0)), "/*0,0,0,0*/\n");
}

#[test]
fn report_line_matches_std_formatting_of_angles() {
    let (roll, pitch, yaw) = (12.5f64, -0.125f64, 90.0f64);
    let line = report_line(&format!("{}", roll), &format!("{}", pitch), &format!("{}", yaw), 7);
    assert_eq!(text(line), format!("/*{},{},{},{}*/\n", roll, pitch, yaw, 7));
}

#[test]
fn report_line_renders_the_bin_in_decimal() {
    for bin in [0u32, 1, 9, 10, 11, 99, 100, 101, 65_536, 999_999_999, 1_000_000_000, u32::MAX] {
        assert_eq!(text(report_line("a", "b", "c", bin)), format!("/*a,b,c,{}*/\n", bin));
    }
    assert_eq!(text(report_line("", "", "", u32::MAX)), "/*,,,4294967295*/\n");
}

#[test]
fn line_has_room_for_three_angles_and_the_rest() {
    assert_eq!(ANGLE_WIDTH, 336);
    assert_eq!(REPORT_FRAME, 18);
    assert_eq!(LINE_CAPACITY, 3 * ANGLE_WIDTH + REPORT_FRAME);
}

#[test]
fn no_angle_is_longer_than_the_angle_width() {
    let mut longest = 0;
    let mut state = 0x9e37_79b9_7f4a_7c15u64;
    for exponent in 0..2047u64 {
        let mut mantissas = vec![0, 1, (1 << 52) - 1, 1 << 51, 0x5_5555_5555_5555];
        for _ in 0..8 {
            state ^= state << 13;
            state ^= state >> 7;
            state ^= state << 17;
            mantissas.push(state & ((1 << 52) - 1));
        }
        for mantissa in mantissas {
            for sign in [0u64, 1 << 63] {
                let angle = f64::from_bits(sign | (exponent << 52) | mantissa);
                longest = longest.max(format!("{}", angle).len());
            }
        }
    }
    assert_eq!(longest, 327);
    assert!(longest <= ANGLE_WIDTH);
    assert!(format!("{}", f64::NAN).len() <= ANGLE_WIDTH);
    assert!(format!("{}", f64::NEG_INFINITY).len() <= ANGLE_WIDTH);
}

#[test]
fn report_line_is_made_for_the_longest_angles() {
    let tiny = format!("{}", -5e-324f64);
    let small = format!("{}", -2.2250738585072014e-308f64);
    let huge = format!("{}", f64::MIN);
    assert_eq!(tiny.len(), 327);
    assert_eq!(small.len(), 327);
    assert_eq!(huge.len(), 310);
    assert_eq!(
        text(report_line(&tiny, &small, &huge, u32::MAX)),
        format!("/*{},{},{},4294967295*/\n", tiny, small, huge)
    );
    assert_eq!(
        text(report_line(&tiny, &tiny, &tiny, 0)),
        format!("/*{},{},{},0*/\n", tiny, tiny, tiny)
    );
}

#[test]
fn report_line_is_made_for_angles_close_to_zero() {
    let (roll, pitch, yaw) = (1e-40f64, -3.5e-41f64, 2.25e-39f64);
    assert_eq!(format!("{}", roll).len(), 42);
    let line = report_line(&format!("{}", roll), &format!("{}", pitch), &format!("{}", yaw), 9);
    assert_eq!(text(line), format!("/*{},{},{},{}*/\n", roll, pitch, yaw, 9));
}

#[test]
fn report_line_takes_angles_up_to_the_room_of_a_line() {
    // three angles of the full width and 18 bytes around them fill the line
    let roll = "1".repeat(336);
    let pitch = "2".repeat(336);
    let yaw = "3".repeat(336);
    let line = report_line(&roll, &pitch, &yaw, u32::MAX).unwrap();
    assert_eq!(line.len(), 1026);
    assert_eq!(
        line.as_bytes(),
        format!("/*{},{},{},4294967295*/\n", roll, pitch, yaw).as_bytes()
    );
    // the same angles fit with a short magnitude too
    assert_eq!(
        text(report_line(&roll, &pitch, &yaw, 0)),
        format!("/*{},{},{},0*/\n", roll, pitch, yaw)
    );
    // room that one angle leaves can go to another
    assert!(report_line(&"4".repeat(1000), "5", "6", 1).is_some());
}

#[test]
fn report_line_refuses_texts_that_leave_no_room_for_the_report() {
    let roll = "1".repeat(336);
    let pitch = "2".repeat(336);
    let yaw = "3".repeat(337);
    assert_eq!(report_line(&roll, &pitch, &yaw, 0), None);
    assert_eq!(report_line(&"9".repeat(5000), "", "", 0), None);
    assert_eq!(report_line("", &"9".repeat(1009), "", 0), None);
}

#[test]
fn report_line_counts_bytes_not_characters() {
    // 504 two-byte characters are 1008 bytes
    let wide = "\u{e9}".repeat(504);
    assert!(report_line(&wide, "", "", 1).is_some());
    assert_eq!(report_line(&wide, "x", "", 1), None);
}

#[test]
fn emitter_starts_idle_and_armed() {
    let emitter = ReportEmitter::start(10);
    assert_eq!(emitter.timer_state(), TimerState { period: 10, armed: true });
    assert_eq!(emitter.current_phase(), EmitterPhase::Idle);
}

#[test]
fn fire_reports_the_snapshot_and_waits_for_rearm() {
    let mut emitter = ReportEmitter::start(10);
    let report = emitter.fire(Telemetry::latest(some_orientation(), 5));
    assert_eq!(report, Some(Report { orientation: some_orientation(), bin: 5 }));
    assert_eq!(emitter.timer_state(), TimerState { period: 10, armed: false });
    assert_eq!(emitter.current_phase(), EmitterPhase::Fired);
    assert_eq!(emitter.rearm(), Some(10));
    assert_eq!(emitter.timer_state(), TimerState { period: 10, armed: true });
    assert_eq!(emitter.current_phase(), EmitterPhase::Idle);
}

#[test]
fn nothing_is_reported_before_the_first_update() {
    let mut emitter = ReportEmitter::start(10);
    assert_eq!(emitter.fire(Telemetry::empty()), None);
    // the timer is armed again all the same
    assert_eq!(emitter.rearm(), Some(10));
}

#[test]
fn missing_bin_is_reported_as_zero() {
    let mut emitter = ReportEmitter::start(10);
    let snapshot = Telemetry { orientation: Some(some_orientation()), bin: None };
    assert_eq!(emitter.fire(snapshot), Some(Report { orientation: some_orientation(), bin: 0 }));
}

#[test]
fn bin_without_orientation_is_not_reported() {
    let mut emitter = ReportEmitter::start(10);
    let snapshot = Telemetry { orientation: None, bin: Some(9) };
    assert_eq!(emitter.fire(snapshot), None);
}

#[test]
fn second_fire_without_rearm_is_not_served() {
    let mut emitter = ReportEmitter::start(250);
    assert!(emitter.fire(Telemetry::latest(some_orientation(), 1)).is_some());
    assert_eq!(emitter.fire(Telemetry::latest(some_orientation(), 2)), None);
    assert_eq!(emitter.rearm(), Some(250));
    assert_eq!(emitter.rearm(), None);
    assert_eq!(emitter.timer_state(), TimerState { period: 250, armed: true });
}

#[test]
fn service_reads_the_shared_slot() {
    let shared = SharedTelemetry::new();
    let mut emitter = ReportEmitter::start(10);
    assert_eq!(emitter.service(&shared), None);
    emitter.rearm();
    shared.publish(some_orientation(), 3);
    shared.publish(some_orientation(), 8);
    assert_eq!(emitter.service(&shared), Some(Report { orientation: some_orientation(), bin: 8 }));
    // the same pair is reported again if nothing new was published
    emitter.rearm();
    assert_eq!(emitter.service(&shared), Some(Report { orientation: some_orientation(), bin: 8 }));
}

#[test]
fn one_line_per_period_over_a_duration() {
    let period = 10u64;
    let duration = 1_005u64;
    let shared = SharedTelemetry::new();
    shared.publish(some_orientation(), 1);
    let mut emitter = ReportEmitter::start(period);
    let mut deadline = period;
    let mut lines = Vec::new();
    for now in 0..=duration {
        if now == deadline {
            if let Some(report) = emitter.service(&shared) {
                lines.push(text(report_line("0", "0", "0", report.bin)));
            }
            deadline = now + emitter.rearm().unwrap();
        }
    }
    assert_eq!(lines.len() as u64, duration / period);
    assert_eq!(lines.len(), 100);
    assert!(lines.iter().all(|line| line == "/*0,0,0,1*/\n"));
}

#[test]
fn halted_emitter_reports_nothing_and_is_not_armed_again() {
    let mut emitter = ReportEmitter::start(10);
    emitter.halt();
    assert_eq!(emitter.current_phase(), EmitterPhase::Halted);
    assert_eq!(emitter.timer_state(), TimerState { period: 10, armed: false });
    assert_eq!(emitter.fire(Telemetry::latest(some_orientation(), 5)), None);
    assert_eq!(emitter.rearm(), None);
    assert_eq!(emitter.fire(Telemetry::latest(some_orientation(), 6)), None);
    assert_eq!(emitter.current_phase(), EmitterPhase::Halted);
    assert_eq!(emitter.timer_state(), TimerState { period: 10, armed: false });
}

#[test]
fn halt_after_a_fire_leaves_the_timer_alone() {
    let mut emitter = ReportEmitter::start(10);
    assert!(emitter.fire(Telemetry::latest(some_orientation(), 5)).is_some());
    emitter.halt();
    assert_eq!(emitter.rearm(), None);
    assert_eq!(emitter.timer_state(), TimerState { period: 10, armed: false });
    emitter.halt();
    assert_eq!(emitter.current_phase(), EmitterPhase::Halted);
}
