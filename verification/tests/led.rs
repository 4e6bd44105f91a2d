use vehicle_dashboard::led_manager::{LedIntent, LedManager, Progress};
use vehicle_dashboard::led_pwm::{
    blinker_led, fade_in, fade_out, led_off, led_on, lock_light, unlock_light, PwmWrite,
    WaveAction, WavePhase, Waveform, GPIO_PWM, PERIOD_US, PULSE_MAX_US, PULSE_MIN_US,
    PULSE_STEP_US, STEP_PAUSE_MS,
};

/// Drives a waveform to its end. The write with index `fail_at` is rejected.
/// Returns the pulse widths written, the pauses made and whether it finished.
fn drive(wave: &mut Waveform, fail_at: Option<usize>) -> (Vec<u64>, Vec<u64>, bool) {
    let mut pulses = Vec::new();
    let mut pauses = Vec::new();
    for _ in 0..10_000 {
        match wave.next_action() {
            WaveAction::Write(write) => {
                assert_eq!(write.period_us, PERIOD_US);
                let ok = fail_at != Some(pulses.len());
                if ok {
                    pulses.push(write.pulse_width_us);
                }
                wave.complete(ok);
            }
            WaveAction::Pause(ms) => {
                pauses.push(ms);
                wave.complete(true);
            }
            WaveAction::Finished => return (pulses, pauses, true),
            WaveAction::Failed => return (pulses, pauses, false),
        }
    }
    panic!("the waveform never ended");
}

/// Drives the operation in flight to its end, as `drive` does for a waveform.
/// Returns the pulse widths written, the pauses made and the last progress.
fn run(manager: &mut LedManager, fail_at: Option<usize>) -> (Vec<u64>, Vec<u64>, Progress) {
    let mut pulses = Vec::new();
    let mut pauses = Vec::new();
    for _ in 0..10_000 {
        assert!(manager.is_running());
        let progress = match manager.next_action() {
            Some(WaveAction::Write(write)) => {
                assert_eq!(write.period_us, PERIOD_US);
                let ok = fail_at != Some(pulses.len());
                if ok {
                    pulses.push(write.pulse_width_us);
                }
                manager.complete(ok)
            }
            Some(WaveAction::Pause(ms)) => {
                pauses.push(ms);
                manager.complete(true)
            }
            other => panic!("a running manager asked for {:?}", other),
        };
        assert_eq!(manager.is_running(), progress == Progress::Running);
        if progress != Progress::Running {
            return (pulses, pauses, progress);
        }
    }
    panic!("the operation never ended");
}

fn pulses(writes: &[PwmWrite]) -> Vec<u64> {
    writes.iter().map(|w| w.pulse_width_us).collect()
}

#[test]
fn constants_have_their_values() {
    assert_eq!(GPIO_PWM, 26);
    assert_eq!(PERIOD_US, 10_000);
    assert_eq!(PULSE_MIN_US, 0);
    assert_eq!(PULSE_MAX_US, PERIOD_US - 1000);
    assert_eq!(PULSE_STEP_US, 100);
    assert_eq!(STEP_PAUSE_MS, 30);
}

#[test]
fn led_on_and_off_are_single_writes() {
    assert_eq!(led_on(10_000, 9000), PwmWrite { period_us: 10_000, pulse_width_us: 9000 });
    assert_eq!(led_on(5, 3), PwmWrite { period_us: 5, pulse_width_us: 3 });
    assert_eq!(led_off(10_000), PwmWrite { period_us: 10_000, pulse_width_us: 0 });
}

#[test]
fn fade_in_steps_by_one_hundred() {
    let writes = fade_in(10_000, 0, 9000);
    assert_eq!(writes.len(), 91);
    for (i, write) in writes.iter().enumerate() {
        assert_eq!(*write, PwmWrite { period_us: 10_000, pulse_width_us: 100 * i as u64 });
    }
    assert_eq!(pulses(&fade_in(7, 250, 600)), vec![250, 350, 450, 550]);
    assert_eq!(pulses(&fade_in(7, 5, 5)), vec![5]);
    assert_eq!(pulses(&fade_in(7, 5, 104)), vec![5]);
    assert_eq!(pulses(&fade_in(7, 5, 105)), vec![5, 105]);
    assert_eq!(pulses(&fade_in(7, 6, 5)), Vec::<u64>::new());
    assert_eq!(pulses(&fade_in(7, u64::MAX - 150, u64::MAX)), vec![u64::MAX - 150, u64::MAX - 50]);
}

#[test]
fn fade_out_steps_by_one_hundred() {
    let writes = fade_out(10_000, 0, 9000);
    assert_eq!(writes.len(), 91);
    for (i, write) in writes.iter().enumerate() {
        assert_eq!(*write, PwmWrite { period_us: 10_000, pulse_width_us: 9000 - 100 * i as u64 });
    }
    assert_eq!(pulses(&fade_out(7, 250, 600)), vec![600, 500, 400, 300]);
    assert_eq!(pulses(&fade_out(7, 5, 5)), vec![5]);
    assert_eq!(pulses(&fade_out(7, 5, 104)), vec![104]);
    assert_eq!(pulses(&fade_out(7, 5, 105)), vec![105, 5]);
    assert_eq!(pulses(&fade_out(7, 6, 5)), Vec::<u64>::new());
    assert_eq!(pulses(&fade_out(7, 0, 150)), vec![150, 50]);
}

#[test]
fn fades_are_strictly_monotonic_and_stay_in_range() {
    for (min, max) in [(0u64, 9000u64), (17, 1234), (100, 100), (0, 99), (3, 2)] {
        let up = pulses(&fade_in(10_000, min, max));
        let down = pulses(&fade_out(10_000, min, max));
        assert_eq!(up.len(), down.len());
        assert!(up.windows(2).all(|w| w[0] < w[1]));
        assert!(down.windows(2).all(|w| w[0] > w[1]));
        assert!(up.iter().chain(down.iter()).all(|p| min <= *p && *p <= max));
    }
}

#[test]
fn fade_in_then_fade_out_ends_at_min() {
    let mut manager = LedManager::new();
    assert!(manager.unlock_light());
    let (first, _, progress) = run(&mut manager, None);
    assert_eq!(progress, Progress::Finished);
    assert_eq!(first.last(), Some(&PULSE_MAX_US));
    assert!(!manager.is_running());
    assert!(manager.lock_light());
    let (second, _, progress) = run(&mut manager, None);
    assert_eq!(progress, Progress::Finished);
    assert_eq!(second.first(), Some(&PULSE_MAX_US));
    assert_eq!(second.last(), Some(&PULSE_MIN_US));
}

#[test]
fn fade_out_then_fade_in_ends_at_max() {
    let mut manager = LedManager::new();
    assert!(manager.lock_light());
    let (first, _, progress) = run(&mut manager, None);
    assert_eq!(progress, Progress::Finished);
    assert_eq!(first.last(), Some(&PULSE_MIN_US));
    assert!(!manager.is_running());
    assert!(manager.unlock_light());
    let (second, _, progress) = run(&mut manager, None);
    assert_eq!(progress, Progress::Finished);
    assert_eq!(second.first(), Some(&PULSE_MIN_US));
    assert_eq!(second.last(), Some(&PULSE_MAX_US));
}

#[test]
fn round_trip_needs_a_whole_number_of_steps() {
    // 150 is not a multiple of the step: the fade-in stops short of max
    assert_eq!(pulses(&fade_in(10_000, 0, 150)).last(), Some(&100));
    assert_eq!(pulses(&fade_out(10_000, 0, 150)).last(), Some(&50));
}

#[test]
fn lock_light_fades_out_with_a_pause_after_each_write() {
    let mut wave = lock_light();
    assert_eq!(wave.plan_len(), 91);
    assert_eq!(wave.phase(), WavePhase::Writing(0));
    assert!(!wave.is_over());
    let (written, pauses, finished) = drive(&mut wave, None);
    assert!(finished);
    assert!(wave.is_over());
    assert_eq!(wave.phase(), WavePhase::Finished);
    let expected: Vec<u64> = (0..=90).rev().map(|i| i * 100).collect();
    assert_eq!(written, expected);
    assert_eq!(pauses, vec![30; 91]);
}

#[test]
fn unlock_light_fades_in_with_a_pause_after_each_write() {
    let mut wave = unlock_light();
    let (written, pauses, finished) = drive(&mut wave, None);
    assert!(finished);
    let expected: Vec<u64> = (0..=90).map(|i| i * 100).collect();
    assert_eq!(written, expected);
    assert_eq!(pauses, vec![30; 91]);
}

#[test]
fn blinker_is_one_write_without_pause() {
    let mut on = blinker_led(true);
    assert_eq!(on.plan_len(), 1);
    assert_eq!(on.planned(0), Some(PwmWrite { period_us: 10_000, pulse_width_us: 9000 }));
    assert_eq!(on.planned(1), None);
    assert_eq!(drive(&mut on, None), (vec![9000], vec![], true));
    let mut off = blinker_led(false);
    assert_eq!(off.planned(0), Some(PwmWrite { period_us: 10_000, pulse_width_us: 0 }));
    assert_eq!(drive(&mut off, None), (vec![0], vec![], true));
}

#[test]
fn rejected_write_aborts_the_rest() {
    let mut wave = lock_light();
    let (written, pauses, finished) = drive(&mut wave, Some(3));
    assert!(!finished);
    assert_eq!(written, vec![9000, 8900, 8800]);
    assert_eq!(pauses, vec![30, 30, 30]);
    assert_eq!(wave.phase(), WavePhase::Failed(3));
    assert!(wave.is_over());
    // nothing brings it back
    wave.complete(true);
    assert_eq!(wave.next_action(), WaveAction::Failed);
    wave.complete(false);
    assert_eq!(wave.phase(), WavePhase::Failed(3));

    let mut blink = blinker_led(true);
    assert_eq!(drive(&mut blink, Some(0)), (vec![], vec![], false));
    assert_eq!(blink.phase(), WavePhase::Failed(0));
}

#[test]
fn waveform_walks_its_phases() {
    let plan = vec![led_on(10, 1), led_on(10, 2)];
    let mut wave = Waveform::new(plan, 5);
    assert_eq!(wave.next_action(), WaveAction::Write(led_on(10, 1)));
    wave.complete(true);
    assert_eq!(wave.phase(), WavePhase::Pausing(0));
    assert_eq!(wave.next_action(), WaveAction::Pause(5));
    wave.complete(false);
    assert_eq!(wave.phase(), WavePhase::Writing(1));
    assert_eq!(wave.next_action(), WaveAction::Write(led_on(10, 2)));
    wave.complete(true);
    assert_eq!(wave.phase(), WavePhase::Pausing(1));
    wave.complete(true);
    assert_eq!(wave.phase(), WavePhase::Finished);
    assert_eq!(wave.next_action(), WaveAction::Finished);
    wave.complete(true);
    assert_eq!(wave.phase(), WavePhase::Finished);

    let mut no_pause = Waveform::new(vec![led_on(10, 1), led_on(10, 2)], 0);
    no_pause.complete(true);
    assert_eq!(no_pause.phase(), WavePhase::Writing(1));
    no_pause.complete(true);
    assert_eq!(no_pause.phase(), WavePhase::Finished);

    let empty = Waveform::new(Vec::new(), 30);
    assert_eq!(empty.phase(), WavePhase::Finished);
    assert_eq!(empty.next_action(), WaveAction::Finished);
    assert!(empty.is_over());
}

#[test]
fn manager_starts_idle() {
    let mut manager = LedManager::new();
    assert!(!manager.is_running());
    assert_eq!(manager.next_action(), None);
    assert_eq!(manager.complete(true), Progress::Idle);
    assert_eq!(manager.complete(false), Progress::Idle);
    assert!(!manager.is_running());
    assert!(!LedManager::default().is_running());
}

#[test]
fn request_while_running_is_dropped() {
    let mut manager = LedManager::new();
    assert!(manager.lock_light());
    assert!(manager.is_running());
    // two steps into the fade-out
    assert_eq!(manager.next_action(), Some(WaveAction::Write(led_on(10_000, 9000))));
    assert_eq!(manager.complete(true), Progress::Running);
    assert_eq!(manager.next_action(), Some(WaveAction::Pause(30)));
    // every kind of request shares the one flag
    assert!(!manager.lock_light());
    assert!(manager.is_running());
    assert!(!manager.unlock_light());
    assert!(manager.is_running());
    assert!(!manager.blinker_led(true));
    assert!(manager.is_running());
    assert!(!manager.request(LedIntent::Blink(false)));
    assert!(manager.is_running());
    // the operation in flight is where it was, and goes on to its end
    assert_eq!(manager.next_action(), Some(WaveAction::Pause(30)));
    let (written, pauses, progress) = run(&mut manager, None);
    assert_eq!(progress, Progress::Finished);
    assert_eq!(written.len(), 90);
    assert_eq!(written.first(), Some(&8900));
    assert_eq!(written.last(), Some(&0));
    assert_eq!(pauses.len(), 91);
    assert!(!manager.is_running());
}

#[test]
fn two_unlock_requests_run_one_fade_in() {
    let mut manager = LedManager::new();
    let first = manager.unlock_light();
    assert!(manager.is_running());
    let second = manager.unlock_light();
    assert!(manager.is_running());
    assert!(first);
    assert!(!second);
    let (written, _, progress) = run(&mut manager, None);
    assert_eq!(progress, Progress::Finished);
    let expected: Vec<u64> = (0..=90).map(|i| i * 100).collect();
    assert_eq!(written, expected);
    // nothing is left over from the request that was dropped
    assert!(!manager.is_running());
    assert_eq!(manager.next_action(), None);
}

#[test]
fn manager_is_idle_again_after_a_failed_operation() {
    let mut manager = LedManager::new();
    assert!(manager.blinker_led(true));
    let (written, _, progress) = run(&mut manager, Some(0));
    assert_eq!(progress, Progress::Failed);
    assert!(written.is_empty());
    assert!(!manager.is_running());
    assert!(manager.request(LedIntent::Lock));
    let (written, pauses, progress) = run(&mut manager, Some(5));
    assert_eq!(progress, Progress::Failed);
    assert_eq!(written, vec![9000, 8900, 8800, 8700, 8600]);
    assert_eq!(pauses.len(), 5);
    assert!(!manager.is_running());
    assert!(manager.request(LedIntent::Unlock));
    assert!(manager.is_running());
    assert_eq!(run(&mut manager, None).2, Progress::Finished);
}

#[test]
fn each_intent_gets_its_operation() {
    let mut manager = LedManager::new();
    assert!(manager.request(LedIntent::Lock));
    let (lock, lock_pauses, _) = run(&mut manager, None);
    assert!(manager.request(LedIntent::Unlock));
    let (unlock, unlock_pauses, _) = run(&mut manager, None);
    assert!(manager.request(LedIntent::Blink(true)));
    let (on, on_pauses, _) = run(&mut manager, None);
    assert!(manager.blinker_led(false));
    let (off, off_pauses, _) = run(&mut manager, None);
    assert_eq!(lock, pulses(&fade_out(10_000, 0, 9000)));
    assert_eq!(unlock, pulses(&fade_in(10_000, 0, 9000)));
    assert_eq!(lock_pauses, vec![30; 91]);
    assert_eq!(unlock_pauses, vec![30; 91]);
    assert_eq!(on, vec![9000]);
    assert_eq!(off, vec![0]);
    assert!(on_pauses.is_empty());
    assert!(off_pauses.is_empty());
}
