use click::controller::{Command, Controller, Label, Mode, UiEvent};
use click::saved_config::{config_or_default, Error, SavedState};
use click::session::{on_hotkey_press, Status};
use click::worker::{click_period_ms, poll_interval, ClickRun, UPPER_BOUND};

fn run_worker(freq: u64, idle_after: u64) -> u64 {
    let mut run = ClickRun::new(freq);
    let mut job = Status::Running;
    while run.wants_click() {
        if run.clicked() {
            run.observe(job);
        }
        if run.emitted == idle_after {
            job = Status::Ready;
        }
    }
    run.emitted
}

#[test]
fn status_should_stop_and_switch() {
    let mut s = Status::Ready;
    assert!(s.should_stop());
    s.switch();
    assert_eq!(s, Status::Running);
    assert!(!s.should_stop());
    s.switch();
    assert_eq!(s, Status::Ready);
}

#[test]
fn presses_toggle_and_spawn_on_activation_only() {
    let mut job = Status::Ready;
    let mut spawns = 0;
    let mut stops = 0;
    for _ in 0..5 {
        let was = job;
        if on_hotkey_press(&mut job) {
            spawns += 1;
        } else {
            stops += 1;
        }
        assert_ne!(was, job);
    }
    assert_eq!(spawns, 3);
    assert_eq!(stops, 2);
    assert_eq!(job, Status::Running);
}

#[test]
fn click_period_values() {
    assert_eq!(click_period_ms(10), 100);
    assert_eq!(click_period_ms(100), 10);
    assert_eq!(click_period_ms(3), 333);
    assert_eq!(click_period_ms(1), 1000);
}

#[test]
fn poll_interval_values() {
    assert_eq!(poll_interval(1), 1);
    assert_eq!(poll_interval(10), 2);
    assert_eq!(poll_interval(25), 3);
    assert_eq!(poll_interval(100), 11);
}

#[test]
fn worker_at_rate_ten_stops_two_clicks_after_idle() {
    // idle once the poll after the fourth click has passed: the poll after
    // the sixth click stops it
    assert_eq!(run_worker(10, 4), 6);
    // idle after the third click: the poll after the fourth click stops it
    assert_eq!(run_worker(10, 3), 4);
}

#[test]
fn worker_tail_is_bounded_by_poll_interval() {
    for freq in 1..=100u64 {
        let m = poll_interval(freq);
        for idle_after in 1..20u64 {
            let total = run_worker(freq, idle_after);
            assert!(total > idle_after);
            assert!(total - idle_after <= m);
            assert_eq!(total % m, 0);
        }
    }
}

#[test]
fn worker_never_told_to_stop_hits_upper_bound() {
    assert_eq!(run_worker(100, u64::MAX), UPPER_BOUND);
    assert_eq!(run_worker(1, u64::MAX), 200);
}

#[test]
fn worker_period_follows_rate() {
    let run = ClickRun::new(40);
    assert_eq!(run.period_ms(), 25);
}

#[test]
fn default_preferences() {
    let d = SavedState::default();
    assert_eq!(d.key_bind, "F5");
    assert_eq!(d.freq, 10);
    assert!(d.always_on_top);
}

#[test]
fn checked_record_rejects_rate_out_of_range() {
    assert_eq!(SavedState::checked("F5".to_string(), 0, true).unwrap_err(), Error::SerdeError);
    assert_eq!(SavedState::checked("F5".to_string(), 101, true).unwrap_err(), Error::SerdeError);
    let ok = SavedState::checked("A".to_string(), 100, false).unwrap();
    assert_eq!(ok.key_bind, "A");
    assert_eq!(ok.freq, 100);
    assert!(!ok.always_on_top);
}

#[test]
fn config_falls_back_to_defaults() {
    for loaded in [Err(Error::IoError), Err(Error::SerdeError), Err(Error::GetDirError), Ok(None)] {
        let c = config_or_default(loaded);
        assert_eq!(c.key_bind, "F5");
        assert_eq!(c.freq, 10);
        assert!(c.always_on_top);
    }
    let bad = SavedState { key_bind: "Q".to_string(), freq: 0, always_on_top: false };
    assert_eq!(config_or_default(Ok(Some(bad))).freq, 10);
}

#[test]
fn config_keeps_valid_record() {
    let p = SavedState { key_bind: "F8".to_string(), freq: 25, always_on_top: false };
    let c = config_or_default(Ok(Some(p.duplicate())));
    assert_eq!(c.key_bind, p.key_bind);
    assert_eq!(c.freq, 25);
    assert!(!c.always_on_top);
}

#[test]
fn error_messages() {
    assert_eq!(Error::GetDirError.message(), "cannot get proper configuration dir of this OS");
    assert_eq!(Error::IoError.message(), "failed to get data from file");
    assert_eq!(Error::SerdeError.message(), "failed to ser/de");
}

#[test]
fn fresh_start_shows_start_button() {
    let c = Controller::new(config_or_default(Ok(None)));
    assert_eq!(c.mode, Mode::Disarmed);
    assert_eq!(c.prefs.freq, 10);
    assert!(c.prefs.always_on_top);
    let l = c.label(Status::Ready);
    assert_eq!(l, Label::StartService);
    assert_eq!(l.text(), "Click to start service...");
}

#[test]
fn slider_release_marks_dirty_then_save_clears() {
    let mut c = Controller::new(SavedState::default());
    let mut job = Status::Ready;
    assert!(!c.save_due());
    assert_eq!(c.handle(UiEvent::RateReleased(25), &mut job), Command::Nothing);
    assert!(c.save_due());
    assert_eq!(c.snapshot().freq, 25);
    c.handle(UiEvent::Saved, &mut job);
    assert!(!c.save_due());
}

#[test]
fn out_of_range_rate_is_ignored() {
    let mut c = Controller::new(SavedState::default());
    let mut job = Status::Ready;
    c.handle(UiEvent::RateReleased(0), &mut job);
    c.handle(UiEvent::RateReleased(101), &mut job);
    assert_eq!(c.prefs.freq, 10);
    assert!(!c.save_due());
}

#[test]
fn top_toggle_flips_and_marks_dirty() {
    let mut c = Controller::new(SavedState::default());
    let mut job = Status::Ready;
    c.handle(UiEvent::TopClicked, &mut job);
    assert!(!c.prefs.always_on_top);
    assert!(c.save_due());
}

#[test]
fn start_installs_hook_and_shows_inactive() {
    let mut c = Controller::new(SavedState::default());
    let mut job = Status::Ready;
    assert_eq!(c.handle(UiEvent::StartPressed, &mut job), Command::InstallHook);
    assert_eq!(c.mode, Mode::Armed);
    assert_eq!(c.label(job).text(), "Inactive");
    assert_eq!(c.handle(UiEvent::StartPressed, &mut job), Command::Nothing);
    on_hotkey_press(&mut job);
    assert_eq!(c.label(job), Label::Active);
    assert_eq!(c.label(job).text(), "Active");
}

#[test]
fn stop_while_active_removes_hook_and_idles() {
    let mut c = Controller::new(SavedState::default());
    let mut job = Status::Ready;
    c.handle(UiEvent::StartPressed, &mut job);
    assert!(on_hotkey_press(&mut job));
    assert_eq!(job, Status::Running);
    assert_eq!(c.handle(UiEvent::StopPressed, &mut job), Command::RemoveHook);
    assert_eq!(job, Status::Ready);
    assert_eq!(c.mode, Mode::Disarmed);
    assert_eq!(c.label(job), Label::StartService);
    assert_eq!(c.handle(UiEvent::StopPressed, &mut job), Command::Nothing);
}

#[test]
fn hotkey_edit_only_while_disarmed() {
    let mut c = Controller::new(SavedState::default());
    let mut job = Status::Ready;
    c.handle(UiEvent::StartPressed, &mut job);
    c.handle(UiEvent::HotkeyChosen("F6".to_string()), &mut job);
    assert_eq!(c.prefs.key_bind, "F5");
    c.handle(UiEvent::StopPressed, &mut job);
    c.handle(UiEvent::HotkeyChosen("F6".to_string()), &mut job);
    assert_eq!(c.prefs.key_bind, "F6");
    assert!(c.save_due());
}

#[test]
fn hook_count_matches_mode_over_events() {
    let mut c = Controller::new(SavedState::default());
    let mut job = Status::Ready;
    let mut hooks = 0;
    let events = vec![
        UiEvent::StartPressed,
        UiEvent::StartPressed,
        UiEvent::RateReleased(50),
        UiEvent::StopPressed,
        UiEvent::StopPressed,
        UiEvent::StartPressed,
    ];
    for e in events {
        match c.handle(e, &mut job) {
            Command::InstallHook => hooks = 1,
            Command::RemoveHook => hooks = 0,
            Command::Nothing => {}
        }
        assert_eq!(hooks == 1, c.mode == Mode::Armed);
    }
}
