use andreatui::event::{Event, KeyCode, KeyEvent, TickSchedule};

fn is_tick(e: &Event) -> bool {
    matches!(e, Event::Tick)
}

#[test]
fn timeout_counts_down_to_the_next_tick() {
    let s = TickSchedule::new(250, 1000);
    assert_eq!(s.poll_timeout(1000), 250);
    assert_eq!(s.poll_timeout(1100), 150);
    assert_eq!(s.poll_timeout(1249), 1);
    assert_eq!(s.poll_timeout(1250), 0);
    assert_eq!(s.poll_timeout(2000), 0);
}

#[test]
fn clock_before_start_counts_as_no_time() {
    let s = TickSchedule::new(250, 1000);
    assert_eq!(s.elapsed(900), 0);
    assert_eq!(s.poll_timeout(900), 250);
}

#[test]
fn input_without_due_tick_is_delivered_alone() {
    let mut s = TickSchedule::new(250, 0);
    let out = s.after_poll(Some(Event::Key(KeyEvent::new(KeyCode::Char('j')))), 100);
    assert_eq!(out.len(), 1);
    assert!(matches!(out[0], Event::Key(k) if k.code == KeyCode::Char('j')));
    assert_eq!(s.last_tick_ms, 0);
}

#[test]
fn input_then_due_tick_keeps_order() {
    let mut s = TickSchedule::new(250, 0);
    let out = s.after_poll(Some(Event::Key(KeyEvent::new(KeyCode::Enter))), 300);
    assert_eq!(out.len(), 2);
    assert!(matches!(out[0], Event::Key(k) if k.code == KeyCode::Enter));
    assert!(is_tick(&out[1]));
    assert_eq!(s.last_tick_ms, 300);
    assert_eq!(s.tick_rate_ms, 250);
}

#[test]
fn nothing_before_the_period_ends() {
    let mut s = TickSchedule::new(250, 0);
    let out = s.after_poll(None, 249);
    assert!(out.is_empty());
    assert_eq!(s.last_tick_ms, 0);
}

#[test]
fn idle_source_ticks_every_period() {
    let mut s = TickSchedule::new(250, 0);
    let mut now: u64 = 0;
    for _ in 0..20 {
        now += s.poll_timeout(now);
        let out = s.after_poll(None, now);
        assert_eq!(out.len(), 1);
        assert!(is_tick(&out[0]));
        assert_eq!(s.last_tick_ms, now);
    }
    assert_eq!(now, 20 * 250);
}

#[test]
fn late_wakeup_still_ticks_once() {
    let mut s = TickSchedule::new(250, 0);
    let out = s.after_poll(None, 900);
    assert_eq!(out.len(), 1);
    assert!(is_tick(&out[0]));
    assert_eq!(s.poll_timeout(900), 250);
}

#[test]
fn zero_period_ticks_on_every_wait() {
    let mut s = TickSchedule::new(0, 5);
    assert_eq!(s.poll_timeout(5), 0);
    assert_eq!(s.after_poll(None, 5).len(), 1);
    assert!(s.is_tick_due(5));
}

#[test]
fn key_event_has_no_modifiers() {
    let k = KeyEvent::new(KeyCode::Backspace);
    assert_eq!(k.code, KeyCode::Backspace);
    assert_eq!(k.modifiers, 0);
}
