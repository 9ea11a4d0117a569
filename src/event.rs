//! Input events and the tick schedule of the event source.
//!
//! The event source waits for terminal input with a bounded timeout and
//! interleaves periodic `Tick` events. The waiting itself happens outside
//! the library; the decisions (how long to wait, what to deliver after a
//! wait, when the tick clock restarts) are made here.
use vstd::prelude::*;

verus! {

/// Mouse events are carried through untouched; nothing here reads them.
#[verifier::external_type_specification]
#[verifier::external_body]
pub struct ExMouseEvent(crossterm::event::MouseEvent);

/// The key that was pressed.
#[derive(Debug, Clone, Copy, PartialEq, Eq, Structural)]
pub enum KeyCode {
    Backspace,
    Enter,
    Left,
    Right,
    Up,
    Down,
    Home,
    End,
    PageUp,
    PageDown,
    Tab,
    BackTab,
    Delete,
    Insert,
    F(u8),
    Char(char),
    Null,
    Esc,
    /// Any other key (lock keys, media keys, lone modifiers).
    Other,
}

/// A key press: the key and the set of modifiers held, as a bit set
/// (shift 1, control 2, alt 4, super 8, hyper 16, meta 32).
#[derive(Debug, Clone, Copy, PartialEq, Eq, Structural)]
pub struct KeyEvent {
    pub code: KeyCode,
    pub modifiers: u8,
}

impl KeyEvent {
    /// A key press with no modifiers held.
    pub fn new(code: KeyCode) -> (r: KeyEvent)
        ensures
            r.code == code,
            r.modifiers == 0,
    {
        KeyEvent { code, modifiers: 0 }
    }
}

/// One event delivered to the application.
#[derive(Debug)]
pub enum Event {
    /// A key press.
    Key(KeyEvent),
    /// A mouse event.
    Mouse(crossterm::event::MouseEvent),
    /// A periodic tick.
    Tick,
}

/// Milliseconds between `last` and `now` on a monotonic clock; zero when
/// `now` is not after `last`.
pub open spec fn elapsed_ms(last: u64, now: u64) -> nat {
    if now >= last {
        (now - last) as nat
    } else {
        0
    }
}

/// The tick clock of the event source. Times are milliseconds on a
/// monotonic clock chosen by the caller.
pub struct TickSchedule {
    /// The tick period.
    pub tick_rate_ms: u64,
    /// When the last tick was emitted (or the schedule started).
    pub last_tick_ms: u64,
}

impl TickSchedule {
    /// Whether a tick is due at `now`.
    pub open spec fn tick_due(&self, now: u64) -> bool {
        elapsed_ms(self.last_tick_ms, now) >= self.tick_rate_ms
    }

    /// How long a wait for input may last at `now` before the next tick is due.
    pub open spec fn spec_timeout(&self, now: u64) -> nat {
        if self.tick_due(now) {
            0
        } else {
            (self.tick_rate_ms - elapsed_ms(self.last_tick_ms, now)) as nat
        }
    }

    /// What is delivered, in order, after a wait that ended at `now` with
    /// `input` (if any): the input first, then a tick if one is due.
    pub open spec fn spec_deliveries(&self, input: Option<Event>, now: u64) -> Seq<Event> {
        let first = match input {
            Some(e) => seq![e],
            None => Seq::empty(),
        };
        if self.tick_due(now) {
            first.push(Event::Tick)
        } else {
            first
        }
    }

    /// The schedule after a wait that ended at `now`: the clock restarts
    /// exactly when a tick was due.
    pub open spec fn spec_after(&self, now: u64) -> TickSchedule {
        TickSchedule {
            tick_rate_ms: self.tick_rate_ms,
            last_tick_ms: if self.tick_due(now) {
                now
            } else {
                self.last_tick_ms
            },
        }
    }

    /// A schedule with period `tick_rate_ms`, started at `now_ms`.
    pub fn new(tick_rate_ms: u64, now_ms: u64) -> (r: TickSchedule)
        ensures
            r.tick_rate_ms == tick_rate_ms,
            r.last_tick_ms == now_ms,
    {
        TickSchedule { tick_rate_ms, last_tick_ms: now_ms }
    }

    /// Milliseconds elapsed since the last tick.
    pub fn elapsed(&self, now_ms: u64) -> (r: u64)
        ensures
            r == elapsed_ms(self.last_tick_ms, now_ms),
    {
        if now_ms >= self.last_tick_ms {
            now_ms - self.last_tick_ms
        } else {
            0
        }
    }

    /// Whether a tick is due at `now_ms`.
    pub fn is_tick_due(&self, now_ms: u64) -> (r: bool)
        ensures
            r == self.tick_due(now_ms),
    {
        self.elapsed(now_ms) >= self.tick_rate_ms
    }

    /// How long to wait for input at `now_ms`: the time left until the next
    /// tick, or zero when a tick is already due.
    pub fn poll_timeout(&self, now_ms: u64) -> (r: u64)
        ensures
            r == self.spec_timeout(now_ms),
    {
        let elapsed = self.elapsed(now_ms);
        if elapsed >= self.tick_rate_ms {
            0
        } else {
            self.tick_rate_ms - elapsed
        }
    }

    /// Decides what to deliver after a wait for input that ended at `now_ms`:
    /// the input, if one arrived, then a tick if one is due, in that order.
    /// Emitting a tick restarts the clock at `now_ms`. The input is what the
    /// terminal delivered, never a tick: ticks come from the schedule alone.
    pub fn after_poll(&mut self, input: Option<Event>, now_ms: u64) -> (out: Vec<Event>)
        requires
            !(input matches Some(Event::Tick)),
        ensures
            out@ == old(self).spec_deliveries(input, now_ms),
            *final(self) == old(self).spec_after(now_ms),
    {
        let mut out: Vec<Event> = Vec::new();
        match input {
            Some(e) => out.push(e),
            None => {},
        }
        if self.is_tick_due(now_ms) {
            out.push(Event::Tick);
            self.last_tick_ms = now_ms;
        }
        out
    }
}

/// Ticks are never starved: when no input arrives and a wait lasts its full
/// timeout, the wait ends with exactly one tick and the clock restarts, so the
/// same holds of the next period, indefinitely.
pub proof fn lemma_tick_not_starved(s: TickSchedule, now: u64, later: u64)
    requires
        s.last_tick_ms <= now,
        now + s.spec_timeout(now) <= later,
    ensures
        s.spec_deliveries(None, later) == seq![Event::Tick],
        s.spec_after(later) == (TickSchedule { tick_rate_ms: s.tick_rate_ms, last_tick_ms: later }),
{
    assert(s.tick_due(later));
    assert(Seq::<Event>::empty().push(Event::Tick) =~= seq![Event::Tick]);
}

} // verus!
