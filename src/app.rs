//! Application state and the modal state machine that drives it.
use vstd::prelude::*;
use crate::event::{Event, KeyCode, KeyEvent};

verus! {

/// Relies on `String::push`: appends `ch` to the end of the string.
pub assume_specification[ String::push ](s: &mut String, ch: char)
    ensures
        final(s)@ == old(s)@.push(ch),
;

/// Relies on `String::pop`: removes and returns the last character, or
/// returns `None` and leaves the string as it is when it is empty.
pub assume_specification[ String::pop ](s: &mut String) -> (r: Option<char>)
    ensures
        old(s)@.len() > 0 ==> r == Some(old(s)@.last()) && final(s)@ == old(s)@.drop_last(),
        old(s)@.len() == 0 ==> r == None::<char> && final(s)@ == old(s)@,
;

/// Relies on `String::clear`: truncates the string to length zero.
pub assume_specification[ String::clear ](s: &mut String)
    ensures
        final(s)@ == Seq::<char>::empty(),
;

/// Number of sections in the cycle.
pub const SECTION_COUNT: usize = 6;

/// One of the navigable content categories, in their fixed cyclic order.
#[derive(Debug, Clone, Copy, PartialEq, Eq, Structural)]
pub enum Section {
    Dashboard,
    Profile,
    Projects,
    Experience,
    Skills,
    Contact,
}

impl Section {
    /// Position of the section in the cycle.
    pub open spec fn index(self) -> int {
        match self {
            Section::Dashboard => 0,
            Section::Profile => 1,
            Section::Projects => 2,
            Section::Experience => 3,
            Section::Skills => 4,
            Section::Contact => 5,
        }
    }

    /// The section at position `i` of the cycle (`0 <= i < SECTION_COUNT`).
    pub open spec fn from_index(i: int) -> Section {
        if i == 0 {
            Section::Dashboard
        } else if i == 1 {
            Section::Profile
        } else if i == 2 {
            Section::Projects
        } else if i == 3 {
            Section::Experience
        } else if i == 4 {
            Section::Skills
        } else {
            Section::Contact
        }
    }

    /// The section after this one, wrapping from the last to the first.
    pub open spec fn spec_next(self) -> Section {
        Section::from_index((self.index() + 1) % (SECTION_COUNT as int))
    }

    /// The section before this one, wrapping from the first to the last.
    pub open spec fn spec_previous(self) -> Section {
        Section::from_index((self.index() + SECTION_COUNT - 1) % (SECTION_COUNT as int))
    }

    /// Position of the section in the cycle.
    pub fn position(&self) -> (r: usize)
        ensures
            r == self.index(),
            r < SECTION_COUNT,
    {
        match self {
            Section::Dashboard => 0,
            Section::Profile => 1,
            Section::Projects => 2,
            Section::Experience => 3,
            Section::Skills => 4,
            Section::Contact => 5,
        }
    }

    /// The section at position `i` of the cycle.
    pub fn at(i: usize) -> (r: Section)
        requires
            i < SECTION_COUNT,
        ensures
            r == Section::from_index(i as int),
            r.index() == i,
    {
        let all: [Section; 6] = [
            Section::Dashboard,
            Section::Profile,
            Section::Projects,
            Section::Experience,
            Section::Skills,
            Section::Contact,
        ];
        all[i]
    }

    /// The section after this one, wrapping from the last to the first.
    pub fn next(&self) -> (r: Section)
        ensures
            r == self.spec_next(),
    {
        Section::at((self.position() + 1) % SECTION_COUNT)
    }

    /// The section before this one, wrapping from the first to the last.
    pub fn previous(&self) -> (r: Section)
        ensures
            r == self.spec_previous(),
    {
        Section::at((self.position() + SECTION_COUNT - 1) % SECTION_COUNT)
    }
}

/// The error type of the state machine's operations. No current operation
/// produces it; it keeps the signatures open to fallible commands.
#[derive(Debug, Clone, Copy, PartialEq, Eq, Structural)]
pub struct AppError;

/// Result of a state machine operation.
pub type AppResult<T> = Result<T, AppError>;

/// Application state: the whole of what the state machine owns.
#[derive(Debug)]
pub struct App {
    /// Set once the application should terminate; never cleared.
    pub should_quit: bool,
    /// The section being shown.
    pub current_section: Section,
    /// Whether keys go to the command line (`true`) or navigate (`false`).
    pub command_mode: bool,
    /// Text typed on the command line so far.
    pub command_buffer: String,
}

/// The abstract value of an [`App`], with the command text as characters.
pub ghost struct AppView {
    pub should_quit: bool,
    pub current_section: Section,
    pub command_mode: bool,
    pub command_buffer: Seq<char>,
}

impl View for App {
    type V = AppView;

    open spec fn view(&self) -> AppView {
        AppView {
            should_quit: self.should_quit,
            current_section: self.current_section,
            command_mode: self.command_mode,
            command_buffer: self.command_buffer@,
        }
    }
}

/// The state in which the application starts.
pub open spec fn initial_view() -> AppView {
    AppView {
        should_quit: false,
        current_section: Section::Dashboard,
        command_mode: false,
        command_buffer: Seq::empty(),
    }
}

/// The commands that end the application: `q` and `quit`.
pub open spec fn is_quit_command(cmd: Seq<char>) -> bool {
    cmd == seq!['q'] || cmd == seq!['q', 'u', 'i', 't']
}

/// Running the command line's text: a quit command sets the quit flag;
/// anything else changes nothing.
pub open spec fn execute_step(v: AppView) -> AppView {
    if is_quit_command(v.command_buffer) {
        AppView { should_quit: true, ..v }
    } else {
        v
    }
}

/// A key in normal mode: `q` quits, `:` opens an empty command line,
/// `j`/Down and `k`/Up move through the sections; other keys do nothing.
pub open spec fn normal_step(v: AppView, code: KeyCode) -> AppView {
    match code {
        KeyCode::Char('q') => AppView { should_quit: true, ..v },
        KeyCode::Char(':') => AppView { command_mode: true, command_buffer: Seq::empty(), ..v },
        KeyCode::Char('j') | KeyCode::Down => AppView {
            current_section: v.current_section.spec_next(),
            ..v
        },
        KeyCode::Char('k') | KeyCode::Up => AppView {
            current_section: v.current_section.spec_previous(),
            ..v
        },
        _ => v,
    }
}

/// A key in command mode: Enter runs the command and returns to normal
/// mode with an empty command line, Esc returns to normal mode discarding the text, Backspace removes
/// the last character, a character is appended; other keys do nothing.
pub open spec fn command_step(v: AppView, code: KeyCode) -> AppView {
    match code {
        KeyCode::Enter => AppView {
            command_mode: false,
            command_buffer: Seq::empty(),
            ..execute_step(v)
        },
        KeyCode::Esc => AppView { command_mode: false, command_buffer: Seq::empty(), ..v },
        KeyCode::Backspace => if v.command_buffer.len() > 0 {
            AppView { command_buffer: v.command_buffer.drop_last(), ..v }
        } else {
            v
        },
        KeyCode::Char(c) => AppView { command_buffer: v.command_buffer.push(c), ..v },
        _ => v,
    }
}

/// One event: a key goes to the table of the current mode; mouse events
/// and ticks change nothing.
pub open spec fn event_step(v: AppView, e: Event) -> AppView {
    match e {
        Event::Key(k) => if v.command_mode {
            command_step(v, k.code)
        } else {
            normal_step(v, k.code)
        },
        _ => v,
    }
}

impl App {
    /// A fresh application: not quitting, on the dashboard, in normal mode,
    /// with an empty command line.
    pub fn new() -> (r: App)
        ensures
            r@ == initial_view(),
    {
        App {
            should_quit: false,
            current_section: Section::Dashboard,
            command_mode: false,
            command_buffer: String::new(),
        }
    }

    /// Applies one event to the state. Never fails.
    pub fn handle_event(&mut self, event: Event) -> (r: AppResult<()>)
        ensures
            r is Ok,
            final(self)@ == event_step(old(self)@, event),
    {
        if let Event::Key(key_event) = event {
            if self.command_mode {
                self.handle_command_mode(key_event)
            } else {
                self.handle_normal_mode(key_event)
            }
        } else {
            Ok(())
        }
    }

    /// Applies a key in normal mode.
    pub fn handle_normal_mode(&mut self, key_event: KeyEvent) -> (r: AppResult<()>)
        ensures
            r is Ok,
            final(self)@ == normal_step(old(self)@, key_event.code),
    {
        match key_event.code {
            KeyCode::Char('q') => self.should_quit = true,
            KeyCode::Char(':') => {
                self.command_mode = true;
                self.command_buffer.clear();
            },
            KeyCode::Char('j') | KeyCode::Down => self.next_section(),
            KeyCode::Char('k') | KeyCode::Up => self.previous_section(),
            _ => {},
        }
        Ok(())
    }

    /// Applies a key in command mode.
    pub fn handle_command_mode(&mut self, key_event: KeyEvent) -> (r: AppResult<()>)
        ensures
            r is Ok,
            final(self)@ == command_step(old(self)@, key_event.code),
    {
        match key_event.code {
            KeyCode::Enter => {
                self.execute_command()?;
                self.command_mode = false;
                self.command_buffer.clear();
            },
            KeyCode::Esc => {
                self.command_mode = false;
                self.command_buffer.clear();
            },
            KeyCode::Backspace => {
                self.command_buffer.pop();
            },
            KeyCode::Char(c) => {
                self.command_buffer.push(c);
            },
            _ => {},
        }
        Ok(())
    }

    /// Runs the text of the command line. `q` and `quit` set the quit flag;
    /// any other text is silently ignored.
    pub fn execute_command(&mut self) -> (r: AppResult<()>)
        ensures
            r is Ok,
            final(self)@ == execute_step(old(self)@),
    {
        if is_quit(self.command_buffer.as_str()) {
            self.should_quit = true;
        }
        Ok(())
    }

    /// Moves to the next section, wrapping from the last to the first.
    pub fn next_section(&mut self)
        ensures
            final(self)@ == (AppView { current_section: old(self)@.current_section.spec_next(), ..old(self)@ }),
    {
        self.current_section = self.current_section.next();
    }

    /// Moves to the previous section, wrapping from the first to the last.
    pub fn previous_section(&mut self)
        ensures
            final(self)@ == (AppView { current_section: old(self)@.current_section.spec_previous(), ..old(self)@ }),
    {
        self.current_section = self.current_section.previous();
    }
}

/// Whether `cmd` is one of the quit commands.
pub fn is_quit(cmd: &str) -> (r: bool)
    ensures
        r == is_quit_command(cmd@),
{
    let n = cmd.unicode_len();
    if n == 1 {
        let r = cmd.get_char(0) == 'q';
        proof {
            if r {
                assert(cmd@ =~= seq!['q']);
            }
        }
        r
    } else if n == 4 {
        let r = cmd.get_char(0) == 'q' && cmd.get_char(1) == 'u' && cmd.get_char(2) == 'i'
            && cmd.get_char(3) == 't';
        proof {
            if r {
                assert(cmd@ =~= seq!['q', 'u', 'i', 't']);
            }
        }
        r
    } else {
        false
    }
}

/// The state after delivering `events` in order, starting from `v`.
pub open spec fn run(v: AppView, events: Seq<Event>) -> AppView
    decreases events.len(),
{
    if events.len() == 0 {
        v
    } else {
        run(event_step(v, events[0]), events.drop_first())
    }
}

/// The command line is empty right after every entry into command mode and
/// right after every Esc in command mode, which always returns to normal mode.
pub proof fn lemma_command_line_cleared(v: AppView, e: Event)
    ensures
        !v.command_mode && event_step(v, e).command_mode ==> event_step(v, e).command_buffer
            == Seq::<char>::empty(),
        v.command_mode && (e matches Event::Key(k) && k.code == KeyCode::Esc) ==> {
            &&& !event_step(v, e).command_mode
            &&& event_step(v, e).command_buffer == Seq::<char>::empty()
        },
{
}

/// Running a command that is neither `q` nor `quit` leaves the quit flag and
/// the section as they were; it only returns to normal mode with an empty
/// command line.
pub proof fn lemma_unknown_command_changes_nothing(v: AppView, k: KeyEvent)
    requires
        v.command_mode,
        k.code == KeyCode::Enter,
        !is_quit_command(v.command_buffer),
    ensures
        event_step(v, Event::Key(k)) == (AppView {
            command_mode: false,
            command_buffer: Seq::empty(),
            ..v
        }),
{
}

/// The command line holds text only in command mode: if it is empty whenever
/// the state is in normal mode, the same holds after any event.
pub proof fn lemma_text_only_in_command_mode(v: AppView, e: Event)
    requires
        !v.command_mode ==> v.command_buffer.len() == 0,
    ensures
        !event_step(v, e).command_mode ==> event_step(v, e).command_buffer.len() == 0,
{
}

/// From any state where the command line holds text only in command mode (the
/// initial state among them), every sequence of events keeps it so.
pub proof fn lemma_text_only_in_command_mode_over_run(v: AppView, events: Seq<Event>)
    requires
        !v.command_mode ==> v.command_buffer.len() == 0,
    ensures
        !run(v, events).command_mode ==> run(v, events).command_buffer.len() == 0,
    decreases events.len(),
{
    if events.len() > 0 {
        lemma_text_only_in_command_mode(v, events[0]);
        lemma_text_only_in_command_mode_over_run(event_step(v, events[0]), events.drop_first());
    }
}

/// Once the quit flag is set, no event clears it.
pub proof fn lemma_quit_stays_set(v: AppView, e: Event)
    requires
        v.should_quit,
    ensures
        event_step(v, e).should_quit,
{
}

/// Once the quit flag is set, no sequence of events clears it.
pub proof fn lemma_quit_stays_set_over_run(v: AppView, events: Seq<Event>)
    requires
        v.should_quit,
    ensures
        run(v, events).should_quit,
    decreases events.len(),
{
    if events.len() > 0 {
        lemma_quit_stays_set(v, events[0]);
        lemma_quit_stays_set_over_run(event_step(v, events[0]), events.drop_first());
    }
}

/// Moving forward then back, or back then forward, returns to the same section.
pub proof fn lemma_cyclic_order(s: Section)
    ensures
        s.spec_next().spec_previous() == s,
        s.spec_previous().spec_next() == s,
{
}

} // verus!
