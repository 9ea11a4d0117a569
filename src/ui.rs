//! The text that the screen shows for a state: the heading of the main
//! panel and the status line.
use vstd::prelude::*;
use vstd::string::*;
use crate::app::{App, Section};

verus! {

/// Status line shown in normal mode.
pub const NORMAL_STATUS: &'static str = " Normal Mode - Presiona ':' para comando, 'q' para salir ";

/// Prefix of the status line in command mode, before the typed text.
pub const COMMAND_PROMPT: &'static str = ": ";

/// Prefix of the main panel's heading, before the section's name.
pub const SECTION_HEADING: &'static str = "Sección actual: ";

impl Section {
    /// The section's display name.
    pub open spec fn spec_name(self) -> Seq<char> {
        match self {
            Section::Dashboard => "Dashboard"@,
            Section::Profile => "Profile"@,
            Section::Projects => "Projects"@,
            Section::Experience => "Experience"@,
            Section::Skills => "Skills"@,
            Section::Contact => "Contact"@,
        }
    }

    /// The section's display name.
    pub fn name(&self) -> (r: &'static str)
        ensures
            r@ == self.spec_name(),
    {
        match self {
            Section::Dashboard => "Dashboard",
            Section::Profile => "Profile",
            Section::Projects => "Projects",
            Section::Experience => "Experience",
            Section::Skills => "Skills",
            Section::Contact => "Contact",
        }
    }
}

/// The status line: in command mode the prompt followed by the typed text,
/// otherwise the fixed normal-mode hint.
pub open spec fn spec_status_line(app: &App) -> Seq<char> {
    if app.command_mode {
        COMMAND_PROMPT@ + app.command_buffer@
    } else {
        NORMAL_STATUS@
    }
}

/// The status line for the current state.
pub fn status_line(app: &App) -> (r: String)
    ensures
        r@ == spec_status_line(app),
{
    if app.command_mode {
        let mut line = String::from_str(COMMAND_PROMPT);
        line.append(app.command_buffer.as_str());
        line
    } else {
        String::from_str(NORMAL_STATUS)
    }
}

/// The heading of the main panel: the prefix followed by the section's name.
pub fn section_heading(app: &App) -> (r: String)
    ensures
        r@ == SECTION_HEADING@ + app.current_section.spec_name(),
{
    let mut line = String::from_str(SECTION_HEADING);
    line.append(app.current_section.name());
    line
}

} // verus!
