//! The form in which a replacement of frames is ordered: three file paths
//! and four frame numbers, all kept as the text that the user sees.  The
//! form decides what follows from a message; asking the user for a file is
//! left to whoever shows the form.

use vstd::prelude::*;
use crate::decimal::decimal_text;
use crate::decimal::parse_decimal;
use crate::decimal::parsed;
use crate::decimal::written;

verus! {

/// What can happen to the form.
#[derive(Clone, Debug, PartialEq, Eq)]
pub enum ReplacementMessage {
    BaseM64Changed(String),
    ReplacementM64Changed(String),
    OutputM64Changed(String),
    BaseStartChanged(String),
    BaseEndChanged(String),
    ReplacementStartChanged(String),
    ReplacementEndChanged(String),
    BaseFileSearch,
    ReplacementFileSearch,
    OutputFileSearch,
    ReplaceFrames,
}

/// What is to be done after a message, beyond the change of the form.
#[derive(Clone, Copy, Debug, PartialEq, Eq, Structural)]
pub enum ReplacementAction {
    /// Nothing more.
    Nothing,
    /// Ask for the base file; its path comes back as `BaseM64Changed`.
    PickBaseFile,
    /// Ask for the replacement file; its path comes back as
    /// `ReplacementM64Changed`.
    PickReplacementFile,
    /// Ask for the output file; its path comes back as `OutputM64Changed`.
    PickOutputFile,
    /// Carry out the replacement that the form describes.
    ReplaceFrames,
}

/// The fields of the form.
#[derive(Clone, Debug, PartialEq, Eq)]
pub struct ReplacementTab {
    pub base_m64: String,
    pub replacement_m64: String,
    pub output_m64: String,
    pub base_start: String,
    pub base_end: String,
    pub replacement_start: String,
    pub replacement_end: String,
}

/// The fields of the form as plain text.
pub struct TabView {
    pub base_m64: Seq<char>,
    pub replacement_m64: Seq<char>,
    pub output_m64: Seq<char>,
    pub base_start: Seq<char>,
    pub base_end: Seq<char>,
    pub replacement_start: Seq<char>,
    pub replacement_end: Seq<char>,
}

impl View for ReplacementTab {
    type V = TabView;

    open spec fn view(&self) -> TabView {
        TabView {
            base_m64: self.base_m64@,
            replacement_m64: self.replacement_m64@,
            output_m64: self.output_m64@,
            base_start: self.base_start@,
            base_end: self.base_end@,
            replacement_start: self.replacement_start@,
            replacement_end: self.replacement_end@,
        }
    }
}

impl TabView {
    /// The form with every field empty.
    pub open spec fn blank() -> TabView {
        TabView {
            base_m64: Seq::empty(),
            replacement_m64: Seq::empty(),
            output_m64: Seq::empty(),
            base_start: Seq::empty(),
            base_end: Seq::empty(),
            replacement_start: Seq::empty(),
            replacement_end: Seq::empty(),
        }
    }

    /// The form after `message`: a change takes its text into its field,
    /// and nothing else changes the form.
    pub open spec fn after(self, message: ReplacementMessage) -> TabView {
        match message {
            ReplacementMessage::BaseM64Changed(text) => TabView { base_m64: text@, ..self },
            ReplacementMessage::ReplacementM64Changed(text) => TabView {
                replacement_m64: text@,
                ..self
            },
            ReplacementMessage::OutputM64Changed(text) => TabView { output_m64: text@, ..self },
            ReplacementMessage::BaseStartChanged(text) => TabView { base_start: text@, ..self },
            ReplacementMessage::BaseEndChanged(text) => TabView { base_end: text@, ..self },
            ReplacementMessage::ReplacementStartChanged(text) => TabView {
                replacement_start: text@,
                ..self
            },
            ReplacementMessage::ReplacementEndChanged(text) => TabView {
                replacement_end: text@,
                ..self
            },
            ReplacementMessage::BaseFileSearch => self,
            ReplacementMessage::ReplacementFileSearch => self,
            ReplacementMessage::OutputFileSearch => self,
            ReplacementMessage::ReplaceFrames => self,
        }
    }
}

/// What `message` asks for beyond a change of the form.
pub open spec fn asked(message: ReplacementMessage) -> ReplacementAction {
    match message {
        ReplacementMessage::BaseFileSearch => ReplacementAction::PickBaseFile,
        ReplacementMessage::ReplacementFileSearch => ReplacementAction::PickReplacementFile,
        ReplacementMessage::OutputFileSearch => ReplacementAction::PickOutputFile,
        ReplacementMessage::ReplaceFrames => ReplacementAction::ReplaceFrames,
        _ => ReplacementAction::Nothing,
    }
}

/// What a frame field shows after `typed` was entered while it showed
/// `current`: a number is shown as it is written, anything else that is not
/// empty leaves the field as it was, and an empty entry empties it.
pub open spec fn entered(current: Seq<char>, typed: Seq<char>) -> Seq<char> {
    match parsed(typed) {
        Some(number) => written(number as nat),
        None => if typed.len() != 0 {
            current
        } else {
            Seq::empty()
        },
    }
}

/// The text for a frame field that shows `current` when `typed` is entered.
pub fn frame_entry(current: &str, typed: &str) -> (text: String)
    ensures
        text@ == entered(current@, typed@),
{
    match parse_decimal(typed) {
        Some(number) => decimal_text(number),
        None => {
            if typed.unicode_len() != 0 {
                String::from_str(current)
            } else {
                String::new()
            }
        },
    }
}

impl Default for ReplacementTab {
    /// The form with every field empty.
    fn default() -> (tab: ReplacementTab)
        ensures
            tab@ == TabView::blank(),
    {
        ReplacementTab::new()
    }
}

impl ReplacementTab {
    /// The form with every field empty.
    pub fn new() -> (tab: ReplacementTab)
        ensures
            tab@ == TabView::blank(),
    {
        ReplacementTab {
            base_m64: String::new(),
            replacement_m64: String::new(),
            output_m64: String::new(),
            base_start: String::new(),
            base_end: String::new(),
            replacement_start: String::new(),
            replacement_end: String::new(),
        }
    }

    /// Takes `message` into the form and tells what is to be done next.
    pub fn update(&mut self, message: ReplacementMessage) -> (action: ReplacementAction)
        ensures
            final(self)@ == old(self)@.after(message),
            action == asked(message),
    {
        match message {
            ReplacementMessage::BaseM64Changed(text) => {
                self.base_m64 = text;
                ReplacementAction::Nothing
            },
            ReplacementMessage::ReplacementM64Changed(text) => {
                self.replacement_m64 = text;
                ReplacementAction::Nothing
            },
            ReplacementMessage::OutputM64Changed(text) => {
                self.output_m64 = text;
                ReplacementAction::Nothing
            },
            ReplacementMessage::BaseStartChanged(text) => {
                self.base_start = text;
                ReplacementAction::Nothing
            },
            ReplacementMessage::BaseEndChanged(text) => {
                self.base_end = text;
                ReplacementAction::Nothing
            },
            ReplacementMessage::ReplacementStartChanged(text) => {
                self.replacement_start = text;
                ReplacementAction::Nothing
            },
            ReplacementMessage::ReplacementEndChanged(text) => {
                self.replacement_end = text;
                ReplacementAction::Nothing
            },
            ReplacementMessage::BaseFileSearch => ReplacementAction::PickBaseFile,
            ReplacementMessage::ReplacementFileSearch => ReplacementAction::PickReplacementFile,
            ReplacementMessage::OutputFileSearch => ReplacementAction::PickOutputFile,
            ReplacementMessage::ReplaceFrames => ReplacementAction::ReplaceFrames,
        }
    }
}

} // verus!
