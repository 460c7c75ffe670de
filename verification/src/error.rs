//! The error model of the tool.
//!
//! Every failure is one of five kinds: the input cannot be read, the input is
//! not a valid cue sheet, a required field is missing from an otherwise valid
//! disc, the requested output destinations conflict, or the output cannot be
//! written. Missing-field errors name the field.

use vstd::prelude::*;

verus! {

/// A required field of the disc model.
#[derive(Clone, Copy, Debug, PartialEq, Eq, Structural)]
pub enum Field {
    Performer,
    Title,
    Date,
    Genre,
    TrackTitle,
    TrackPerformer,
}

/// What is wrong with the requested configuration.
#[derive(Clone, Copy, Debug, PartialEq, Eq, Structural)]
pub enum ConfigIssue {
    /// No input path was supplied.
    NoInput,
    /// An explicit output path and in-place overwrite were both requested.
    ConflictingOutputs,
}

/// A failure of the whole run, by cause.
#[derive(Clone, Copy, Debug, PartialEq, Eq, Structural)]
pub enum CueError {
    /// The source file is missing or unreadable.
    InputAccess,
    /// The input is not a syntactically valid cue sheet.
    Parse,
    /// A required disc- or track-level field is absent.
    MissingField(Field),
    /// The requested options conflict or are incomplete.
    Config(ConfigIssue),
    /// The destination cannot be written or replaced.
    OutputAccess,
}

impl Field {
    /// The field's name as it appears in error messages.
    pub open spec fn name_spec(self) -> Seq<char> {
        match self {
            Field::Performer => "performer"@,
            Field::Title => "title"@,
            Field::Date => "date"@,
            Field::Genre => "genre"@,
            Field::TrackTitle => "track title"@,
            Field::TrackPerformer => "track performer"@,
        }
    }

    /// Returns the field's name.
    pub fn name(&self) -> (r: String)
        ensures
            r@ == self.name_spec(),
    {
        match self {
            Field::Performer => String::from_str("performer"),
            Field::Title => String::from_str("title"),
            Field::Date => String::from_str("date"),
            Field::Genre => String::from_str("genre"),
            Field::TrackTitle => String::from_str("track title"),
            Field::TrackPerformer => String::from_str("track performer"),
        }
    }
}

impl CueError {
    /// The human-readable message for this error.
    pub open spec fn message_spec(self) -> Seq<char> {
        match self {
            CueError::InputAccess => "input file cannot be read"@,
            CueError::Parse => "input is not a valid cue sheet"@,
            CueError::MissingField(f) => f.name_spec() + " is not found"@,
            CueError::Config(ConfigIssue::NoInput) => "input is not given"@,
            CueError::Config(ConfigIssue::ConflictingOutputs) => (
            "`overwrite` option conflicts `output` option"@),
            CueError::OutputAccess => "output file cannot be written"@,
        }
    }

    /// Returns the human-readable message for this error.
    pub fn message(&self) -> (r: String)
        ensures
            r@ == self.message_spec(),
    {
        match self {
            CueError::InputAccess => String::from_str("input file cannot be read"),
            CueError::Parse => String::from_str("input is not a valid cue sheet"),
            CueError::MissingField(f) => {
                let mut m = f.name();
                m.append(" is not found");
                m
            },
            CueError::Config(ConfigIssue::NoInput) => String::from_str("input is not given"),
            CueError::Config(ConfigIssue::ConflictingOutputs) => String::from_str(
                "`overwrite` option conflicts `output` option",
            ),
            CueError::OutputAccess => String::from_str("output file cannot be written"),
        }
    }
}

} // verus!
