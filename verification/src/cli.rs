//! What the command line asks for.

use vstd::prelude::*;

verus! {

/// The rate at which words are shown where none is asked for.
pub const DEFAULT_WPM: u64 = 300;

/// The arguments of the command line.
#[derive(Debug)]
pub struct Args {
    /// Text to read.
    pub text: Option<String>,
    /// File to read text from.
    pub file: Option<String>,
    /// Words per minute.
    pub wpm: u64,
    /// Inline mode.
    pub inline: Option<bool>,
}

/// Where the text to read comes from.
#[derive(Debug)]
pub enum ContentSource {
    /// The file of this name holds it.
    File(String),
    /// It was given on the command line.
    Text(String),
}

/// The arguments name no single source of text.
#[derive(Clone, Copy, Debug, PartialEq, Eq)]
pub struct MissingInputError;

impl MissingInputError {
    /// The words in which the failure is reported.
    pub fn message(&self) -> (text: String)
        ensures
            text@ == "Either --text or --file must be provided"@,
    {
        "Either --text or --file must be provided".to_owned()
    }
}

impl Args {
    /// Whether inline mode is asked for; the full screen is used where
    /// nothing is said.
    pub fn is_inline(&self) -> (inline: bool)
        ensures
            inline == (self.inline == Some(true)),
    {
        match self.inline {
            Some(inline) => inline,
            None => false,
        }
    }
}

/// Finds the source of the text: the file if only a file is named, the
/// text if only a text is given. Neither or both is a failure.
pub fn get_content(args: &Args) -> (result: Result<ContentSource, MissingInputError>)
    ensures
        match result {
            Ok(ContentSource::File(name)) => args.text is None && args.file == Some(name),
            Ok(ContentSource::Text(content)) => args.file is None && args.text == Some(content),
            Err(_) => (args.file is Some) == (args.text is Some),
        },
{
    match (&args.file, &args.text) {
        (Some(file), None) => Ok(ContentSource::File(file.clone())),
        (None, Some(text)) => Ok(ContentSource::Text(text.clone())),
        _ => Err(MissingInputError),
    }
}

} // verus!
