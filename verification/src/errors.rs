use vstd::prelude::*;
use vstd::string::StringExecFns;

verus! {

/// The failures the tool can report. The backend, stream, encoding and
/// terminal failures carry the text of the underlying error; an unrecognized
/// menu keystroke carries the offending character.
#[derive(Debug)]
pub enum PruneError {
    Backend { detail: String },
    Io { detail: String },
    Encoding { detail: String },
    TerminalMode { detail: String },
    InvalidInput { input: char },
}

/// The message shown for an unrecognized menu keystroke.
pub open spec fn invalid_input_text(c: char) -> Seq<char> {
    "Invalid input. Don't know what '"@ + seq![c] + "' means"@
}

impl PruneError {
    /// The text this error prints: wrapped failures show their own text, an
    /// unrecognized keystroke is named in a fixed sentence.
    pub open spec fn message_text(self) -> Seq<char> {
        match self {
            PruneError::Backend { detail } => detail@,
            PruneError::Io { detail } => detail@,
            PruneError::Encoding { detail } => detail@,
            PruneError::TerminalMode { detail } => detail@,
            PruneError::InvalidInput { input } => invalid_input_text(input),
        }
    }

    pub fn message(&self) -> (r: String)
        ensures
            r@ == self.message_text(),
    {
        match self {
            PruneError::Backend { detail } => detail.clone(),
            PruneError::Io { detail } => detail.clone(),
            PruneError::Encoding { detail } => detail.clone(),
            PruneError::TerminalMode { detail } => detail.clone(),
            PruneError::InvalidInput { input } => {
                let mut s = String::from_str("Invalid input. Don't know what '");
                let c = crate::render::char_text(*input);
                s.append(c.as_str());
                s.append("' means");
                s
            },
        }
    }
}

} // verus!
