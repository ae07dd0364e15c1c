use vstd::prelude::*;
use crate::errors::PruneError;

verus! {

/// What the user asks the tool to do with the branch on show.
#[derive(PartialEq, Eq, Structural, Clone, Copy, Debug)]
pub enum BranchAction {
    Keep,
    Delete,
    Quit,
    Undo,
}

/// The menu: which keystroke names which action. Everything else, the help
/// key aside, is rejected.
pub open spec fn action_for(c: char) -> Option<BranchAction> {
    if c == 'k' {
        Some(BranchAction::Keep)
    } else if c == 'd' {
        Some(BranchAction::Delete)
    } else if c == 'q' {
        Some(BranchAction::Quit)
    } else if c == 'u' {
        Some(BranchAction::Undo)
    } else {
        None
    }
}

/// Parses one menu keystroke, case-sensitively; an unrecognized character is
/// the error that aborts the whole run.
pub fn action_from_char(c: char) -> (r: Result<BranchAction, PruneError>)
    ensures
        r matches Ok(a) ==> action_for(c) == Some(a),
        r is Ok <==> action_for(c) is Some,
        r matches Err(e) ==> e == (PruneError::InvalidInput { input: c }),
{
    if c == 'k' {
        Ok(BranchAction::Keep)
    } else if c == 'd' {
        Ok(BranchAction::Delete)
    } else if c == 'q' {
        Ok(BranchAction::Quit)
    } else if c == 'u' {
        Ok(BranchAction::Undo)
    } else {
        Err(PruneError::InvalidInput { input: c })
    }
}

} // verus!
