use vstd::prelude::*;
use crate::action::{action_for, BranchAction};
use crate::branch::BranchInfo;
use crate::errors::PruneError;
use crate::render;

verus! {

/// What the loop around the session should do next: print a line and pass the
/// checked-out branch over, print a prompt and read one keystroke, or stop.
pub enum Turn {
    Skip { line: String },
    Ask { line: String },
    Done,
}

/// What one keystroke did. `Deleted` and `Undone` name the branch the backend
/// must delete or recreate; `Skipped` stands for a branch passed over without
/// a prompt.
#[derive(Debug)]
pub enum Event {
    Skipped { name: String },
    Helped,
    Kept,
    Deleted { name: String, id: String },
    QuitRequested,
    Undone { name: String, id: String },
    NothingToUndo,
    Rejected { input: char },
}

/// The keystrokes a prompt accepts: the four actions and the help key.
pub open spec fn accepted_key(c: char) -> bool {
    c == '?' || action_for(c) is Some
}

/// The interactive pruning loop's whole state: the branches in presentation
/// order, the position of the branch on show, the single-slot undo buffer,
/// and whether the run has stopped.
pub struct Session {
    pub branches: Vec<BranchInfo>,
    pub next_idx: usize,
    pub undo_slot: Option<BranchInfo>,
    pub stopped: bool,
}

impl Session {
    pub open spec fn wf(self) -> bool {
        &&& self.next_idx <= self.branches@.len() <= usize::MAX
        &&& forall|i: int| 0 <= i < self.branches@.len() ==> (#[trigger] self.branches@[i]).wf()
    }

    /// No branch is left to present: the user quit, a keystroke was rejected,
    /// or the list ran out.
    pub open spec fn finished(self) -> bool {
        self.stopped || self.next_idx == self.branches@.len()
    }

    /// The branch on show.
    pub open spec fn current(self) -> BranchInfo {
        self.branches@[self.next_idx as int]
    }

    /// The branch on show is checked out: it is passed over, never prompted.
    pub open spec fn at_skip(self) -> bool {
        !self.finished() && self.current().is_head
    }

    /// The branch on show awaits a keystroke.
    pub open spec fn at_prompt(self) -> bool {
        !self.finished() && !self.current().is_head
    }

    /// The same state, moved past the branch on show.
    pub open spec fn advanced(self) -> Session {
        Session {
            branches: self.branches,
            next_idx: (self.next_idx + 1) as usize,
            undo_slot: self.undo_slot,
            stopped: self.stopped,
        }
    }

    /// The same state with the undo buffer replaced.
    pub open spec fn with_undo(self, slot: Option<BranchInfo>) -> Session {
        Session {
            branches: self.branches,
            next_idx: self.next_idx,
            undo_slot: slot,
            stopped: self.stopped,
        }
    }

    /// The same state, stopped for good.
    pub open spec fn halted(self) -> Session {
        Session {
            branches: self.branches,
            next_idx: self.next_idx,
            undo_slot: self.undo_slot,
            stopped: true,
        }
    }
}

/// What one keystroke at a prompt does to the state, and the event it
/// reports: help leaves everything as it is, keep moves on, delete moves on
/// and parks the branch in the undo buffer, quit stops the run, undo empties
/// the buffer and stays on the same branch, and anything else stops the run
/// rejected.
pub open spec fn apply_step(s: Session, c: char) -> (Session, Event) {
    if c == '?' {
        (s, Event::Helped)
    } else {
        match action_for(c) {
            Some(BranchAction::Keep) => (s.advanced(), Event::Kept),
            Some(BranchAction::Delete) => (
                s.advanced().with_undo(Some(s.current())),
                Event::Deleted { name: s.current().name, id: s.current().id },
            ),
            Some(BranchAction::Quit) => (s.halted(), Event::QuitRequested),
            Some(BranchAction::Undo) => match s.undo_slot {
                Some(b) => (s.with_undo(None), Event::Undone { name: b.name, id: b.id }),
                None => (s, Event::NothingToUndo),
            },
            None => (s.halted(), Event::Rejected { input: c }),
        }
    }
}

impl Session {
    /// A fresh session over an already filtered and ordered branch list.
    pub fn new(branches: Vec<BranchInfo>) -> (s: Session)
        requires
            forall|i: int| 0 <= i < branches@.len() ==> (#[trigger] branches@[i]).wf(),
        ensures
            s.wf(),
            s.branches == branches,
            s.next_idx == 0,
            s.undo_slot is None,
            !s.stopped,
    {
        proof {
            vstd::std_specs::vec::axiom_spec_len(&branches);
        }
        Session { branches, next_idx: 0, undo_slot: None, stopped: false }
    }

    /// Whether any branch at all survived the filter.
    pub fn is_empty(&self) -> (r: bool)
        ensures
            r == (self.branches@.len() == 0),
    {
        self.branches.len() == 0
    }

    /// Moves the loop along: a checked-out branch is passed over with its
    /// skip line, a finished session says so, and otherwise the branch on
    /// show is rendered as a prompt and the state stays put.
    pub fn next_turn(&mut self) -> (r: Turn)
        requires
            old(self).wf(),
        ensures
            final(self).wf(),
            old(self).finished() ==> *final(self) == *old(self) && r is Done,
            old(self).at_skip() ==> *final(self) == old(self).advanced() && (r matches Turn::Skip {
                line,
            } && line@ == render::skip_text(old(self).current().name@)),
            old(self).at_prompt() ==> *final(self) == *old(self) && (r matches Turn::Ask { line }
                && line@ == render::prompt_text(old(self).current())),
    {
        if self.stopped || self.next_idx == self.branches.len() {
            return Turn::Done;
        }
        let b = &self.branches[self.next_idx];
        if b.is_head {
            let line = render::skip_line(&b.name);
            self.next_idx = self.next_idx + 1;
            Turn::Skip { line }
        } else {
            let line = render::prompt_line(b);
            Turn::Ask { line }
        }
    }

    /// Applies one keystroke at a prompt. The state moves exactly as
    /// `apply_step` says; an accepted key reports its event, any other key is
    /// the error that ends the run.
    pub fn apply(&mut self, c: char) -> (r: Result<Event, PruneError>)
        requires
            old(self).wf(),
            old(self).at_prompt(),
        ensures
            final(self).wf(),
            *final(self) == apply_step(*old(self), c).0,
            r matches Ok(ev) ==> ev == apply_step(*old(self), c).1,
            r is Ok <==> accepted_key(c),
            r matches Err(e) ==> e == (PruneError::InvalidInput { input: c }),
    {
        if c == '?' {
            return Ok(Event::Helped);
        }
        proof {
            broadcast use vstd::std_specs::vec::axiom_spec_len;

            assert(self.branches.len() == self.branches@.len());
            assert(old(self).next_idx < old(self).branches@.len());
        }
        match crate::action::action_from_char(c) {
            Ok(BranchAction::Keep) => {
                self.next_idx = self.next_idx + 1;
                Ok(Event::Kept)
            },
            Ok(BranchAction::Delete) => {
                let cur = self.branches[self.next_idx].duplicate();
                let name = cur.name.clone();
                let id = cur.id.clone();
                self.undo_slot = Some(cur);
                self.next_idx = self.next_idx + 1;
                Ok(Event::Deleted { name, id })
            },
            Ok(BranchAction::Quit) => {
                self.stopped = true;
                Ok(Event::QuitRequested)
            },
            Ok(BranchAction::Undo) => {
                match self.undo_slot.take() {
                    Some(b) => Ok(Event::Undone { name: b.name, id: b.id }),
                    None => Ok(Event::NothingToUndo),
                }
            },
            Err(e) => {
                self.stopped = true;
                Err(e)
            },
        }
    }
}

} // verus!
