use vstd::prelude::*;
use crate::branch::BranchInfo;
use crate::timefmt::time_text;
use vstd::string::StrSliceExecFns;
use vstd::string::StringExecFns;

verus! {

/// Relies on the standard `Display` of `char` through `ToString`: the
/// resulting string holds exactly the one character.
#[verifier::external_body]
pub(crate) fn char_text(c: char) -> (r: String)
    ensures
        r@ == seq![c],
{
    c.to_string()
}

/// The line shown when the repository has no branch to offer.
pub open spec fn no_branches_text() -> Seq<char> {
    "Found no branches (we ignore 'master')\r\n"@
}

pub fn no_branches_line() -> (r: String)
    ensures
        r@ == no_branches_text(),
{
    String::from_str("Found no branches (we ignore 'master')\r\n")
}

/// The line shown when the checked-out branch comes up and is passed over.
pub open spec fn skip_text(name: Seq<char>) -> Seq<char> {
    "Ignoring '"@ + name + "' because it is the current branch\r\n"@
}

pub fn skip_line(name: &String) -> (r: String)
    ensures
        r@ == skip_text(name@),
{
    let mut s = String::from_str("Ignoring '");
    s.append(name.as_str());
    s.append("' because it is the current branch\r\n");
    s
}

/// The prompt for one branch: its name, the first ten characters of its
/// commit id, its local timestamp, and the menu cue.
pub open spec fn prompt_text(b: BranchInfo) -> Seq<char> {
    "'"@ + b.name@ + "' ("@ + b.id@.subrange(0, 10) + ") last commit at "@ + time_text(
        b.time_secs as int,
    ) + " (k/d/q/u/?) > "@
}

pub fn prompt_line(b: &BranchInfo) -> (r: String)
    requires
        b.wf(),
    ensures
        r@ == prompt_text(*b),
{
    let mut s = String::from_str("'");
    s.append(b.name.as_str());
    s.append("' (");
    s.append(b.id.as_str().substring_ascii(0, 10));
    s.append(") last commit at ");
    let t = crate::timefmt::format_local_time(b.time_secs);
    s.append(t.as_str());
    s.append(" (k/d/q/u/?) > ");
    s
}

/// The echo of the one keystroke the user typed.
pub open spec fn echo_text(c: char) -> Seq<char> {
    seq![c] + "\r\n"@
}

pub fn echo_line(c: char) -> (r: String)
    ensures
        r@ == echo_text(c),
{
    let mut s = char_text(c);
    s.append("\r\n");
    s
}

/// The help block: a header and one line for each key the menu accepts.
pub open spec fn help_text() -> Seq<char> {
    "Here are what the commands mean\r\nk - Keep the branch\r\nd - Delete the branch\r\nu - Undo last deleted branch\r\nq - Quit\r\n? - Show this help text\r\n"@
}

pub fn help_lines() -> (r: String)
    ensures
        r@ == help_text(),
{
    String::from_str(
        "Here are what the commands mean\r\nk - Keep the branch\r\nd - Delete the branch\r\nu - Undo last deleted branch\r\nq - Quit\r\n? - Show this help text\r\n",
    )
}

/// The confirmation printed after a deletion, with the exact command that
/// recreates the branch.
pub open spec fn deleted_text(name: Seq<char>, id: Seq<char>) -> Seq<char> {
    "Deleted branch '"@ + name + "', to undo run `git branch "@ + name + " "@ + id + "`\r\n"@
}

pub fn deleted_line(name: &String, id: &String) -> (r: String)
    ensures
        r@ == deleted_text(name@, id@),
{
    let mut s = String::from_str("Deleted branch '");
    s.append(name.as_str());
    s.append("', to undo run `git branch ");
    s.append(name.as_str());
    s.append(" ");
    s.append(id.as_str());
    s.append("`\r\n");
    s
}

/// The line shown when undo is asked for while the undo buffer is empty.
pub open spec fn nothing_to_undo_text() -> Seq<char> {
    "Didn't find anything to undo"@
}

pub fn nothing_to_undo_line() -> (r: String)
    ensures
        r@ == nothing_to_undo_text(),
{
    String::from_str("Didn't find anything to undo")
}

} // verus!
