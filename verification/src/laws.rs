use vstd::prelude::*;
use crate::session::{accepted_key, apply_step, Event, Session};

verus! {

/// The whole interactive run as a function of the starting state and the
/// keystrokes the user will type, with the trace of what happens. Checked-out
/// branches are passed over without consuming a keystroke; at a prompt the
/// next keystroke moves the state as `apply_step` says; quit, a rejected
/// keystroke, and running out of keystrokes end the run.
pub open spec fn run(s: Session, inputs: Seq<char>) -> (Session, Seq<Event>)
    decreases s.branches@.len() - s.next_idx, inputs.len(),
        when s.next_idx <= s.branches@.len() <= usize::MAX
{
    if s.finished() {
        (s, Seq::<Event>::empty())
    } else if s.at_skip() {
        let rec = run(s.advanced(), inputs);
        (rec.0, seq![Event::Skipped { name: s.current().name }] + rec.1)
    } else if inputs.len() == 0 {
        (s, Seq::<Event>::empty())
    } else {
        let c = inputs[0];
        let step = apply_step(s, c);
        if !accepted_key(c) || c == 'q' {
            (step.0, seq![step.1])
        } else {
            let rec = run(step.0, inputs.drop_first());
            (rec.0, seq![step.1] + rec.1)
        }
    }
}

/// The branch list itself is never edited by the loop: only the position,
/// the undo buffer and the stopped flag move.
pub proof fn lemma_branches_untouched(s: Session, inputs: Seq<char>)
    requires
        s.wf(),
    ensures
        run(s, inputs).0.branches == s.branches,
        run(s, inputs).0.wf(),
    decreases s.branches@.len() - s.next_idx, inputs.len(),
{
    vstd::std_specs::vec::axiom_spec_len(&s.branches);
    if s.finished() {
    } else if s.at_skip() {
        lemma_branches_untouched(s.advanced(), inputs);
    } else if inputs.len() == 0 {
    } else {
        let c = inputs[0];
        if !(!accepted_key(c) || c == 'q') {
            lemma_branches_untouched(apply_step(s, c).0, inputs.drop_first());
        }
    }
}

/// Law: a user who answers `k` at every prompt deletes nothing — the trace
/// holds no deletion, and the undo buffer and the branch list leave the run
/// exactly as they entered it.
pub proof fn lemma_all_keep_deletes_nothing(s: Session, inputs: Seq<char>)
    requires
        s.wf(),
        forall|i: int| 0 <= i < inputs.len() ==> inputs[i] == 'k',
    ensures
        run(s, inputs).0.branches == s.branches,
        run(s, inputs).0.undo_slot == s.undo_slot,
        forall|i: int| 0 <= i < run(s, inputs).1.len() ==> !((#[trigger] run(s, inputs).1[i]) is Deleted),
    decreases s.branches@.len() - s.next_idx, inputs.len(),
{
    vstd::std_specs::vec::axiom_spec_len(&s.branches);
    if s.finished() {
    } else if s.at_skip() {
        lemma_all_keep_deletes_nothing(s.advanced(), inputs);
        assert(run(s, inputs).1 == seq![Event::Skipped { name: s.current().name }] + run(
            s.advanced(),
            inputs,
        ).1);
    } else if inputs.len() == 0 {
    } else {
        assert(inputs[0] == 'k');
        let rest = inputs.drop_first();
        assert(forall|i: int| 0 <= i < rest.len() ==> #[trigger] rest[i] == inputs[i + 1]);
        lemma_all_keep_deletes_nothing(s.advanced(), rest);
        assert(run(s, inputs).1 == seq![Event::Kept] + run(s.advanced(), rest).1);
    }
}

/// Law: quitting at the first prompt deletes and recreates nothing; the
/// branch list and the undo buffer are untouched.
pub proof fn lemma_quit_at_first_prompt(s: Session)
    requires
        s.wf(),
    ensures
        run(s, seq!['q']).0.branches == s.branches,
        run(s, seq!['q']).0.undo_slot == s.undo_slot,
        forall|i: int|
            0 <= i < run(s, seq!['q']).1.len() ==> {
                &&& !((#[trigger] run(s, seq!['q']).1[i]) is Deleted)
                &&& !(run(s, seq!['q']).1[i] is Undone)
            },
    decreases s.branches@.len() - s.next_idx,
{
    vstd::std_specs::vec::axiom_spec_len(&s.branches);
    if s.finished() {
    } else if s.at_skip() {
        lemma_quit_at_first_prompt(s.advanced());
        assert(run(s, seq!['q']).1 == seq![Event::Skipped { name: s.current().name }] + run(
            s.advanced(),
            seq!['q'],
        ).1);
    } else {
        assert(seq!['q'][0] == 'q');
    }
}

/// Keystrokes that neither delete nor undo leave the undo buffer exactly as
/// it was, however the run ends.
pub proof fn lemma_undo_slot_stable(s: Session, inputs: Seq<char>)
    requires
        s.wf(),
        forall|i: int| 0 <= i < inputs.len() ==> inputs[i] != 'd' && inputs[i] != 'u',
    ensures
        run(s, inputs).0.undo_slot == s.undo_slot,
    decreases s.branches@.len() - s.next_idx, inputs.len(),
{
    vstd::std_specs::vec::axiom_spec_len(&s.branches);
    if s.finished() {
    } else if s.at_skip() {
        lemma_undo_slot_stable(s.advanced(), inputs);
    } else if inputs.len() == 0 {
    } else {
        let c = inputs[0];
        let rest = inputs.drop_first();
        assert(forall|i: int| 0 <= i < rest.len() ==> #[trigger] rest[i] == inputs[i + 1]);
        if !(!accepted_key(c) || c == 'q') {
            lemma_undo_slot_stable(apply_step(s, c).0, rest);
        }
    }
}

/// Law: after a branch is deleted, one `u` — with any number of keeps and
/// help views in between — recreates exactly that branch, at its original
/// commit id, and empties the undo buffer; a second `u` straight after finds
/// nothing to undo. The undo does not consume the branch then on show.
pub proof fn lemma_delete_then_undo(s: Session, mid: Seq<char>)
    requires
        s.wf(),
        s.at_prompt(),
        forall|i: int| 0 <= i < mid.len() ==> mid[i] != 'd' && mid[i] != 'u',
    ensures
        ({
            let x = s.current();
            let s1 = apply_step(s, 'd').0;
            let s2 = run(s1, mid).0;
            let s3 = apply_step(s2, 'u').0;
            &&& apply_step(s, 'd').1 == (Event::Deleted { name: x.name, id: x.id })
            &&& s1.undo_slot == Some(x)
            &&& s2.undo_slot == Some(x)
            &&& (s2.at_prompt() ==> {
                &&& apply_step(s2, 'u').1 == (Event::Undone { name: x.name, id: x.id })
                &&& s3.undo_slot is None
                &&& s3.next_idx == s2.next_idx
                &&& s3.at_prompt()
                &&& apply_step(s3, 'u').1 == Event::NothingToUndo
                &&& apply_step(s3, 'u').0 == s3
            })
        }),
{
    let s1 = apply_step(s, 'd').0;
    assert(s1.wf());
    lemma_undo_slot_stable(s1, mid);
}

/// Law: the checked-out branch only ever produces a skip in the trace; every
/// deletion the run performs names a branch that was not checked out.
pub proof fn lemma_head_never_deleted(s: Session, inputs: Seq<char>)
    requires
        s.wf(),
    ensures
        forall|i: int|
            0 <= i < run(s, inputs).1.len() && (#[trigger] run(s, inputs).1[i]) is Deleted
                ==> exists|k: int|
                {
                    &&& 0 <= k < s.branches@.len()
                    &&& !(#[trigger] s.branches@[k]).is_head
                    &&& run(s, inputs).1[i] == (Event::Deleted {
                        name: s.branches@[k].name,
                        id: s.branches@[k].id,
                    })
                },
    decreases s.branches@.len() - s.next_idx, inputs.len(),
{
    vstd::std_specs::vec::axiom_spec_len(&s.branches);
    if s.finished() {
    } else if s.at_skip() {
        lemma_head_never_deleted(s.advanced(), inputs);
        assert(run(s, inputs).1 == seq![Event::Skipped { name: s.current().name }] + run(
            s.advanced(),
            inputs,
        ).1);
    } else if inputs.len() == 0 {
    } else {
        let c = inputs[0];
        let step = apply_step(s, c);
        if !(!accepted_key(c) || c == 'q') {
            lemma_head_never_deleted(step.0, inputs.drop_first());
            assert(run(s, inputs).1 == seq![step.1] + run(step.0, inputs.drop_first()).1);
            if step.1 is Deleted {
                assert(c == 'd');
                assert(!s.branches@[s.next_idx as int].is_head);
            }
        }
    }
}

} // verus!
