use vstd::prelude::*;
use crate::branch::BranchInfo;
use vstd::multiset::Multiset;
use vstd::string::StringExecFns;

verus! {

/// A branch stays in the enumeration unless it is literally named "master".
pub open spec fn keeps_branch(b: BranchInfo) -> bool {
    b.name@ != "master"@
}

/// The branches that survive the filter, in their original order.
pub open spec fn master_filtered(s: Seq<BranchInfo>) -> Seq<BranchInfo> {
    s.filter(|b: BranchInfo| keeps_branch(b))
}

/// Non-decreasing in computed local commit time.
pub open spec fn time_sorted(s: Seq<BranchInfo>) -> bool {
    forall|i: int, j: int|
        0 <= i < j < s.len() ==> #[trigger] s[i].time_secs <= #[trigger] s[j].time_secs
}

/// One step of the filter: appending a branch keeps the filtered sequence or
/// extends it by that branch, as its name decides.
proof fn lemma_filter_push(s: Seq<BranchInfo>, x: BranchInfo)
    ensures
        master_filtered(s.push(x)) == if keeps_branch(x) {
            master_filtered(s).push(x)
        } else {
            master_filtered(s)
        },
{
    reveal(Seq::filter);
    assert(s.push(x).drop_last() =~= s);
    assert(s.push(x).last() == x);
}

fn filter_branches(input: &Vec<BranchInfo>) -> (r: Vec<BranchInfo>)
    ensures
        r@ == master_filtered(input@),
{
    let master = String::from_str("master");
    let mut kept: Vec<BranchInfo> = Vec::new();
    let mut i: usize = 0;
    while i < input.len()
        invariant
            i <= input@.len(),
            master@ == "master"@,
            kept@ == master_filtered(input@.subrange(0, i as int)),
        decreases input@.len() - i,
    {
        let b = &input[i];
        if !b.name.eq(&master) {
            kept.push(b.duplicate());
        }
        proof {
            assert(input@.subrange(0, i as int + 1) =~= input@.subrange(0, i as int).push(
                input@[i as int],
            ));
            lemma_filter_push(input@.subrange(0, i as int), input@[i as int]);
        }
        i = i + 1;
    }
    proof {
        assert(input@.subrange(0, input@.len() as int) =~= input@);
    }
    kept
}

fn sort_by_time(input: Vec<BranchInfo>) -> (r: Vec<BranchInfo>)
    ensures
        r@.to_multiset() == input@.to_multiset(),
        time_sorted(r@),
{
    broadcast use vstd::seq_lib::group_to_multiset_ensures;

    let mut rest = input;
    let mut out: Vec<BranchInfo> = Vec::new();
    while rest.len() > 0
        invariant
            out@.to_multiset().add(rest@.to_multiset()) == input@.to_multiset(),
            time_sorted(out@),
            forall|a: int, b: int|
                0 <= a < out@.len() && 0 <= b < rest@.len() ==> #[trigger] out@[a].time_secs
                    <= #[trigger] rest@[b].time_secs,
        decreases rest@.len(),
    {
        let ghost prev_out = out@;
        let ghost prev_rest = rest@;
        let mut m: usize = 0;
        let mut j: usize = 1;
        while j < rest.len()
            invariant
                0 < rest@.len(),
                m < j,
                j <= rest@.len(),
                forall|k: int|
                    0 <= k < j ==> rest@[m as int].time_secs <= #[trigger] rest@[k].time_secs,
            decreases rest@.len() - j,
        {
            if rest[j].time_secs < rest[m].time_secs {
                m = j;
            }
            j = j + 1;
        }
        let x = rest.remove(m);
        proof {
            broadcast use vstd::multiset::group_multiset_axioms;

            assert(x == prev_rest[m as int]);
            assert(rest@ == prev_rest.remove(m as int));
            assert(prev_rest.contains(x)) by {
                assert(prev_rest[m as int] == x);
            }
            vstd::seq_lib::to_multiset_contains(prev_rest, x);
            vstd::seq_lib::to_multiset_remove(prev_rest, m as int);
            assert forall|b: int| 0 <= b < rest@.len() implies x.time_secs
                <= #[trigger] rest@[b].time_secs by {
                if b < m {
                    assert(rest@[b] == prev_rest[b]);
                } else {
                    assert(rest@[b] == prev_rest[b + 1]);
                }
            }
        }
        out.push(x);
        proof {
            broadcast use vstd::multiset::group_multiset_axioms;

            vstd::seq_lib::to_multiset_build(prev_out, x);
            assert(out@.to_multiset().add(rest@.to_multiset()) =~= prev_out.to_multiset().add(
                prev_rest.to_multiset(),
            ));
            assert(out@ =~= prev_out.push(x));
        }
    }
    proof {
        broadcast use vstd::multiset::group_multiset_axioms;

        assert(rest@ =~= Seq::<BranchInfo>::empty());
        assert forall|a: BranchInfo| rest@.to_multiset().count(a) == 0 by {
            vstd::seq_lib::to_multiset_contains(rest@, a);
        }
        assert(rest@.to_multiset() =~= Multiset::<BranchInfo>::empty());
        assert(out@.to_multiset() =~= input@.to_multiset());
    }
    out
}

/// The enumerator's ordering pass: every local branch except any named
/// "master", exactly as often as it came in, sorted non-decreasing by local
/// commit timestamp.
pub fn select_branches(input: &Vec<BranchInfo>) -> (r: Vec<BranchInfo>)
    ensures
        r@.to_multiset() == master_filtered(input@).to_multiset(),
        time_sorted(r@),
        (forall|i: int| 0 <= i < input@.len() ==> (#[trigger] input@[i]).wf()) ==> (forall|i: int|
            0 <= i < r@.len() ==> (#[trigger] r@[i]).wf()),
{
    let kept = filter_branches(input);
    let r = sort_by_time(kept);
    proof {
        if forall|i: int| 0 <= i < input@.len() ==> (#[trigger] input@[i]).wf() {
            assert forall|i: int| 0 <= i < r@.len() implies (#[trigger] r@[i]).wf() by {
                let b = r@[i];
                vstd::seq_lib::to_multiset_contains(r@, b);
                assert(r@.contains(b));
                lemma_enumerator_counts(input@, b);
                vstd::seq_lib::to_multiset_contains(input@, b);
                assert(input@.contains(b));
                let k = choose|k: int| 0 <= k < input@.len() && input@[k] == b;
                assert(input@[k].wf());
            }
        }
    }
    r
}

/// Law: the enumeration drops every occurrence of a branch named "master"
/// and keeps every occurrence of every other branch — so a branch the
/// repository lists once is listed exactly once.
pub proof fn lemma_enumerator_counts(s: Seq<BranchInfo>, b: BranchInfo)
    ensures
        keeps_branch(b) ==> master_filtered(s).to_multiset().count(b) == s.to_multiset().count(b),
        !keeps_branch(b) ==> master_filtered(s).to_multiset().count(b) == 0,
    decreases s.len(),
{
    broadcast use vstd::seq_lib::group_to_multiset_ensures;

    if s.len() == 0 {
        reveal(Seq::filter);
        assert(!master_filtered(s).contains(b));
        assert(!s.contains(b));
    } else {
        lemma_enumerator_counts(s.drop_last(), b);
        lemma_filter_push(s.drop_last(), s.last());
        assert(s.drop_last().push(s.last()) =~= s);
        assert(s.to_multiset() =~= s.drop_last().to_multiset().insert(s.last()));
        if keeps_branch(s.last()) {
            assert(master_filtered(s).to_multiset() =~= master_filtered(
                s.drop_last(),
            ).to_multiset().insert(s.last()));
        }
    }
}

} // verus!
