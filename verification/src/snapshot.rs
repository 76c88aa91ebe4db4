//! File-set snapshots: the before/after diff that defines a package's
//! contents.
//!
//! The prefix is walked before and after the build script runs; the
//! package holds exactly the files that are new.  The diff is
//! order-independent — a file counts by its path alone — and files the
//! script deleted are not reported as new.

use vstd::prelude::*;

verus! {

/// The paths of `after` that do not appear in `before`, keeping
/// `after`'s order.
pub open spec fn new_files_spec(after: Seq<Seq<char>>, before: Seq<Seq<char>>) -> Seq<Seq<char>>
    decreases after.len(),
{
    if after.len() == 0 {
        Seq::empty()
    } else {
        new_files_spec(after.take(after.len() - 1), before) + (if before.contains(
            after.last(),
        ) {
            Seq::<Seq<char>>::empty()
        } else {
            seq![after.last()]
        })
    }
}

/// Membership in the diff: a path is new exactly when the after-snapshot
/// holds it and the before-snapshot does not.
pub proof fn lemma_new_files_membership(after: Seq<Seq<char>>, before: Seq<Seq<char>>)
    ensures
        forall|p: Seq<char>|
            #[trigger] new_files_spec(after, before).contains(p) <==> (after.contains(p)
                && !before.contains(p)),
    decreases after.len(),
{
    if after.len() == 0 {
    } else {
        let prefix = after.take(after.len() - 1);
        lemma_new_files_membership(prefix, before);
        assert forall|p: Seq<char>| #[trigger]
            new_files_spec(after, before).contains(p) implies (after.contains(p)
            && !before.contains(p)) by {
            let d = new_files_spec(after, before);
            let i = choose|i: int| 0 <= i < d.len() && d[i] == p;
            if i < new_files_spec(prefix, before).len() {
                assert(new_files_spec(prefix, before).contains(p));
                let j = choose|j: int| 0 <= j < prefix.len() && prefix[j] == p;
                assert(after[j] == p);
            } else {
                assert(p == after.last());
                assert(after[after.len() - 1] == p);
            }
        }
        assert forall|p: Seq<char>| (after.contains(p) && !before.contains(
            p,
        )) implies #[trigger] new_files_spec(after, before).contains(p) by {
            let d = new_files_spec(after, before);
            let dp = new_files_spec(prefix, before);
            let i = choose|i: int| 0 <= i < after.len() && after[i] == p;
            if i < after.len() - 1 {
                assert(prefix[i] == p);
                assert(prefix.contains(p));
                assert(dp.contains(p));
                let j = choose|j: int| 0 <= j < dp.len() && dp[j] == p;
                assert(d[j] == p);
            } else {
                assert(p == after.last());
                assert(d[d.len() - 1] == p);
            }
        }
    }
}

/// The diff as sets: exactly the set difference of the two snapshots.
/// Deleted files are not reported as new, and pre-existing untouched
/// files are excluded.
pub proof fn lemma_new_files_is_set_difference(after: Seq<Seq<char>>, before: Seq<Seq<char>>)
    ensures
        new_files_spec(after, before).to_set() == after.to_set().difference(before.to_set()),
{
    lemma_new_files_membership(after, before);
    assert(new_files_spec(after, before).to_set() =~= after.to_set().difference(before.to_set()));
}

/// Whether a snapshot holds the given path.
pub fn snapshot_contains(v: &Vec<String>, p: &String) -> (b: bool)
    ensures
        b == v.deep_view().contains(p@),
{
    let mut i: usize = 0;
    while i < v.len()
        invariant
            i <= v.len(),
            forall|k: int| 0 <= k < i ==> v.deep_view()[k] != p@,
        decreases v.len() - i,
    {
        if v[i].eq(p) {
            proof {
                assert(v.deep_view()[i as int] == p@);
            }
            return true;
        }
        proof {
            assert(v.deep_view()[i as int] == v@[i as int]@);
        }
        i += 1;
    }
    false
}

/// The new-files set of a build: the paths of the after-snapshot that
/// the before-snapshot does not hold, in the after-snapshot's order.
pub fn new_files(after: &Vec<String>, before: &Vec<String>) -> (r: Vec<String>)
    ensures
        r.deep_view() == new_files_spec(after.deep_view(), before.deep_view()),
{
    let mut r: Vec<String> = Vec::new();
    let mut i: usize = 0;
    while i < after.len()
        invariant
            i <= after.len(),
            r.deep_view() == new_files_spec(after.deep_view().take(i as int), before.deep_view()),
        decreases after.len() - i,
    {
        let ghost pre = r.deep_view();
        let ghost adv = after.deep_view();
        let is_old = snapshot_contains(before, &after[i]);
        proof {
            assert(adv[i as int] == after@[i as int]@);
            assert(adv.take(i as int + 1).last() == adv[i as int]);
            assert(adv.take(i as int + 1).take(i as int) =~= adv.take(i as int));
        }
        if !is_old {
            r.push(after[i].clone());
            proof {
                assert(r.deep_view() =~= pre + seq![adv[i as int]]);
                assert(new_files_spec(adv.take(i as int + 1), before.deep_view()) == pre + seq![
                    adv[i as int],
                ]);
            }
        } else {
            proof {
                assert(new_files_spec(adv.take(i as int + 1), before.deep_view()) =~= pre);
            }
        }
        i += 1;
    }
    proof {
        assert(after.deep_view().take(after.len() as int) =~= after.deep_view());
    }
    r
}

} // verus!
