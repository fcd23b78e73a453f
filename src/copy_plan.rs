use vstd::prelude::*;

use crate::file_discovery::FileInfo;

verus! {

/// What a run does with one candidate.
#[derive(Clone, Copy, Debug, PartialEq, Eq, Structural)]
pub enum CopyAction {
    /// Copy it into the output directory under its name.
    Copy,
    /// Report that it would be copied, and leave the disk alone.
    WouldCopy,
    /// Skip it: an earlier candidate already claimed its name.
    SkipDuplicate,
}

/// The decisions of one run over its candidates.
#[derive(Clone, Debug)]
pub struct CopyPlan {
    /// One action per candidate, in candidate order.
    pub actions: Vec<CopyAction>,
    /// Persist a new marker once every copy has succeeded.
    pub write_marker: bool,
}

/// Some candidate before index `i` has the same name as candidate `i`.
pub open spec fn name_taken(names: Seq<Seq<char>>, i: int) -> bool {
    exists|j: int| 0 <= j < i && #[trigger] names[j] == names[i]
}

/// The names of the candidates.
pub open spec fn names_of(candidates: Seq<FileInfo>) -> Seq<Seq<char>> {
    candidates.map_values(|f: FileInfo| f.name@)
}

/// The action for candidate `i`: a repeated name is skipped; otherwise the file
/// is copied, or only reported on a dry run.
pub open spec fn action_for(names: Seq<Seq<char>>, i: int, dry_run: bool) -> CopyAction {
    if name_taken(names, i) {
        CopyAction::SkipDuplicate
    } else if dry_run {
        CopyAction::WouldCopy
    } else {
        CopyAction::Copy
    }
}

/// The actions of a run, one per candidate.
pub open spec fn planned_actions(candidates: Seq<FileInfo>, dry_run: bool) -> Seq<CopyAction> {
    Seq::new(candidates.len(), |i: int| action_for(names_of(candidates), i, dry_run))
}

/// Whether a run persists a new marker: only a real run that had candidates.
pub open spec fn planned_marker_write(candidates: Seq<FileInfo>, dry_run: bool) -> bool {
    !dry_run && candidates.len() > 0
}

/// Plans a run: the first candidate of each name is copied (or reported, on a
/// dry run), later ones of the same name are skipped, and a new marker is
/// written only after a real run that had candidates.
pub fn plan_copies(candidates: &Vec<FileInfo>, dry_run: bool) -> (r: CopyPlan)
    ensures
        r.actions@ == planned_actions(candidates@, dry_run),
        r.write_marker == planned_marker_write(candidates@, dry_run),
{
    let ghost names = names_of(candidates@);
    let mut actions: Vec<CopyAction> = Vec::new();
    let mut i: usize = 0;
    while i < candidates.len()
        invariant
            0 <= i <= candidates@.len(),
            names == names_of(candidates@),
            actions@.len() == i,
            forall|k: int| 0 <= k < i ==> #[trigger] actions@[k] == action_for(names, k, dry_run),
        decreases candidates@.len() - i,
    {
        let mut taken = false;
        let mut j: usize = 0;
        while j < i
            invariant
                0 <= j <= i < candidates@.len(),
                names == names_of(candidates@),
                taken == exists|k: int| 0 <= k < j && #[trigger] names[k] == names[i as int],
            decreases i - j,
        {
            if candidates[j].name == candidates[i].name {
                taken = true;
            }
            proof {
                if taken {
                    if candidates@[j as int].name@ == candidates@[i as int].name@ {
                        assert(names[j as int] == names[i as int]);
                    }
                } else {
                    assert forall|k: int| 0 <= k < j + 1 implies #[trigger] names[k] != names[i as int] by {
                        if k == j {
                            assert(names[k] == candidates@[k].name@);
                        }
                    }
                }
            }
            j = j + 1;
        }
        let action = if taken {
            CopyAction::SkipDuplicate
        } else if dry_run {
            CopyAction::WouldCopy
        } else {
            CopyAction::Copy
        };
        actions.push(action);
        i = i + 1;
    }
    assert(actions@ == planned_actions(candidates@, dry_run));
    CopyPlan { actions, write_marker: !dry_run && candidates.len() > 0 }
}

/// Of two candidates that share a name, the later one is never copied: it is
/// skipped, so the earlier one's destination is never overwritten.
pub proof fn lemma_later_namesake_skipped(candidates: Seq<FileInfo>, dry_run: bool, i: int, j: int)
    requires
        0 <= i < j < candidates.len(),
        candidates[i].name@ == candidates[j].name@,
    ensures
        planned_actions(candidates, dry_run)[j] == CopyAction::SkipDuplicate,
{
    let names = names_of(candidates);
    assert(names[i] == names[j]);
}

/// The first candidate of each name is copied on a real run.
pub proof fn lemma_first_of_name_copied(candidates: Seq<FileInfo>, j: int)
    requires
        0 <= j < candidates.len(),
        forall|i: int| 0 <= i < j ==> (#[trigger] candidates[i]).name@ != candidates[j].name@,
    ensures
        planned_actions(candidates, false)[j] == CopyAction::Copy,
{
    let names = names_of(candidates);
    assert forall|i: int| 0 <= i < j implies #[trigger] names[i] != names[j] by {
        assert(names[i] == candidates[i].name@);
    }
}

/// No two copied candidates share a name: the copies never land on one destination.
pub proof fn lemma_copies_have_distinct_names(candidates: Seq<FileInfo>, dry_run: bool, i: int, j: int)
    requires
        0 <= i < candidates.len(),
        0 <= j < candidates.len(),
        i != j,
        planned_actions(candidates, dry_run)[i] == CopyAction::Copy,
        planned_actions(candidates, dry_run)[j] == CopyAction::Copy,
    ensures
        candidates[i].name@ != candidates[j].name@,
{
    if candidates[i].name@ == candidates[j].name@ {
        if i < j {
            lemma_later_namesake_skipped(candidates, dry_run, i, j);
        } else {
            lemma_later_namesake_skipped(candidates, dry_run, j, i);
        }
    }
}

/// A dry run copies nothing and writes no marker, however many candidates it has.
pub proof fn lemma_dry_run_touches_nothing(candidates: Seq<FileInfo>)
    ensures
        forall|i: int|
            0 <= i < candidates.len() ==> #[trigger] planned_actions(candidates, true)[i]
                != CopyAction::Copy,
        !planned_marker_write(candidates, true),
{
}

/// A run with no candidates never writes a new marker, dry or not.
pub proof fn lemma_no_candidates_no_marker(candidates: Seq<FileInfo>, dry_run: bool)
    requires
        candidates.len() == 0,
    ensures
        !planned_marker_write(candidates, dry_run),
        planned_actions(candidates, dry_run).len() == 0,
{
}

} // verus!
