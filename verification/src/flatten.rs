//! Output Flattener: after a successful extraction the target directory's
//! immediate entries are inspected. With zero or several entries nothing is
//! done. With exactly one entry, that wrapping entry is promoted one level
//! up, collision-safely: the promotion is planned here from plain values (the
//! target directory's name, its entries, the names existing beside it, and
//! the process id), and the caller performs the planned renames.
//!
//! A planned [`FlattenPlan::Promote`] means: rename the single entry out of
//! the target directory to the sibling name `dest`, then remove the now
//! empty target directory. A planned [`FlattenPlan::Dance`] covers the
//! common collision where the wrapping entry carries the target directory's
//! own name: rename the entry out to the unique temporary sibling name
//! `temp`, remove the old target directory, and rename the temporary to the
//! target directory's name.
use crate::text::append_decimal;
use crate::text::names_contain;
use crate::text::spec_decimal;
use crate::text::str_eq;
use vstd::prelude::*;
use vstd::string::StringExecFns;

verus! {

/// How the single wrapping entry is promoted out of the target directory.
#[derive(Debug)]
pub enum FlattenPlan {
    /// Rename the entry to the sibling name `dest`, then remove the target
    /// directory.
    Promote { dest: String },
    /// The entry carries the target directory's own name: rename it out to
    /// the temporary sibling name `temp`, remove the old target directory,
    /// and rename the temporary to the target directory's name.
    Dance { temp: String },
}

/// The `i`-th collision candidate: the base name with a decimal suffix.
pub open spec fn spec_candidate(base: Seq<char>, i: nat) -> Seq<char> {
    base + spec_decimal(i)
}

/// The bounded linear probe for a free candidate name: the first of
/// `base1`, `base2`, ... `base99` that no sibling holds, and the bare base
/// name as the documented last resort when all of them collide.
pub open spec fn spec_probe(base: Seq<char>, siblings: Seq<Seq<char>>, i: nat) -> Seq<char>
    decreases 100 - i,
{
    if i >= 100 {
        base
    } else if !siblings.contains(spec_candidate(base, i)) {
        spec_candidate(base, i)
    } else {
        spec_probe(base, siblings, i + 1)
    }
}

/// The final sibling name a promoted entry takes: its own base name when
/// free, otherwise the probed candidate.
pub open spec fn spec_promote_dest(base: Seq<char>, siblings: Seq<Seq<char>>) -> Seq<char> {
    if !siblings.contains(base) {
        base
    } else {
        spec_probe(base, siblings, 1)
    }
}

/// The rename dance is owed exactly when the wrapping entry's name is taken
/// and is the target directory's own name.
pub open spec fn spec_is_dance(topdir: Seq<char>, base: Seq<char>, siblings: Seq<Seq<char>>) -> bool {
    siblings.contains(base) && base == topdir
}

/// The unique temporary sibling name used by the rename dance: the target
/// directory's name, a fixed marker, and the process id.
pub open spec fn spec_temp_name(topdir: Seq<char>, pid: nat) -> Seq<char> {
    topdir + ".tmp."@ + spec_decimal(pid)
}

/// Plans the flattening of the target directory `topdir`, whose immediate
/// entries are `entries`, where `siblings` are the names existing next to it
/// (its own included) and `pid` identifies this process. Returns `None`
/// exactly when there is nothing to flatten: zero or several entries.
pub fn plan_flatten(topdir: &str, entries: &Vec<String>, siblings: &Vec<String>, pid: u64) -> (r:
    Option<FlattenPlan>)
    ensures
        (r is Some) == (entries@.len() == 1),
        r matches Some(FlattenPlan::Dance { temp }) ==> spec_is_dance(
            topdir@,
            entries.deep_view()[0],
            siblings.deep_view(),
        ) && temp@ == spec_temp_name(topdir@, pid as nat),
        r matches Some(FlattenPlan::Promote { dest }) ==> !spec_is_dance(
            topdir@,
            entries.deep_view()[0],
            siblings.deep_view(),
        ) && dest@ == spec_promote_dest(entries.deep_view()[0], siblings.deep_view()),
{
    if entries.len() != 1 {
        return None;
    }
    let base: &str = entries[0].as_str();
    proof {
        assert(entries.deep_view()[0] == base@);
    }
    if !names_contain(siblings, base) {
        Some(FlattenPlan::Promote { dest: base.to_owned() })
    } else if str_eq(base, topdir) {
        let mut temp: String = topdir.to_owned();
        temp.append(".tmp.");
        append_decimal(&mut temp, pid);
        proof {
            assert(temp@ =~= spec_temp_name(topdir@, pid as nat));
        }
        Some(FlattenPlan::Dance { temp })
    } else {
        let mut i: u64 = 1;
        while i < 100
            invariant
                1 <= i <= 100,
                entries@.len() == 1,
                base@ == entries.deep_view()[0],
                siblings.deep_view().contains(base@),
                base@ != topdir@,
                spec_probe(base@, siblings.deep_view(), 1) == spec_probe(
                    base@,
                    siblings.deep_view(),
                    i as nat,
                ),
            decreases 100 - i,
        {
            let mut cand: String = base.to_owned();
            append_decimal(&mut cand, i);
            proof {
                assert(cand@ == spec_candidate(base@, i as nat));
            }
            if !names_contain(siblings, cand.as_str()) {
                return Some(FlattenPlan::Promote { dest: cand });
            }
            proof {
                assert(spec_probe(base@, siblings.deep_view(), i as nat) == spec_probe(
                    base@,
                    siblings.deep_view(),
                    (i + 1) as nat,
                ));
            }
            i = i + 1;
        }
        Some(FlattenPlan::Promote { dest: base.to_owned() })
    }
}

/// The decimal rendering of a number is never empty.
proof fn lemma_decimal_nonempty(n: nat)
    ensures
        spec_decimal(n).len() >= 1,
    decreases n,
{
    if n >= 10 {
        lemma_decimal_nonempty(n / 10);
    }
}

/// The probe's result is the bare base name or a name no sibling holds.
proof fn lemma_probe_free_or_base(base: Seq<char>, siblings: Seq<Seq<char>>, i: nat)
    ensures
        spec_probe(base, siblings, i) == base || !siblings.contains(spec_probe(base, siblings, i)),
    decreases 100 - i,
{
    if i < 100 && siblings.contains(spec_candidate(base, i)) {
        lemma_probe_free_or_base(base, siblings, i + 1);
    }
}

/// When some candidate in the probed range is free, the probe lands on a free
/// candidate from that range.
proof fn lemma_probe_hits_free(base: Seq<char>, siblings: Seq<Seq<char>>, i: nat)
    requires
        i < 100,
        exists|j: nat| i <= j < 100 && !siblings.contains(spec_candidate(base, j)),
    ensures
        exists|k: nat|
            i <= k < 100 && spec_probe(base, siblings, i) == spec_candidate(base, k)
                && !siblings.contains(spec_candidate(base, k)),
    decreases 100 - i,
{
    if !siblings.contains(spec_candidate(base, i)) {
        assert(i <= i < 100 && spec_probe(base, siblings, i) == spec_candidate(base, i)
            && !siblings.contains(spec_candidate(base, i)));
    } else {
        let j = choose|j: nat| i <= j < 100 && !siblings.contains(spec_candidate(base, j));
        assert(i + 1 <= j < 100 && !siblings.contains(spec_candidate(base, j)));
        lemma_probe_hits_free(base, siblings, i + 1);
        let k = choose|k: nat|
            i + 1 <= k < 100 && spec_probe(base, siblings, i + 1) == spec_candidate(base, k)
                && !siblings.contains(spec_candidate(base, k));
        assert(i <= k < 100 && spec_probe(base, siblings, i) == spec_candidate(base, k)
            && !siblings.contains(spec_candidate(base, k)));
    }
}

/// Law: a planned promotion either keeps the wrapping entry's own base name
/// (the documented last resort, after the bounded probe is exhausted) or
/// lands on a name that no existing sibling holds. Flattening never silently
/// overwrites unrelated sibling content short of that last resort.
pub proof fn lemma_promote_no_clobber(base: Seq<char>, siblings: Seq<Seq<char>>)
    ensures
        spec_promote_dest(base, siblings) == base || !siblings.contains(
            spec_promote_dest(base, siblings),
        ),
{
    lemma_probe_free_or_base(base, siblings, 1);
}

/// Law: the rename dance's temporary name never aliases the target
/// directory's own name, so moving the wrapping entry out to the temporary
/// cannot collide with the directory it leaves, and removing the old target
/// cannot remove the moved-out contents.
pub proof fn lemma_temp_name_distinct(topdir: Seq<char>, pid: nat)
    ensures
        spec_temp_name(topdir, pid) != topdir,
{
    lemma_decimal_nonempty(pid);
    reveal_strlit(".tmp.");
    assert(spec_temp_name(topdir, pid).len() > topdir.len());
}

/// Law: when the base name collides with existing unrelated content and some
/// probed candidate is free, the promotion takes a numerically suffixed
/// name: a candidate distinct from the base name that no sibling holds,
/// rather than overwriting silently.
pub proof fn lemma_collision_gets_suffix(base: Seq<char>, siblings: Seq<Seq<char>>)
    requires
        siblings.contains(base),
        exists|i: nat| 1 <= i < 100 && !siblings.contains(spec_candidate(base, i)),
    ensures
        spec_promote_dest(base, siblings) != base,
        !siblings.contains(spec_promote_dest(base, siblings)),
        exists|i: nat|
            1 <= i < 100 && spec_promote_dest(base, siblings) == spec_candidate(base, i),
{
    lemma_probe_hits_free(base, siblings, 1);
    let k = choose|k: nat|
        1 <= k < 100 && spec_probe(base, siblings, 1) == spec_candidate(base, k)
            && !siblings.contains(spec_candidate(base, k));
    lemma_decimal_nonempty(k);
    assert(spec_candidate(base, k).len() > base.len());
}

} // verus!
