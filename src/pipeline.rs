use vstd::prelude::*;

use crate::document::SearchDocument;
use crate::text::same_text;

verus! {

/// Directory names whose subtrees the walk never enters.
pub open spec fn excluded_name(name: Seq<char>) -> bool {
    name == "target"@ || name == ".git"@
}

/// Whether the walk may enter or yield an entry of this name: only a
/// directory named `target` or `.git` is left out, with all beneath it.
pub fn is_not_skipped(name: &str, is_dir: bool) -> (r: bool)
    ensures
        r == !(is_dir && excluded_name(name@)),
{
    proof {
        reveal_strlit("target");
        reveal_strlit(".git");
    }
    !(is_dir && (same_text(name, "target") || same_text(name, ".git")))
}

/// Whether an entry reached through the names `components` (the root's own
/// name first, the entry's last) is a candidate: a regular file, with no
/// directory of an excluded name on the way.
pub open spec fn is_candidate(components: Seq<Seq<char>>, is_file: bool) -> bool {
    is_file && forall|i: int|
        0 <= i < components.len() - 1 ==> !excluded_name(#[trigger] components[i])
}

pub open spec fn names(components: Seq<String>) -> Seq<Seq<char>> {
    components.map_values(|c: String| c@)
}

/// Decides whether a walked entry becomes a candidate.
pub fn keep_entry(components: &Vec<String>, is_file: bool) -> (r: bool)
    ensures
        r == is_candidate(names(components@), is_file),
{
    if !is_file || components.len() == 0 {
        return is_file;
    }
    let dirs = components.len() - 1;
    let mut i: usize = 0;
    while i < dirs
        invariant
            dirs == components.len() - 1,
            i <= dirs,
            forall|k: int| 0 <= k < i ==> !excluded_name(#[trigger] names(components@)[k]),
        decreases dirs - i,
    {
        if !is_not_skipped(components[i].as_str(), true) {
            assert(excluded_name(names(components@)[i as int]));
            return false;
        }
        i = i + 1;
    }
    true
}

/// Nothing inside a directory named `target` or `.git` is ever a candidate.
pub proof fn law_excluded_never_observed(components: Seq<Seq<char>>, is_file: bool, i: int)
    requires
        0 <= i < components.len() - 1,
        excluded_name(components[i]),
    ensures
        !is_candidate(components, is_file),
{
}

/// The records among a sequence of per-candidate outcomes, in order.
pub open spec fn assembled(outcomes: Seq<Option<SearchDocument>>) -> Seq<SearchDocument>
    decreases outcomes.len(),
{
    if outcomes.len() == 0 {
        Seq::empty()
    } else {
        let rest = assembled(outcomes.drop_last());
        match outcomes.last() {
            Some(d) => rest.push(d),
            None => rest,
        }
    }
}

/// How many of the outcomes dropped their candidate.
pub open spec fn dropped_count(outcomes: Seq<Option<SearchDocument>>) -> nat
    decreases outcomes.len(),
{
    if outcomes.len() == 0 {
        0
    } else {
        dropped_count(outcomes.drop_last()) + if outcomes.last() is None {
            1nat
        } else {
            0nat
        }
    }
}

/// The documents collected in one run, with the count of candidates observed
/// and of those dropped.
#[derive(Debug, Clone)]
pub struct Batch {
    pub docs: Vec<SearchDocument>,
    pub observed: usize,
    pub dropped: usize,
}

impl Batch {
    /// Every observed candidate was either dropped or assembled into the batch.
    pub open spec fn wf(&self) -> bool {
        self.observed == self.dropped + self.docs.len()
    }

    pub fn new() -> (r: Batch)
        ensures
            r.wf(),
            r.observed == 0,
            r.dropped == 0,
            r.docs@ == Seq::<SearchDocument>::empty(),
    {
        Batch { docs: Vec::new(), observed: 0, dropped: 0 }
    }

    /// Takes in the outcome of one candidate.
    pub fn record(&mut self, outcome: Option<SearchDocument>)
        requires
            old(self).wf(),
            old(self).observed < usize::MAX,
        ensures
            final(self).wf(),
            final(self).observed == old(self).observed + 1,
            outcome is None ==> final(self).dropped == old(self).dropped + 1 && final(self).docs@
                == old(self).docs@,
            outcome is Some ==> final(self).dropped == old(self).dropped && final(self).docs@
                == old(self).docs@.push(outcome->0),
    {
        self.observed = self.observed + 1;
        match outcome {
            Some(d) => self.docs.push(d),
            None => self.dropped = self.dropped + 1,
        }
    }

    pub fn len(&self) -> (r: usize)
        ensures
            r == self.docs.len(),
    {
        self.docs.len()
    }

    pub fn is_empty(&self) -> (r: bool)
        ensures
            r == (self.docs.len() == 0),
    {
        self.docs.len() == 0
    }
}

/// Collects the outcomes of all candidates of a run into its batch.
pub fn collect_batch(outcomes: Vec<Option<SearchDocument>>) -> (r: Batch)
    ensures
        r.wf(),
        r.observed == outcomes.len(),
        r.dropped == dropped_count(outcomes@),
        r.docs@ == assembled(outcomes@),
{
    let mut batch = Batch::new();
    let n: usize = outcomes.len();
    let ghost all = outcomes@;
    for o in it: outcomes.into_iter()
        invariant
            it.seq() == all,
            it.index() <= all.len(),
            all.len() == n,
            batch.wf(),
            batch.observed == it.index(),
            batch.dropped == dropped_count(all.subrange(0, it.index() as int)),
            batch.docs@ == assembled(all.subrange(0, it.index() as int)),
    {
        proof {
            let k = it.index() as int;
            assert(all.subrange(0, k + 1).drop_last() =~= all.subrange(0, k));
        }
        batch.record(o);
    }
    assert(all.subrange(0, all.len() as int) =~= all);
    batch
}

/// Every candidate of a run is either dropped or assembled into the batch.
pub proof fn law_observed_balances(outcomes: Seq<Option<SearchDocument>>)
    ensures
        outcomes.len() == dropped_count(outcomes) + assembled(outcomes).len(),
    decreases outcomes.len(),
{
    if outcomes.len() > 0 {
        law_observed_balances(outcomes.drop_last());
    }
}

/// What the submission gate decides for a batch.
#[derive(Debug, Clone, Copy, PartialEq, Eq, Structural)]
pub enum Submission {
    /// Leave the index service alone; zero documents are reported.
    Skip,
    /// Send the whole batch in one upsert keyed by `id`.
    Submit,
}

pub open spec fn submission_spec(no_index: bool, count: nat) -> Submission {
    if no_index || count == 0 {
        Submission::Skip
    } else {
        Submission::Submit
    }
}

/// Decides whether the batch goes to the index service: only when it is not
/// empty and the dry-run switch `no_index` is off.
pub fn submission_for(no_index: bool, batch: &Batch) -> (r: Submission)
    ensures
        r == submission_spec(no_index, batch.docs@.len()),
{
    if no_index || batch.docs.len() == 0 {
        Submission::Skip
    } else {
        Submission::Submit
    }
}

/// The number of documents a run reports as indexed once a submission
/// decided by `submission_for` has succeeded.
pub fn indexed_count(no_index: bool, batch: &Batch) -> (r: usize)
    ensures
        submission_spec(no_index, batch.docs@.len()) == Submission::Submit ==> r == batch.docs.len(),
        submission_spec(no_index, batch.docs@.len()) == Submission::Skip ==> r == 0,
{
    match submission_for(no_index, batch) {
        Submission::Submit => batch.docs.len(),
        Submission::Skip => 0,
    }
}

/// A dry run assembles its batch exactly as a normal run does (the batch is
/// built from the outcomes alone) and never contacts the index service, while
/// a normal run submits any batch that is not empty.
pub proof fn law_dry_run(outcomes: Seq<Option<SearchDocument>>)
    ensures
        submission_spec(true, assembled(outcomes).len()) == Submission::Skip,
        assembled(outcomes).len() > 0 ==> submission_spec(false, assembled(outcomes).len())
            == Submission::Submit,
{
}

} // verus!
