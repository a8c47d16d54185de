//! The state of one loading pass over a scene: whether a sub-asset failed, and
//! whether any work is still outstanding.
use amethyst_assets::{Completion, ProgressCounter};
use vstd::prelude::*;

verus! {

/// The engine's completion state of a progress counter: loading, failed or
/// complete. Its variants are read here.
#[verifier::external_type_specification]
pub struct ExCompletion(Completion);

/// The engine's counter of outstanding sub-asset loads, carried through opaquely.
#[verifier::external_type_specification]
#[verifier::external_body]
pub struct ExProgressCounter(ProgressCounter);

/// Relies on `ProgressCounter::complete`, which reports the state of the loads
/// that the counter tracks. That state changes as loads end elsewhere, so
/// nothing is stated of the result.
pub assume_specification[ ProgressCounter::complete ](progress: &ProgressCounter) -> Completion;

/// Where a pass stands once its first phase has been issued for every node.
#[derive(Clone, Copy, Debug, PartialEq, Eq, Structural)]
pub enum PassStatus {
    /// Sub-assets are still loading: poll again later.
    Loading,
    /// A sub-asset failed: the pass is given up and no component is written.
    Failed,
    /// Everything loaded: the second phase may run.
    Ready,
}

/// A pass as (failed, more work pending).
pub type PassView = (bool, bool);

/// Pass `p` after a node's first phase ends with `outcome`: `None` for a failed
/// sub-asset, `Some(pending)` for success, with work still loading or not.
pub open spec fn recorded(p: PassView, outcome: Option<bool>) -> PassView {
    (p.0 || outcome is None, p.1 || outcome == Some(true))
}

/// Pass `p` after the outcomes of `s`, first to last.
pub open spec fn recorded_all(p: PassView, s: Seq<Option<bool>>) -> PassView
    decreases s.len(),
{
    if s.len() == 0 {
        p
    } else {
        recorded(recorded_all(p, s.drop_last()), s.last())
    }
}

/// The status of pass `p` when its progress counter reports `c`.
pub open spec fn status_of(p: PassView, c: Completion) -> PassStatus {
    if p.0 || c is Failed {
        PassStatus::Failed
    } else if c is Complete {
        PassStatus::Ready
    } else {
        PassStatus::Loading
    }
}

/// One loading pass over a scene.
pub struct LoadPass {
    failed: bool,
    more_work: bool,
}

impl View for LoadPass {
    type V = PassView;

    closed spec fn view(&self) -> PassView {
        (self.failed, self.more_work)
    }
}

impl LoadPass {
    /// A pass before any node is loaded.
    pub fn new() -> (r: LoadPass)
        ensures
            r@ == (false, false),
    {
        LoadPass { failed: false, more_work: false }
    }

    /// Takes in how a node's first phase ended.
    pub fn record(&mut self, outcome: Option<bool>)
        ensures
            final(self)@ == recorded(old(self)@, outcome),
    {
        match outcome {
            None => {
                self.failed = true;
            },
            Some(pending) => {
                if pending {
                    self.more_work = true;
                }
            },
        }
    }

    /// Whether a sub-asset failed: the pass is then fatally broken.
    pub fn failed(&self) -> (r: bool)
        ensures
            r == self@.0,
    {
        self.failed
    }

    /// Whether some node reported work still loading.
    pub fn more_work(&self) -> (r: bool)
        ensures
            r == self@.1,
    {
        self.more_work
    }

    /// The status of the pass when its progress counter reports `completion`.
    pub fn status_with(&self, completion: Completion) -> (r: PassStatus)
        ensures
            r == status_of(self@, completion),
    {
        if self.failed {
            return PassStatus::Failed;
        }
        match completion {
            Completion::Failed => PassStatus::Failed,
            Completion::Complete => PassStatus::Ready,
            Completion::Loading => PassStatus::Loading,
        }
    }

    /// The status of the pass as its progress counter stands now. A pass with a
    /// failed node stays failed whatever the counter says.
    pub fn status(&self, progress: &ProgressCounter) -> (r: PassStatus)
        ensures
            exists|c: Completion| r == status_of(self@, c),
            self@.0 ==> r == PassStatus::Failed,
    {
        let completion = progress.complete();
        self.status_with(completion)
    }
}

/// One failed sub-asset breaks the whole pass: whatever else is recorded, in
/// any order, and whatever the progress counter reports, the pass is failed and
/// the second phase never runs, so no entity gets a component (a bounding
/// sphere included) from it.
pub proof fn lemma_failure_is_fatal(p: PassView, s: Seq<Option<bool>>, c: Completion)
    requires
        p.0 || exists|j: int| 0 <= j < s.len() && s[j] is None,
    ensures
        recorded_all(p, s).0,
        status_of(recorded_all(p, s), c) == PassStatus::Failed,
    decreases s.len(),
{
    if s.len() > 0 {
        let q = s.drop_last();
        if p.0 || exists|j: int| 0 <= j < q.len() && q[j] is None {
            lemma_failure_is_fatal(p, q, c);
        } else {
            let j = choose|j: int| 0 <= j < s.len() && s[j] is None;
            if j < q.len() {
                assert(q[j] == s[j]);
            }
        }
    }
}

} // verus!
