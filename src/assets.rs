//! Tracking of the assets a loading phase waits for.
use vstd::prelude::*;

verus! {

/// The load state of one asset, or of a whole set of them.
#[derive(Clone, Copy, Debug, PartialEq, Eq, Structural)]
pub enum LoadState {
    Pending,
    Loaded,
    Failed,
}

/// The combined state of a set of assets: failed if any failed; otherwise
/// pending if any is still pending; otherwise loaded.
pub open spec fn aggregate(states: Seq<LoadState>) -> LoadState {
    if states.contains(LoadState::Failed) {
        LoadState::Failed
    } else if states.contains(LoadState::Pending) {
        LoadState::Pending
    } else {
        LoadState::Loaded
    }
}

/// The assets registered for the current loading phase, each identified by
/// the index that registration handed out.
#[derive(Debug)]
pub struct AssetsLoading {
    states: Vec<LoadState>,
}

impl View for AssetsLoading {
    type V = Seq<LoadState>;

    closed spec fn view(&self) -> Seq<LoadState> {
        self.states@
    }
}

impl AssetsLoading {
    /// A tracker with nothing registered.
    pub fn new() -> (r: AssetsLoading)
        ensures
            r@ == Seq::<LoadState>::empty(),
    {
        AssetsLoading { states: Vec::new() }
    }

    /// How many assets are registered.
    pub fn len(&self) -> (r: usize)
        ensures
            r == self@.len(),
    {
        self.states.len()
    }

    /// Registers one more asset, pending, and returns its handle.
    pub fn register(&mut self) -> (r: usize)
        requires
            old(self)@.len() < usize::MAX,
        ensures
            r == old(self)@.len(),
            final(self)@ == old(self)@.push(LoadState::Pending),
    {
        let handle = self.states.len();
        self.states.push(LoadState::Pending);
        handle
    }

    /// Records the current state of the asset with handle `handle`.
    pub fn report(&mut self, handle: usize, state: LoadState)
        requires
            handle < old(self)@.len(),
        ensures
            final(self)@ == old(self)@.update(handle as int, state),
    {
        self.states.set(handle, state);
    }

    /// The state of the asset with handle `handle`.
    pub fn state(&self, handle: usize) -> (r: LoadState)
        requires
            handle < self@.len(),
        ensures
            r == self@[handle as int],
    {
        self.states[handle]
    }

    /// The combined state of every registered asset.
    pub fn aggregate_status(&self) -> (r: LoadState)
        ensures
            r == aggregate(self@),
    {
        let n = self.states.len();
        let mut pending = false;
        let mut i: usize = 0;
        while i < n
            invariant
                n == self.states@.len(),
                i <= n,
                forall|k: int| 0 <= k < i ==> self.states@[k] != LoadState::Failed,
                pending <==> exists|k: int| 0 <= k < i && self.states@[k] == LoadState::Pending,
            decreases n - i,
        {
            match self.states[i] {
                LoadState::Failed => {
                    assert(self@.contains(LoadState::Failed)) by {
                        assert(self@[i as int] == LoadState::Failed);
                    }
                    return LoadState::Failed;
                },
                LoadState::Pending => {
                    pending = true;
                },
                LoadState::Loaded => {},
            }
            i += 1;
        }
        if pending {
            LoadState::Pending
        } else {
            LoadState::Loaded
        }
    }
}

/// One failed asset makes the whole set failed, whatever the others are.
pub proof fn lemma_failed_dominates(states: Seq<LoadState>, i: int)
    requires
        0 <= i < states.len(),
        states[i] == LoadState::Failed,
    ensures
        aggregate(states) == LoadState::Failed,
{
    assert(states.contains(LoadState::Failed));
}

/// The set is loaded exactly when every asset in it is.
pub proof fn lemma_loaded_iff_all(states: Seq<LoadState>)
    ensures
        aggregate(states) == LoadState::Loaded <==> forall|i: int|
            0 <= i < states.len() ==> states[i] == LoadState::Loaded,
{
    if forall|i: int| 0 <= i < states.len() ==> states[i] == LoadState::Loaded {
        assert(!states.contains(LoadState::Failed));
        assert(!states.contains(LoadState::Pending));
    }
    if aggregate(states) == LoadState::Loaded {
        assert forall|i: int| 0 <= i < states.len() implies states[i] == LoadState::Loaded by {
            if states[i] != LoadState::Loaded {
                assert(states.contains(states[i]));
            }
        }
    }
}

/// The combined state depends only on how many assets are in each state, not
/// on their order.
pub proof fn lemma_aggregate_order_independent(a: Seq<LoadState>, b: Seq<LoadState>)
    requires
        a.to_multiset() == b.to_multiset(),
    ensures
        aggregate(a) == aggregate(b),
{
    a.to_multiset_ensures();
    b.to_multiset_ensures();
    let f = LoadState::Failed;
    let p = LoadState::Pending;
    assert(a.contains(f) <==> a.to_multiset().count(f) > 0);
    assert(b.contains(f) <==> b.to_multiset().count(f) > 0);
    assert(a.contains(p) <==> a.to_multiset().count(p) > 0);
    assert(b.contains(p) <==> b.to_multiset().count(p) > 0);
}

/// Reports for two different assets lead to the same tracker in either order,
/// so the order in which assets complete does not matter.
pub proof fn lemma_reports_commute(
    states: Seq<LoadState>,
    i: int,
    x: LoadState,
    j: int,
    y: LoadState,
)
    requires
        0 <= i < states.len(),
        0 <= j < states.len(),
        i != j,
    ensures
        states.update(i, x).update(j, y) == states.update(j, y).update(i, x),
{
    assert(states.update(i, x).update(j, y) =~= states.update(j, y).update(i, x));
}

} // verus!
