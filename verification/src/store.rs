//! The holder of the current snapshot of the published keys.

use vstd::prelude::*;

use crate::keys::{GithubJWKS, JwkView};

verus! {

/// Holds the latest snapshot of the published keys.
///
/// Readers borrow the snapshot whole and a refresh replaces it whole, so a
/// reader sees the keys of one snapshot and never a mixture of two. The
/// store itself is not shared: whoever shares it between tasks guards it
/// with a lock that admits many readers or one writer.
#[derive(Debug)]
pub struct KeySetStore {
    snapshot: GithubJWKS,
}

impl View for KeySetStore {
    type V = Seq<JwkView>;

    closed spec fn view(&self) -> Seq<JwkView> {
        self.snapshot@
    }
}

impl KeySetStore {
    /// A store that holds `initial`.
    pub fn new(initial: GithubJWKS) -> (store: KeySetStore)
        ensures
            store@ == initial@,
    {
        KeySetStore { snapshot: initial }
    }

    /// A store that holds no key yet, as before the first fetch.
    pub fn empty() -> (store: KeySetStore)
        ensures
            store@ == Seq::<JwkView>::empty(),
    {
        let store = KeySetStore { snapshot: GithubJWKS { keys: Vec::new() } };
        assert(store@ =~= Seq::<JwkView>::empty());
        store
    }

    /// The snapshot currently held.
    pub fn read(&self) -> (snapshot: &GithubJWKS)
        ensures
            snapshot@ == self@,
    {
        &self.snapshot
    }

    /// Replaces the snapshot by `next` and hands the previous one back.
    pub fn replace(&mut self, next: GithubJWKS) -> (previous: GithubJWKS)
        ensures
            final(self)@ == next@,
            previous@ == old(self)@,
    {
        let mut held = next;
        std::mem::swap(&mut self.snapshot, &mut held);
        held
    }
}

} // verus!
