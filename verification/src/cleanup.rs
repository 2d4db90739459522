//! The cleanup manifest: the filesystem paths created during provisioning
//! that are to be removed after the child process completes. Paths are
//! recorded only when the caller opted into cleanup, and a path that existed
//! before provisioning is never recorded.

use vstd::prelude::*;

verus! {

/// An ordered list of paths to remove at the end of the run. It is consumed
/// exactly once, after the supervised child has completed, whatever the
/// child's outcome was.
pub struct CleanupManifest {
    clean: bool,
    paths: Vec<String>,
}

impl CleanupManifest {
    /// Whether the caller opted into cleanup.
    pub closed spec fn clean_enabled(self) -> bool {
        self.clean
    }

    /// The recorded paths, in recording order.
    pub closed spec fn paths_view(self) -> Seq<Seq<char>> {
        Seq::new(self.paths@.len(), |i: int| self.paths@[i]@)
    }

    /// With cleanup disabled the manifest holds nothing, ever.
    pub open spec fn wf(self) -> bool {
        !self.clean_enabled() ==> self.paths_view().len() == 0
    }

    /// An empty manifest; `clean` records whether the caller opted in.
    pub fn new(clean: bool) -> (r: Self)
        ensures
            r.wf(),
            r.clean_enabled() == clean,
            r.paths_view() == Seq::<Seq<char>>::empty(),
    {
        let r = CleanupManifest { clean, paths: Vec::new() };
        proof {
            assert(r.paths_view() =~= Seq::<Seq<char>>::empty());
        }
        r
    }

    /// Whether the caller opted into cleanup.
    pub fn clean_mode(&self) -> (r: bool)
        ensures
            r == self.clean_enabled(),
    {
        self.clean
    }

    /// Records a path created during provisioning. Nothing is recorded when
    /// cleanup is disabled, nor when the path already existed before the
    /// provisioning step touched it: only artifacts of this run are removed.
    pub fn record_created(&mut self, path: String, existed_before: bool)
        requires
            old(self).wf(),
        ensures
            final(self).wf(),
            final(self).clean_enabled() == old(self).clean_enabled(),
            final(self).paths_view() == if old(self).clean_enabled() && !existed_before {
                old(self).paths_view().push(path@)
            } else {
                old(self).paths_view()
            },
    {
        if self.clean && !existed_before {
            let ghost p0 = self.paths_view();
            self.paths.push(path);
            proof {
                assert(self.paths_view() =~= p0.push(path@));
            }
        }
    }

    /// The number of recorded paths.
    pub fn len(&self) -> (r: usize)
        ensures
            r == self.paths_view().len(),
    {
        self.paths.len()
    }

    /// Consumes the manifest, yielding the paths to remove in order.
    pub fn take_paths(self) -> (r: Vec<String>)
        ensures
            r@.len() == self.paths_view().len(),
            forall|i: int| 0 <= i < r@.len() ==> (#[trigger] r@[i])@ == self.paths_view()[i],
    {
        self.paths
    }
}

/// With cleanup disabled, the manifest is empty at the end of the run,
/// whatever was provisioned: recording upholds this, so any reachable
/// manifest without the opt-in holds no path at all.
pub proof fn lemma_clean_disabled_manifest_empty(m: CleanupManifest)
    requires
        m.wf(),
        !m.clean_enabled(),
    ensures
        m.paths_view().len() == 0,
{
}

} // verus!
