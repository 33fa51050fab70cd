//! Split tunneling: the set of applications (paths) and processes (pids)
//! excluded from the tunnel, and the encoding of path updates for the
//! platform driver. The driver call itself is the runtime's business;
//! its status comes back as a [`WinExcludeUpdateStatus`].

use vstd::prelude::*;

verus! {

/// What the platform driver answered to a path update.
#[derive(Clone, Copy, Debug, PartialEq, Eq, Structural)]
pub enum WinExcludeUpdateStatus {
    Success,
    NotFound,
    InvalidArgument,
}

/// Errors that may occur in [`SplitTunnel`].
#[derive(Clone, Copy, Debug, PartialEq, Eq, Structural)]
pub enum Error {
    /// The driver could not be initialized.
    InitializationFailed,
    /// Failed to update the paths to exclude from the tunnel.
    UpdatePaths(WinExcludeUpdateStatus),
}

impl WinExcludeUpdateStatus {
    /// Reads the driver's status as a result: success, or the failed
    /// update wrapped as an error.
    pub fn to_result(self) -> (r: Result<(), Error>)
        ensures
            r == if self == WinExcludeUpdateStatus::Success {
                Ok::<(), Error>(())
            } else {
                Err::<(), Error>(Error::UpdatePaths(self))
            },
    {
        match self {
            WinExcludeUpdateStatus::Success => Ok(()),
            other => Err(Error::UpdatePaths(other)),
        }
    }

    /// The text shown for this status.
    pub fn describe(&self) -> (r: &'static str)
        ensures
            r@ == match *self {
                WinExcludeUpdateStatus::Success => "Updated exclusions paths"@,
                WinExcludeUpdateStatus::NotFound => "One or more paths were not found"@,
                WinExcludeUpdateStatus::InvalidArgument => "Invalid argument"@,
            },
    {
        match self {
            WinExcludeUpdateStatus::Success => "Updated exclusions paths",
            WinExcludeUpdateStatus::NotFound => "One or more paths were not found",
            WinExcludeUpdateStatus::InvalidArgument => "Invalid argument",
        }
    }
}

/// The UTF-16 code units for one character: itself for the basic plane,
/// a surrogate pair above it.
pub open spec fn spec_utf16_char(c: char) -> Seq<u16> {
    let u = c as u32;
    if u < 0x10000 {
        seq![u as u16]
    } else {
        let v = (u - 0x10000) as u32;
        seq![(0xD800 + v / 0x400) as u16, (0xDC00 + v % 0x400) as u16]
    }
}

/// The UTF-16 code units of a string.
pub open spec fn spec_utf16(s: Seq<char>) -> Seq<u16>
    decreases s.len(),
{
    if s.len() == 0 {
        Seq::<u16>::empty()
    } else {
        spec_utf16(s.drop_last()) + spec_utf16_char(s.last())
    }
}

/// Encodes a string as UTF-16 code units, as the platform driver takes
/// its paths.
pub fn encode_utf16_units(s: &str) -> (r: Vec<u16>)
    ensures
        r@ == spec_utf16(s@),
{
    let s_len = s.unicode_len();
    let mut out: Vec<u16> = Vec::new();
    let mut i: usize = 0;
    while i < s_len
        invariant
            i <= s_len,
            s_len == s@.len(),
            out@ == spec_utf16(s@.subrange(0, i as int)),
        decreases s_len - i,
    {
        let c = s.get_char(i);
        proof {
            assert(s@.subrange(0, i + 1).drop_last() =~= s@.subrange(0, i as int));
            assert(s@.subrange(0, i + 1).last() == s@[i as int]);
        }
        let u = c as u32;
        if u < 0x10000 {
            out.push(u as u16);
            proof {
                assert(out@ =~= spec_utf16(s@.subrange(0, i + 1)));
            }
        } else {
            let v = u - 0x10000;
            out.push((0xD800 + v / 0x400) as u16);
            out.push((0xDC00 + v % 0x400) as u16);
            proof {
                assert(out@ =~= spec_utf16(s@.subrange(0, i + 1)));
            }
        }
        i = i + 1;
    }
    proof {
        assert(s@.subrange(0, s_len as int) =~= s@);
    }
    out
}

/// The given list names no application twice.
pub open spec fn paths_distinct(paths: Seq<String>) -> bool {
    forall|i: int, j: int|
        0 <= i < j < paths.len() ==> (#[trigger] paths[i])@ != (#[trigger] paths[j])@
}

/// Manages applications and processes whose traffic is excluded from the
/// tunnel: paths on platforms that exclude by application, pids on those
/// that exclude by process. Independent of the tunnel lifecycle.
pub struct SplitTunnel {
    pub paths: Vec<String>,
    pub pids: Vec<i32>,
}

impl SplitTunnel {
    /// No path and no pid in the excluded set: a path or pid occurs at
    /// most once.
    pub open spec fn wf(self) -> bool {
        &&& forall|i: int, j: int|
            0 <= i < j < self.paths@.len() ==> self.paths@[i]@ != self.paths@[j]@
        &&& forall|i: int, j: int| 0 <= i < j < self.pids@.len() ==> self.pids@[i] != self.pids@[j]
    }

    /// The excluded paths, in insertion order.
    pub open spec fn spec_paths(self) -> Seq<Seq<char>> {
        Seq::new(self.paths@.len(), |i: int| self.paths@[i]@)
    }

    /// The excluded pids, in insertion order.
    pub open spec fn spec_pids(self) -> Seq<i32> {
        self.pids@
    }

    /// An empty exclusion set.
    pub fn new() -> (r: SplitTunnel)
        ensures
            r.wf(),
            r.spec_paths().len() == 0,
            r.spec_pids().len() == 0,
    {
        SplitTunnel { paths: Vec::new(), pids: Vec::new() }
    }

    /// Whether a path is in the excluded set.
    pub fn has_path(&self, path: &str) -> (r: bool)
        ensures
            r == self.spec_paths().contains(path@),
    {
        let mut i: usize = 0;
        while i < self.paths.len()
            invariant
                i <= self.paths@.len(),
                forall|k: int| 0 <= k < i ==> self.spec_paths()[k] != path@,
        decreases self.paths@.len() - i,
        {
            if self.paths[i].as_str().eq(path) {
                proof {
                    assert(self.spec_paths()[i as int] == path@);
                }
                return true;
            }
            i = i + 1;
        }
        proof {
            if self.spec_paths().contains(path@) {
                let k = choose|k: int|
                    0 <= k < self.spec_paths().len() && self.spec_paths()[k] == path@;
                assert(self.spec_paths()[k] != path@);
            }
        }
        false
    }

    /// Adds a path to the excluded set; reports whether it was new.
    pub fn add_path(&mut self, path: String) -> (added: bool)
        requires
            old(self).wf(),
        ensures
            final(self).wf(),
            final(self).spec_pids() == old(self).spec_pids(),
            added == !old(self).spec_paths().contains(path@),
            if added {
                final(self).spec_paths() == old(self).spec_paths().push(path@)
            } else {
                final(self).spec_paths() == old(self).spec_paths()
            },
    {
        if self.has_path(path.as_str()) {
            false
        } else {
            self.paths.push(path);
            proof {
                assert(self.spec_paths() =~= old(self).spec_paths().push(
                    self.paths@.last()@,
                ));
                assert forall|i: int, j: int|
                    0 <= i < j < self.paths@.len() implies self.paths@[i]@ != self.paths@[j]@ by {
                    if j == self.paths@.len() - 1 {
                        assert(!old(self).spec_paths().contains(self.paths@[j]@));
                        assert(old(self).spec_paths()[i] == self.paths@[i]@);
                    }
                }
            }
            true
        }
    }

    /// Removes a path from the excluded set; reports whether it was
    /// there.
    #[verifier::loop_isolation(false)]
    pub fn remove_path(&mut self, path: &str) -> (removed: bool)
        requires
            old(self).wf(),
        ensures
            final(self).wf(),
            final(self).spec_pids() == old(self).spec_pids(),
            removed == old(self).spec_paths().contains(path@),
            !final(self).spec_paths().contains(path@),
            if removed {
                exists|k: int|
                    0 <= k < old(self).spec_paths().len() && old(self).spec_paths()[k] == path@
                        && final(self).spec_paths() == old(self).spec_paths().remove(k)
            } else {
                final(self).spec_paths() == old(self).spec_paths()
            },
    {
        let ghost old_strings = self.paths@;
        let mut i: usize = 0;
        while i < self.paths.len()
            invariant
                i <= self.paths@.len(),
                self.paths@ == old_strings,
                self.pids@ == old(self).pids@,
                forall|k: int| 0 <= k < i ==> (#[trigger] old_strings[k])@ != path@,
            decreases self.paths@.len() - i,
        {
            if self.paths[i].as_str().eq(path) {
                self.paths.remove(i);
                proof {
                    let new_strings = self.paths@;
                    assert(old_strings[i as int]@ == path@);
                    assert(new_strings =~= old_strings.remove(i as int));
                    assert forall|j: int|
                        0 <= j < new_strings.len() implies #[trigger] new_strings[j] == (
                        if j < i {
                            old_strings[j]
                        } else {
                            old_strings[j + 1]
                        }) by {}
                    assert(old(self).spec_paths().contains(path@)) by {
                        assert(old(self).spec_paths()[i as int] == path@);
                    }
                    assert(!self.spec_paths().contains(path@)) by {
                        if self.spec_paths().contains(path@) {
                            let j = choose|j: int|
                                0 <= j < self.spec_paths().len() && self.spec_paths()[j]
                                    == path@;
                            assert(new_strings[j]@ == path@);
                            if j < i {
                                assert(old_strings[j]@ == path@ && old_strings[i as int]@
                                    == path@);
                            } else {
                                assert(old_strings[j + 1]@ == path@ && old_strings[i as int]@
                                    == path@);
                            }
                        }
                    }
                    assert(self.spec_paths() =~= old(self).spec_paths().remove(i as int));
                }
                return true;
            }
            i = i + 1;
        }
        proof {
            if old(self).spec_paths().contains(path@) {
                let k = choose|k: int|
                    0 <= k < old(self).spec_paths().len() && old(self).spec_paths()[k] == path@;
                assert(old_strings[k]@ != path@);
                assert(old(self).spec_paths()[k] == old_strings[k]@);
            }
        }
        false
    }

    /// Whether a pid is in the excluded set.
    pub fn has_pid(&self, pid: i32) -> (r: bool)
        ensures
            r == self.spec_pids().contains(pid),
    {
        let mut i: usize = 0;
        while i < self.pids.len()
            invariant
                i <= self.pids@.len(),
                forall|k: int| 0 <= k < i ==> self.spec_pids()[k] != pid,
        decreases self.pids@.len() - i,
        {
            if self.pids[i] == pid {
                proof {
                    assert(self.spec_pids()[i as int] == pid);
                }
                return true;
            }
            i = i + 1;
        }
        proof {
            if self.spec_pids().contains(pid) {
                let k = choose|k: int|
                    0 <= k < self.spec_pids().len() && self.spec_pids()[k] == pid;
                assert(self.spec_pids()[k] != pid);
            }
        }
        false
    }

    /// Adds a pid to the excluded set; reports whether it was new.
    pub fn add_pid(&mut self, pid: i32) -> (added: bool)
        requires
            old(self).wf(),
        ensures
            final(self).wf(),
            final(self).spec_paths() == old(self).spec_paths(),
            added == !old(self).spec_pids().contains(pid),
            if added {
                final(self).spec_pids() == old(self).spec_pids().push(pid)
            } else {
                final(self).spec_pids() == old(self).spec_pids()
            },
    {
        if self.has_pid(pid) {
            false
        } else {
            self.pids.push(pid);
            proof {
                assert forall|i: int, j: int|
                    0 <= i < j < self.pids@.len() implies self.pids@[i] != self.pids@[j] by {
                    if j == self.pids@.len() - 1 {
                        assert(!old(self).spec_pids().contains(self.pids@[j]));
                        assert(old(self).spec_pids()[i] == self.pids@[i]);
                    }
                }
            }
            true
        }
    }

    /// Removes a pid from the excluded set; reports whether it was
    /// there.
    #[verifier::loop_isolation(false)]
    pub fn remove_pid(&mut self, pid: i32) -> (removed: bool)
        requires
            old(self).wf(),
        ensures
            final(self).wf(),
            final(self).spec_paths() == old(self).spec_paths(),
            removed == old(self).spec_pids().contains(pid),
            !final(self).spec_pids().contains(pid),
            if removed {
                exists|k: int|
                    0 <= k < old(self).spec_pids().len() && old(self).spec_pids()[k] == pid
                        && final(self).spec_pids() == old(self).spec_pids().remove(k)
            } else {
                final(self).spec_pids() == old(self).spec_pids()
            },
    {
        let ghost old_pids = self.pids@;
        let mut i: usize = 0;
        while i < self.pids.len()
            invariant
                i <= self.pids@.len(),
                self.pids@ == old_pids,
                self.paths@ == old(self).paths@,
                forall|k: int| 0 <= k < i ==> old_pids[k] != pid,
            decreases self.pids@.len() - i,
        {
            if self.pids[i] == pid {
                self.pids.remove(i);
                proof {
                    let new_pids = self.pids@;
                    assert(old_pids[i as int] == pid);
                    assert(new_pids =~= old_pids.remove(i as int));
                    assert forall|j: int|
                        0 <= j < new_pids.len() implies #[trigger] new_pids[j] == (
                        if j < i {
                            old_pids[j]
                        } else {
                            old_pids[j + 1]
                        }) by {}
                    assert(!new_pids.contains(pid)) by {
                        if new_pids.contains(pid) {
                            let j = choose|j: int| 0 <= j < new_pids.len() && new_pids[j] == pid;
                            if j < i {
                                assert(old_pids[j] == pid && old_pids[i as int] == pid);
                            } else {
                                assert(old_pids[j + 1] == pid && old_pids[i as int] == pid);
                            }
                        }
                    }
                }
                return true;
            }
            i = i + 1;
        }
        proof {
            if old_pids.contains(pid) {
                let k = choose|k: int| 0 <= k < old_pids.len() && old_pids[k] == pid;
                assert(old_pids[k] != pid);
            }
        }
        false
    }

    /// Empties both exclusion sets.
    pub fn clear(&mut self)
        ensures
            final(self).wf(),
            final(self).spec_paths().len() == 0,
            final(self).spec_pids().len() == 0,
    {
        self.paths.clear();
        self.pids.clear();
    }

    /// The excluded pids, in insertion order.
    pub fn list_pids(&self) -> (r: Vec<i32>)
        ensures
            r@ == self.spec_pids(),
    {
        let mut out: Vec<i32> = Vec::new();
        let mut i: usize = 0;
        while i < self.pids.len()
            invariant
                i <= self.pids@.len(),
                out@ == self.pids@.subrange(0, i as int),
        decreases self.pids@.len() - i,
        {
            out.push(self.pids[i]);
            proof {
                assert(out@ =~= self.pids@.subrange(0, i + 1));
            }
            i = i + 1;
        }
        proof {
            assert(self.pids@.subrange(0, self.pids@.len() as int) =~= self.pids@);
        }
        out
    }

    /// The excluded paths, in insertion order.
    #[verifier::loop_isolation(false)]
    pub fn list_paths(&self) -> (r: Vec<String>)
        ensures
            r@ == self.paths@,
    {
        let mut out: Vec<String> = Vec::new();
        let mut i: usize = 0;
        while i < self.paths.len()
            invariant
                i <= self.paths@.len(),
                out@ == self.paths@.subrange(0, i as int),
            decreases self.paths@.len() - i,
        {
            out.push(self.paths[i].clone());
            proof {
                assert(out@ =~= self.paths@.subrange(0, i + 1));
            }
            i = i + 1;
        }
        proof {
            assert(self.paths@.subrange(0, self.paths@.len() as int) =~= self.paths@);
        }
        out
    }

    /// Replaces the excluded paths with the given list and encodes the
    /// update for the platform driver: each path as UTF-16 code units
    /// with a terminating zero. Handing the encoding to the driver, and
    /// reading its status back, is the runtime's business. A list that
    /// names a path twice is stored as given, but only a duplicate-free
    /// list leaves the set fit for adding and removing single paths.
    #[verifier::loop_isolation(false)]
    pub fn set_paths(&mut self, paths: &Vec<String>) -> (r: Vec<Vec<u16>>)
        requires
            old(self).wf(),
        ensures
            paths_distinct(paths@) ==> final(self).wf(),
            final(self).spec_pids() == old(self).spec_pids(),
            final(self).paths@ == paths@,
            r@.len() == paths@.len(),
            forall|i: int|
                0 <= i < paths@.len() ==> (#[trigger] r@[i])@ == spec_utf16(
                    paths@[i]@,
                ).push(0u16),
    {
        let mut stored: Vec<String> = Vec::new();
        let mut encoded: Vec<Vec<u16>> = Vec::new();
        let mut i: usize = 0;
        while i < paths.len()
            invariant
                i <= paths@.len(),
                stored@ == paths@.subrange(0, i as int),
                encoded@.len() == i,
                forall|k: int|
                    0 <= k < i ==> (#[trigger] encoded@[k])@ == spec_utf16(
                        paths@[k]@,
                    ).push(0u16),
            decreases paths@.len() - i,
        {
            let path = &paths[i];
            let mut units = encode_utf16_units(path.as_str());
            units.push(0u16);
            stored.push(path.clone());
            encoded.push(units);
            proof {
                assert(stored@ =~= paths@.subrange(0, i + 1));
            }
            i = i + 1;
        }
        proof {
            assert(paths@.subrange(0, paths@.len() as int) =~= paths@);
        }
        self.paths = stored;
        encoded
    }
}

} // verus!
