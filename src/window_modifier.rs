//! The list of enumerated windows: which windows enumeration admits, in what
//! order they stand, and how a refresh keeps the records that are still valid.
//!
//! The caller walks the desktop's top-level windows itself. For each handle it
//! asks `admits` with what it read of the window, resolves the owning
//! executable's path only for admitted windows, and hands the record to
//! `add_window`. Before a refresh it prunes the records that no longer pass
//! `WindowInfo::is_valid` with `retain_valid`.
use vstd::prelude::*;
use crate::window_info::{WindowHandle, WindowInfo};

verus! {

/// Some record of `s` is of window `hwnd` of process `pid`.
pub open spec fn has_window(s: Seq<WindowInfo>, pid: u32, hwnd: WindowHandle) -> bool {
    exists|i: int| 0 <= i < s.len() && s[i].pid == pid && s[i].hwnd == hwnd
}

/// The records stand in ascending order of process id.
pub open spec fn sorted_by_pid(s: Seq<WindowInfo>) -> bool {
    forall|i: int, j: int| 0 <= i < j < s.len() ==> s[i].pid <= s[j].pid
}

/// No two records share a (process id, handle) pair.
pub open spec fn distinct_windows(s: Seq<WindowInfo>) -> bool {
    forall|i: int, j: int|
        0 <= i < j < s.len() ==> !(s[i].pid == s[j].pid && s[i].hwnd == s[j].hwnd)
}

/// What enumeration guarantees of its list: every record has a nonzero process
/// id and a non-empty title, no two records share a (process id, handle) pair,
/// and the records stand in ascending order of process id.
pub open spec fn well_formed_list(s: Seq<WindowInfo>) -> bool {
    &&& forall|i: int| 0 <= i < s.len() ==> (#[trigger] s[i]).pid != 0
    &&& forall|i: int| 0 <= i < s.len() ==> (#[trigger] s[i]).title@.len() > 0
    &&& distinct_windows(s)
    &&& sorted_by_pid(s)
}

/// Where a new record of process `pid` goes: just after the last record whose
/// process id is not greater, so that records of one process keep the order in
/// which they were found.
pub open spec fn insert_position(s: Seq<WindowInfo>, pid: u32) -> int
    decreases s.len(),
{
    if s.len() == 0 {
        0
    } else if s.last().pid <= pid {
        s.len() as int
    } else {
        insert_position(s.drop_last(), pid)
    }
}

/// The records of `s` whose flag in `keep` is set, in their order.
pub open spec fn kept(s: Seq<WindowInfo>, keep: Seq<bool>) -> Seq<WindowInfo>
    decreases s.len(),
{
    if s.len() == 0 || keep.len() == 0 {
        Seq::empty()
    } else if keep.last() {
        kept(s.drop_last(), keep.drop_last()).push(s.last())
    } else {
        kept(s.drop_last(), keep.drop_last())
    }
}

/// The path recorded for a window whose executable's path was `path`, where it
/// could be resolved: empty where it could not.
pub open spec fn recorded_path(path: Option<String>) -> Seq<char> {
    match path {
        Some(p) => p@,
        None => Seq::empty(),
    }
}

/// The insert position lies after every record of a process id not greater
/// than `pid` and before every greater one.
pub proof fn lemma_insert_position(s: Seq<WindowInfo>, pid: u32)
    ensures
        0 <= insert_position(s, pid) <= s.len(),
        forall|t: int| insert_position(s, pid) <= t < s.len() ==> (#[trigger] s[t]).pid > pid,
        sorted_by_pid(s) ==> forall|t: int|
            0 <= t < insert_position(s, pid) ==> (#[trigger] s[t]).pid <= pid,
    decreases s.len(),
{
    if s.len() > 0 && s.last().pid > pid {
        let p = s.drop_last();
        lemma_insert_position(p, pid);
        assert forall|t: int| insert_position(s, pid) <= t < s.len() implies (
        #[trigger] s[t]).pid > pid by {
            if t < p.len() {
                assert(s[t] == p[t]);
            }
        }
        if sorted_by_pid(s) {
            assert(sorted_by_pid(p)) by {
                assert forall|i: int, j: int| 0 <= i < j < p.len() implies p[i].pid <= p[j].pid by {
                    assert(p[i] == s[i] && p[j] == s[j]);
                }
            }
            assert forall|t: int| 0 <= t < insert_position(s, pid) implies (
            #[trigger] s[t]).pid <= pid by {
                assert(s[t] == p[t]);
            }
        }
    } else if s.len() > 0 && sorted_by_pid(s) {
        assert forall|t: int| 0 <= t < insert_position(s, pid) implies (
        #[trigger] s[t]).pid <= pid by {
            assert(s[t].pid <= s[s.len() - 1].pid);
        }
    }
}

/// Every record kept is a record of `s`.
pub proof fn lemma_kept_from(s: Seq<WindowInfo>, keep: Seq<bool>)
    ensures
        kept(s, keep).len() <= s.len(),
        forall|t: int| 0 <= t < kept(s, keep).len() ==> s.contains(#[trigger] kept(s, keep)[t]),
    decreases s.len(),
{
    if s.len() > 0 && keep.len() > 0 {
        let p = s.drop_last();
        lemma_kept_from(p, keep.drop_last());
        let k = kept(s, keep);
        let kp = kept(p, keep.drop_last());
        assert forall|t: int| 0 <= t < k.len() implies s.contains(#[trigger] k[t]) by {
            if t < kp.len() {
                let i = choose|i: int| 0 <= i < p.len() && p[i] == kp[t];
                assert(k[t] == kp[t]);
                assert(p[i] == s[i]);
                assert(0 <= i < s.len() && s[i] == k[t]);
            } else {
                assert(keep.last() && k == kp.push(s.last()));
                assert(0 <= s.len() - 1 < s.len() && s[s.len() - 1] == k[t]);
            }
        }
    } else {
        assert(kept(s, keep).len() == 0);
    }
}

/// Keeping some records of a well-formed list leaves a well-formed list.
pub proof fn lemma_kept_well_formed(s: Seq<WindowInfo>, keep: Seq<bool>)
    requires
        well_formed_list(s),
    ensures
        well_formed_list(kept(s, keep)),
    decreases s.len(),
{
    if s.len() > 0 && keep.len() > 0 {
        let p = s.drop_last();
        let kp = kept(p, keep.drop_last());
        assert(well_formed_list(p)) by {
            assert forall|i: int| 0 <= i < p.len() implies #[trigger] p[i] == s[i] by {}
        }
        lemma_kept_well_formed(p, keep.drop_last());
        lemma_kept_from(p, keep.drop_last());
        if keep.last() {
            let k = kp.push(s.last());
            let n = s.len() - 1;
            assert forall|t: int| 0 <= t < kp.len() implies {
                &&& (#[trigger] kp[t]).pid <= s[n].pid
                &&& !(kp[t].pid == s[n].pid && kp[t].hwnd == s[n].hwnd)
            } by {
                let i = choose|i: int| 0 <= i < p.len() && p[i] == kp[t];
                assert(p[i] == s[i]);
            }
            assert forall|i: int| 0 <= i < k.len() implies (#[trigger] k[i]).pid != 0 && k[i].title@.len() > 0 by {
                if i < kp.len() {
                    assert(k[i] == kp[i]);
                }
            }
            assert forall|i: int, j: int| 0 <= i < j < k.len() implies k[i].pid <= k[j].pid && !(
            k[i].pid == k[j].pid && k[i].hwnd == k[j].hwnd) by {
                assert(k[i] == kp[i]);
                if j < kp.len() {
                    assert(k[j] == kp[j]);
                }
            }
        }
    }
}

/// Every record in a well-formed list has a nonzero process id and a non-empty
/// title, and no two records share a (process id, handle) pair.
pub proof fn lemma_enumerated_records(s: Seq<WindowInfo>)
    requires
        well_formed_list(s),
    ensures
        forall|i: int| 0 <= i < s.len() ==> (#[trigger] s[i]).title@.len() > 0,
        forall|i: int| 0 <= i < s.len() ==> (#[trigger] s[i]).pid != 0,
        forall|i: int, j: int|
            0 <= i < s.len() && 0 <= j < s.len() && i != j ==> !(s[i].pid == s[j].pid
                && s[i].hwnd == s[j].hwnd),
{
    assert forall|i: int, j: int|
        0 <= i < s.len() && 0 <= j < s.len() && i != j implies !(s[i].pid == s[j].pid
        && s[i].hwnd == s[j].hwnd) by {
        if j < i {
            assert(!(s[j].pid == s[i].pid && s[j].hwnd == s[i].hwnd));
        }
    }
}

/// The windows that enumeration found, in ascending order of process id.
#[derive(Debug)]
pub struct WindowModifier {
    window_info_list: Vec<WindowInfo>,
}

impl View for WindowModifier {
    type V = Seq<WindowInfo>;

    closed spec fn view(&self) -> Seq<WindowInfo> {
        self.window_info_list@
    }
}

impl WindowModifier {
    /// An empty list.
    pub fn new() -> (r: Self)
        ensures
            r@ == Seq::<WindowInfo>::empty(),
            well_formed_list(r@),
    {
        WindowModifier { window_info_list: Vec::new() }
    }

    /// The records, in order.
    pub fn window_info_list(&self) -> (r: &[WindowInfo])
        ensures
            r@ == self@,
    {
        self.window_info_list.as_slice()
    }

    /// The records, in order, for changing their fullscreen state in place.
    pub fn window_info_list_mut(&mut self) -> (r: &mut [WindowInfo])
        ensures
            r@ == old(self)@,
            final(r)@ == final(self)@,
    {
        self.window_info_list.as_mut_slice()
    }

    /// The index of the record of window `hwnd` of process `pid`, if there is
    /// one: how a selection is found again after a refresh.
    pub fn position_of(&self, pid: u32, hwnd: WindowHandle) -> (r: Option<usize>)
        ensures
            r is None <==> !has_window(self@, pid, hwnd),
            r matches Some(i) ==> i < self@.len() && self@[i as int].pid == pid
                && self@[i as int].hwnd == hwnd && forall|t: int|
                0 <= t < i ==> !(#[trigger] self@[t].pid == pid && self@[t].hwnd == hwnd),
    {
        let mut i: usize = 0;
        while i < self.window_info_list.len()
            invariant
                i <= self@.len(),
                self@ == self.window_info_list@,
                forall|t: int|
                    0 <= t < i ==> !(#[trigger] self@[t].pid == pid && self@[t].hwnd == hwnd),
            decreases self@.len() - i,
        {
            let w = &self.window_info_list[i];
            if w.pid == pid && w.hwnd == hwnd {
                return Some(i);
            }
            i = i + 1;
        }
        None
    }

    /// Whether enumeration takes a window that is `visible`, owned by process
    /// `pid` and titled `title`: it must be visible, have a nonzero owner and
    /// a non-empty title, and not be listed yet.
    pub fn admits(&self, visible: bool, pid: u32, hwnd: WindowHandle, title: &String) -> (r: bool)
        ensures
            r == (visible && pid != 0 && title@.len() > 0 && !has_window(self@, pid, hwnd)),
    {
        visible && pid != 0 && !title.as_str().is_empty() && self.position_of(pid, hwnd).is_none()
    }

    /// Where a new record of process `pid` goes.
    fn insert_index(&self, pid: u32) -> (r: usize)
        ensures
            r == insert_position(self@, pid),
    {
        let ghost s = self@;
        let mut j: usize = self.window_info_list.len();
        assert(s.take(j as int) =~= s);
        while j > 0 && self.window_info_list[j - 1].pid > pid
            invariant
                j <= s.len(),
                s == self.window_info_list@,
                insert_position(s, pid) == insert_position(s.take(j as int), pid),
            decreases j,
        {
            assert(s.take(j as int).drop_last() =~= s.take(j - 1));
            j = j - 1;
        }
        if j > 0 {
            assert(s.take(j as int).last() == s[j - 1]);
        }
        j
    }

    /// Adds the record of window `hwnd` of process `pid` titled `title`, with
    /// the executable's path where it could be resolved and an empty one where
    /// it could not, just after the records of process ids not greater than
    /// `pid`. A window without owner or title, or one already listed, is not
    /// added. Returns whether the record was added.
    pub fn add_window(
        &mut self,
        pid: u32,
        hwnd: WindowHandle,
        title: String,
        program_path: Option<String>,
    ) -> (added: bool)
        ensures
            added == (pid != 0 && title@.len() > 0 && !has_window(old(self)@, pid, hwnd)),
            !added ==> final(self)@ == old(self)@,
            added ==> {
                let j = insert_position(old(self)@, pid);
                &&& final(self)@ == old(self)@.insert(j, final(self)@[j])
                &&& final(self)@[j].pid == pid
                &&& final(self)@[j].hwnd == hwnd
                &&& final(self)@[j].title == title
                &&& final(self)@[j].program_path@ == recorded_path(program_path)
                &&& final(self)@[j].saved_state() is None
            },
            well_formed_list(old(self)@) ==> well_formed_list(final(self)@),
    {
        if pid == 0 || title.as_str().is_empty() || self.position_of(pid, hwnd).is_some() {
            return false;
        }
        let j = self.insert_index(pid);
        let path = match program_path {
            Some(p) => p,
            None => String::new(),
        };
        let ghost s = self@;
        proof {
            lemma_insert_position(s, pid);
        }
        let record = WindowInfo::new(pid, hwnd, title, path);
        self.window_info_list.insert(j, record);
        proof {
            let n = self@;
            assert(n =~= s.insert(j as int, n[j as int]));
            if well_formed_list(s) {
                assert forall|i: int| 0 <= i < n.len() implies (#[trigger] n[i]).pid != 0
                    && n[i].title@.len() > 0 by {
                    if i < j {
                        assert(n[i] == s[i]);
                    } else if i > j {
                        assert(n[i] == s[i - 1]);
                    }
                }
                assert forall|a: int, b: int| 0 <= a < b < n.len() implies n[a].pid <= n[b].pid
                    && !(n[a].pid == n[b].pid && n[a].hwnd == n[b].hwnd) by {
                    if a < j {
                        assert(n[a] == s[a]);
                    } else if a > j {
                        assert(n[a] == s[a - 1]);
                    }
                    if b < j {
                        assert(n[b] == s[b]);
                    } else if b > j {
                        assert(n[b] == s[b - 1]);
                    }
                    if a == j {
                        assert(!(s[b - 1].pid == pid && s[b - 1].hwnd == hwnd));
                    }
                    if b == j {
                        assert(!(s[a].pid == pid && s[a].hwnd == hwnd));
                    }
                }
            }
        }
        true
    }

    /// Keeps the records whose flag in `still_valid` is set, in their order:
    /// how a refresh drops the records whose window has gone.
    pub fn retain_valid(&mut self, still_valid: &Vec<bool>)
        requires
            still_valid@.len() == old(self)@.len(),
        ensures
            final(self)@ == kept(old(self)@, still_valid@),
            well_formed_list(old(self)@) ==> well_formed_list(final(self)@),
    {
        let ghost s = self@;
        let ghost keep = still_valid@;
        let mut i: usize = 0;
        let mut k: usize = 0;
        assert(s.take(0) =~= Seq::<WindowInfo>::empty());
        assert(s.skip(0) =~= s);
        while k < still_valid.len()
            invariant
                k <= s.len(),
                keep.len() == s.len(),
                keep == still_valid@,
                self@ == self.window_info_list@,
                i == kept(s.take(k as int), keep.take(k as int)).len(),
                self@ == kept(s.take(k as int), keep.take(k as int)) + s.skip(k as int),
            decreases s.len() - k,
        {
            let ghost before = kept(s.take(k as int), keep.take(k as int));
            assert(s.take(k + 1).drop_last() =~= s.take(k as int));
            assert(keep.take(k + 1).drop_last() =~= keep.take(k as int));
            assert(s.take(k + 1).last() == s[k as int]);
            assert(keep.take(k + 1).last() == keep[k as int]);
            assert(s.skip(k as int) =~= seq![s[k as int]] + s.skip(k + 1));
            if still_valid[k] {
                assert(kept(s.take(k + 1), keep.take(k + 1)) == before.push(s[k as int]));
                assert(self@ =~= before.push(s[k as int]) + s.skip(k + 1));
                proof {
                    lemma_kept_from(s.take(k + 1), keep.take(k + 1));
                }
                i = i + 1;
            } else {
                assert(kept(s.take(k + 1), keep.take(k + 1)) == before);
                assert(self@[i as int] == s[k as int]);
                self.window_info_list.remove(i);
                assert(self@ =~= before + s.skip(k + 1));
            }
            k = k + 1;
        }
        assert(s.take(k as int) =~= s);
        assert(keep.take(k as int) =~= keep);
        assert(s.skip(k as int) =~= Seq::<WindowInfo>::empty());
        assert(self@ =~= kept(s, keep));
        proof {
            if well_formed_list(s) {
                lemma_kept_well_formed(s, keep);
            }
        }
    }
}

} // verus!
