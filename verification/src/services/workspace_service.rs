//! The open workspace and the list of recently opened ones.

use vstd::prelude::*;
use crate::text::{chars_of, file_name_exec, file_name_spec, split_exec, split_spec};

verus! {

/// An open workspace: its root and the root's last component.
#[derive(Debug, Clone)]
pub struct WorkspaceInfo {
    pub root: String,
    pub name: String,
}

/// Is `piece`, at position `i` of the `/`-separated pieces of a path, one
/// of the path's components? Empty pieces are not, nor is `.` anywhere but
/// at the start of a relative path.
pub open spec fn keep_piece(piece: Seq<char>, i: int, absolute: bool) -> bool {
    piece.len() > 0 && (piece != seq!['.'] || (i == 0 && !absolute))
}

/// The components among the first `n` pieces.
pub open spec fn kept_pieces(ps: Seq<Seq<char>>, absolute: bool, n: nat) -> Seq<Seq<char>>
    decreases n,
{
    if n == 0 || n > ps.len() {
        Seq::empty()
    } else {
        kept_pieces(ps, absolute, (n - 1) as nat) + if keep_piece(ps[n - 1], n - 1, absolute) {
            seq![ps[n - 1]]
        } else {
            Seq::empty()
        }
    }
}

/// Whether a path is absolute, and its components (as `Path::components`
/// yields them for a Unix path).
pub open spec fn path_components(p: Seq<char>) -> (bool, Seq<Seq<char>>) {
    let absolute = p.len() > 0 && p[0] == '/';
    let ps = split_spec(p, seq!['/']);
    (absolute, kept_pieces(ps, absolute, ps.len()))
}

/// Two paths are equal as `Path`s: same components.
pub open spec fn same_path(a: Seq<char>, b: Seq<char>) -> bool {
    path_components(a) == path_components(b)
}

/// The components of a path (see `path_components`).
fn components(p: &str) -> (r: (bool, Vec<String>))
    ensures
        (r.0, r.1@.map_values(|s: String| s@)) == path_components(p@),
{
    let v = chars_of(p);
    let absolute = v.len() > 0 && v[0] == '/';
    let slash: Vec<char> = vec!['/'];
    assert(slash@ =~= seq!['/']);
    let pieces = split_exec(&v, &slash);
    let ghost ps = pieces@.map_values(|s: String| s@);
    let mut out: Vec<String> = Vec::new();
    let mut i: usize = 0;
    while i < pieces.len()
        invariant
            i <= pieces@.len(),
            ps == pieces@.map_values(|s: String| s@),
            ps == split_spec(p@, seq!['/']),
            absolute == (p@.len() > 0 && p@[0] == '/'),
            out@.map_values(|s: String| s@) == kept_pieces(ps, absolute, i as nat),
        decreases pieces.len() - i,
    {
        let c = chars_of(pieces[i].as_str());
        let is_dot = c.len() == 1 && c[0] == '.';
        proof {
            if is_dot {
                assert(c@ =~= seq!['.']);
            }
            if c@ == seq!['.'] {
                assert(is_dot);
            }
        }
        let ghost prev = out@;
        if c.len() > 0 && (!is_dot || (i == 0 && !absolute)) {
            out.push(pieces[i].clone());
            assert(out@.map_values(|s: String| s@) =~= prev.map_values(|s: String| s@).push(ps[i as int]));
        }
        i = i + 1;
    }
    (absolute, out)
}

/// Are two paths equal as `Path`s (see `same_path`)?
pub fn paths_equal(a: &str, b: &str) -> (r: bool)
    ensures
        r == same_path(a@, b@),
{
    let (aa, ac) = components(a);
    let (ba, bc) = components(b);
    let ghost av = ac@.map_values(|s: String| s@);
    let ghost bv = bc@.map_values(|s: String| s@);
    assert(path_components(a@) == (aa, av));
    assert(path_components(b@) == (ba, bv));
    if aa != ba || ac.len() != bc.len() {
        proof {
            if path_components(a@) == path_components(b@) {
                assert(av.len() == bv.len());
            }
        }
        return false;
    }
    let mut i: usize = 0;
    while i < ac.len()
        invariant
            i <= ac@.len(),
            ac@.len() == bc@.len(),
            av == ac@.map_values(|s: String| s@),
            bv == bc@.map_values(|s: String| s@),
            path_components(a@) == (aa, av),
            path_components(b@) == (ba, bv),
            forall|j: int| 0 <= j < i ==> av[j] == bv[j],
        decreases ac.len() - i,
    {
        if !crate::text::str_eq(ac[i].as_str(), bc[i].as_str()) {
            proof {
                assert(av[i as int] == ac@[i as int]@);
                assert(bv[i as int] == bc@[i as int]@);
                if path_components(a@) == path_components(b@) {
                    assert(av == bv);
                    assert(av[i as int] == bv[i as int]);
                }
            }
            return false;
        }
        i = i + 1;
    }
    assert(av =~= bv);
    true
}

/// The entries of `recent` that are not the path `root`, in order.
pub open spec fn without_path(recent: Seq<Seq<char>>, root: Seq<char>) -> Seq<Seq<char>>
    decreases recent.len(),
{
    if recent.len() == 0 {
        Seq::empty()
    } else {
        without_path(recent.drop_last(), root) + if same_path(recent.last(), root) {
            Seq::empty()
        } else {
            seq![recent.last()]
        }
    }
}

/// The most recent workspaces kept.
pub open spec fn max_recent() -> nat {
    20
}

/// The recent list after opening `root`: `root` first, then the others
/// without it, at most 20 in all.
pub open spec fn opened_recent(recent: Seq<Seq<char>>, root: Seq<char>) -> Seq<Seq<char>> {
    let l = seq![root] + without_path(recent, root);
    if l.len() > max_recent() {
        l.take(max_recent() as int)
    } else {
        l
    }
}

/// No two entries are the same path.
pub open spec fn distinct_paths(s: Seq<Seq<char>>) -> bool {
    forall|i: int, j: int| 0 <= i < s.len() && 0 <= j < s.len() && i != j ==> !same_path(s[i], s[j])
}

/// The name shown for a workspace: the root's last component, or nothing.
pub open spec fn workspace_name(root: Seq<char>) -> Seq<char> {
    match file_name_spec(root) {
        Some(n) => n,
        None => Seq::empty(),
    }
}

/// The open workspace and the recently opened ones, newest first.
#[derive(Debug)]
pub struct WorkspaceService {
    current: Option<WorkspaceInfo>,
    recent: Vec<String>,
}

impl WorkspaceService {
    /// The recent list names each path once and keeps at most 20.
    #[verifier::type_invariant]
    closed spec fn wf(self) -> bool {
        &&& distinct_paths(self.recent@.map_values(|s: String| s@))
        &&& self.recent@.len() <= max_recent()
    }

    /// The recently opened roots, newest first.
    pub closed spec fn recent_view(&self) -> Seq<Seq<char>> {
        self.recent@.map_values(|s: String| s@)
    }

    /// The open workspace's root and name.
    pub closed spec fn current_view(&self) -> Option<(Seq<char>, Seq<char>)> {
        match self.current {
            Some(w) => Some((w.root@, w.name@)),
            None => None,
        }
    }

    /// No workspace open and none recently.
    pub fn new() -> (r: Self)
        ensures
            r.current_view() is None,
            r.recent_view() == Seq::<Seq<char>>::empty(),
    {
        let r = WorkspaceService { current: None, recent: Vec::new() };
        assert(r.recent_view() =~= Seq::<Seq<char>>::empty());
        r
    }

    /// Opens the workspace at `root`: it becomes the current one and moves
    /// to the front of the recent list.
    pub fn open(&mut self, root: String)
        ensures
            final(self).current_view() == Some((root@, workspace_name(root@))),
            final(self).recent_view() == opened_recent(old(self).recent_view(), root@),
            distinct_paths(final(self).recent_view()),
            final(self).recent_view().len() <= max_recent(),
    {
        proof {
            use_type_invariant(&*self);
        }
        let rv = chars_of(root.as_str());
        let name = match file_name_exec(&rv) {
            Some(n) => n,
            None => String::new(),
        };
        let ghost old_recent = self.recent_view();
        let mut kept: Vec<String> = Vec::new();
        kept.push(root.clone());
        let mut i: usize = 0;
        while i < self.recent.len()
            invariant
                i <= self.recent@.len(),
                old_recent == self.recent@.map_values(|s: String| s@),
                kept@.map_values(|s: String| s@) == seq![root@] + without_path(old_recent.take(i as int), root@),
            decreases self.recent.len() - i,
        {
            assert(old_recent.take(i + 1).drop_last() =~= old_recent.take(i as int));
            let ghost prev = kept@;
            if !paths_equal(self.recent[i].as_str(), root.as_str()) {
                kept.push(self.recent[i].clone());
                assert(kept@.map_values(|s: String| s@) =~= prev.map_values(|s: String| s@).push(old_recent[i as int]));
            }
            i = i + 1;
        }
        assert(old_recent.take(i as int) =~= old_recent);
        let ghost l = seq![root@] + without_path(old_recent, root@);
        assert(kept@.map_values(|s: String| s@) == l);
        if kept.len() > 20 {
            let ghost before = kept@;
            kept.truncate(20);
            assert(kept@ =~= before.take(20));
            assert(kept@.map_values(|s: String| s@) =~= l.take(max_recent() as int));
        }
        proof {
            use_type_invariant(&*self);
            lemma_opened_distinct(old_recent, root@);
        }
        assert(kept@.map_values(|s: String| s@) == opened_recent(old_recent, root@));
        *self = WorkspaceService { current: Some(WorkspaceInfo { root, name }), recent: kept };
    }

    /// Closes the current workspace; the recent list stays.
    pub fn close(&mut self)
        ensures
            final(self).current_view() is None,
            final(self).recent_view() == old(self).recent_view(),
    {
        proof {
            use_type_invariant(&*self);
        }
        self.current = None;
    }

    /// The open workspace.
    pub fn current(&self) -> (r: Option<WorkspaceInfo>)
        ensures
            match r {
                Some(w) => self.current_view() == Some((w.root@, w.name@)),
                None => self.current_view() is None,
            },
    {
        match &self.current {
            Some(w) => Some(WorkspaceInfo { root: w.root.clone(), name: w.name.clone() }),
            None => None,
        }
    }

    /// The recently opened roots, newest first.
    pub fn recent(&self) -> (r: Vec<String>)
        ensures
            r@.map_values(|s: String| s@) == self.recent_view(),
    {
        let mut out: Vec<String> = Vec::new();
        let mut i: usize = 0;
        while i < self.recent.len()
            invariant
                i <= self.recent@.len(),
                out@.map_values(|s: String| s@) == self.recent_view().take(i as int),
            decreases self.recent.len() - i,
        {
            let ghost prev = out@;
            out.push(self.recent[i].clone());
            assert(out@.map_values(|s: String| s@) =~= prev.map_values(|s: String| s@).push(self.recent_view()[i as int]));
            assert(self.recent_view().take(i + 1) =~= self.recent_view().take(i as int).push(self.recent_view()[i as int]));
            i = i + 1;
        }
        assert(self.recent_view().take(i as int) =~= self.recent_view());
        out
    }
}

impl Default for WorkspaceService {
    fn default() -> (r: Self)
        ensures
            r.current_view() is None,
            r.recent_view() == Seq::<Seq<char>>::empty(),
    {
        WorkspaceService::new()
    }
}

/// What `without_path` keeps: entries of the list that are not `root`,
/// each one of the list's.
proof fn lemma_without_path(recent: Seq<Seq<char>>, root: Seq<char>)
    ensures
        forall|k: int| 0 <= k < without_path(recent, root).len() ==> !same_path(
            #[trigger] without_path(recent, root)[k],
            root,
        ),
        forall|k: int|
            0 <= k < without_path(recent, root).len() ==> exists|m: int|
                0 <= m < recent.len() && recent[m] == #[trigger] without_path(recent, root)[k],
        distinct_paths(recent) ==> distinct_paths(without_path(recent, root)),
    decreases recent.len(),
{
    if recent.len() > 0 {
        let init = recent.drop_last();
        lemma_without_path(init, root);
        let w = without_path(init, root);
        assert forall|k: int|
            0 <= k < w.len() implies exists|m: int| 0 <= m < recent.len() && recent[m] == #[trigger] w[k] by {
            let m = choose|m: int| 0 <= m < init.len() && init[m] == w[k];
            assert(recent[m] == w[k]);
        }
        if distinct_paths(recent) {
            assert(distinct_paths(init)) by {
                assert forall|i: int, j: int|
                    0 <= i < init.len() && 0 <= j < init.len() && i != j implies !same_path(init[i], init[j]) by {
                    assert(recent[i] == init[i] && recent[j] == init[j]);
                }
            }
            let last = recent.last();
            assert forall|k: int| 0 <= k < w.len() implies !same_path(#[trigger] w[k], last) by {
                let m = choose|m: int| 0 <= m < init.len() && init[m] == w[k];
                assert(recent[m] == w[k]);
                assert(m != recent.len() - 1);
            }
        }
        let full = without_path(recent, root);
        assert forall|k: int|
            0 <= k < full.len() implies exists|m: int| 0 <= m < recent.len() && recent[m] == #[trigger] full[k] by {
            if k < w.len() {
                assert(full[k] == w[k]);
                let m = choose|m: int| 0 <= m < init.len() && init[m] == w[k];
                assert(recent[m] == full[k]);
            } else {
                assert(full[k] == recent.last());
                assert(recent[recent.len() - 1] == full[k]);
            }
        }
    }
}

/// Opening a workspace keeps the recent list free of repeated paths.
pub proof fn lemma_opened_distinct(recent: Seq<Seq<char>>, root: Seq<char>)
    requires
        distinct_paths(recent),
    ensures
        distinct_paths(opened_recent(recent, root)),
        opened_recent(recent, root)[0] == root,
        opened_recent(recent, root).len() <= max_recent(),
{
    lemma_without_path(recent, root);
    let w = without_path(recent, root);
    let l = seq![root] + w;
    assert forall|i: int, j: int| 0 <= i < l.len() && 0 <= j < l.len() && i != j implies !same_path(l[i], l[j]) by {
        if i == 0 {
            assert(l[j] == w[j - 1]);
            assert(!same_path(w[j - 1], root));
        } else if j == 0 {
            assert(l[i] == w[i - 1]);
            assert(!same_path(w[i - 1], root));
        } else {
            assert(l[i] == w[i - 1] && l[j] == w[j - 1]);
        }
    }
    if l.len() > max_recent() {
        let t = l.take(max_recent() as int);
        assert forall|i: int, j: int| 0 <= i < t.len() && 0 <= j < t.len() && i != j implies !same_path(t[i], t[j]) by {
            assert(t[i] == l[i] && t[j] == l[j]);
        }
    }
}

} // verus!
