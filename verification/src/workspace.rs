//! Workspaces: project directories, indexed by identifier and by path, with the
//! chat sessions opened in them.

use vstd::prelude::*;
use std::collections::HashMap;
use crate::ids::{is_v4_uuid, new_uuid, now, Timestamp};
use crate::paths::{file_name, path_file_name};
use crate::text::concat_text;

verus! {

broadcast use vstd::std_specs::hash::group_hash_axioms;

/// What a workspace looks like to clients.
pub struct WorkspaceInfo {
    pub id: u128,
    pub path: String,
    pub name: String,
    pub active_sessions: usize,
    pub created_at: Timestamp,
}

/// The model of a [`WorkspaceInfo`].
pub struct WorkspaceInfoView {
    pub id: u128,
    pub path: Seq<char>,
    pub name: Seq<char>,
    pub active_sessions: usize,
    pub created_at: Timestamp,
}

impl View for WorkspaceInfo {
    type V = WorkspaceInfoView;

    open spec fn view(&self) -> WorkspaceInfoView {
        WorkspaceInfoView {
            id: self.id,
            path: self.path@,
            name: self.name@,
            active_sessions: self.active_sessions,
            created_at: self.created_at,
        }
    }
}

impl WorkspaceInfo {
    /// A copy with the same model.
    pub fn duplicate(&self) -> (r: WorkspaceInfo)
        ensures
            r@ == self@,
    {
        WorkspaceInfo {
            id: self.id,
            path: self.path.clone(),
            name: self.name.clone(),
            active_sessions: self.active_sessions,
            created_at: self.created_at,
        }
    }
}

/// A workspace and the identifiers of its sessions, in the order they were added.
pub struct Workspace {
    pub info: WorkspaceInfo,
    pub session_ids: Vec<u128>,
}

/// What the filesystem says of a canonical path.
#[derive(Clone, Copy, Debug, PartialEq, Eq, Structural)]
pub enum PathKind {
    Missing,
    NotDirectory,
    Directory,
}

/// Why a workspace operation could not be carried out.
pub enum WorkspaceError {
    PathDoesNotExist(String),
    NotADirectory(String),
    WorkspaceNotFound,
}

impl WorkspaceError {
    /// The text of the error.
    pub open spec fn spec_message(&self) -> Seq<char> {
        match self {
            WorkspaceError::PathDoesNotExist(p) => "Path does not exist: "@ + p@,
            WorkspaceError::NotADirectory(p) => "Path is not a directory: "@ + p@,
            WorkspaceError::WorkspaceNotFound => "Workspace not found"@,
        }
    }

    /// The text of the error.
    pub fn message(&self) -> (s: String)
        ensures
            s@ == self.spec_message(),
    {
        match self {
            WorkspaceError::PathDoesNotExist(p) => concat_text("Path does not exist: ", p.as_str()),
            WorkspaceError::NotADirectory(p) => concat_text("Path is not a directory: ", p.as_str()),
            WorkspaceError::WorkspaceNotFound => String::from_str("Workspace not found"),
        }
    }
}

/// The workspace name for a canonical path: its last component, or `root`.
pub open spec fn name_for(path: Seq<char>) -> Seq<char> {
    match path_file_name(path) {
        Some(n) => n,
        None => "root"@,
    }
}

/// A workspace is named after the last component of its path, and `root` when the
/// path has none.
pub proof fn law_workspace_name(path: Seq<char>)
    ensures
        path_file_name(path) matches Some(n) ==> name_for(path) == n,
        path_file_name(path) is None ==> name_for(path) == "root"@,
{
}

/// A map from path texts to workspace identifiers; no path occurs twice.
pub struct PathIndex {
    entries: Vec<(String, u128)>,
}

impl PathIndex {
    /// No path occurs twice.
    pub closed spec fn wf(&self) -> bool {
        forall|i: int, j: int|
            0 <= i < j < self.entries@.len() ==> (#[trigger] self.entries@[i]).0@
                != (#[trigger] self.entries@[j]).0@
    }

    /// The map from paths to identifiers.
    pub closed spec fn view(&self) -> Map<Seq<char>, u128> {
        Map::new(
            |p: Seq<char>| exists|i: int| 0 <= i < self.entries@.len() && self.entries@[i].0@ == p,
            |p: Seq<char>|
                self.entries@[choose|i: int|
                    0 <= i < self.entries@.len() && self.entries@[i].0@ == p].1,
        )
    }

    /// An empty index.
    pub fn new() -> (r: PathIndex)
        ensures
            r.wf(),
            r.view() == Map::<Seq<char>, u128>::empty(),
    {
        let r = PathIndex { entries: Vec::new() };
        assert(r.view() =~= Map::<Seq<char>, u128>::empty());
        r
    }

    /// The identifier stored under `path`.
    pub fn get(&self, path: &str) -> (r: Option<u128>)
        requires
            self.wf(),
        ensures
            match r {
                Some(id) => self.view().contains_key(path@) && self.view()[path@] == id,
                None => !self.view().contains_key(path@),
            },
    {
        let mut i: usize = 0;
        while i < self.entries.len()
            invariant
                self.wf(),
                i <= self.entries@.len(),
                forall|k: int| 0 <= k < i ==> (#[trigger] self.entries@[k]).0@ != path@,
            decreases self.entries@.len() - i,
        {
            let e = &self.entries[i];
            if e.0 == String::from_str(path) {
                proof {
                    let c = choose|k: int|
                        0 <= k < self.entries@.len() && self.entries@[k].0@ == path@;
                    if c != i {
                        if c < i {
                            assert(self.entries@[c].0@ != self.entries@[i as int].0@);
                        } else {
                            assert(self.entries@[i as int].0@ != self.entries@[c].0@);
                        }
                    }
                }
                return Some(e.1);
            }
            i = i + 1;
        }
        None
    }

    /// Stores `id` under a path that is not yet present.
    pub fn insert_new(&mut self, path: String, id: u128)
        requires
            old(self).wf(),
            !old(self).view().contains_key(path@),
        ensures
            final(self).wf(),
            final(self).view() == old(self).view().insert(path@, id),
    {
        let ghost p = path@;
        let ghost before = self.entries@;
        self.entries.push((path, id));
        proof {
            let n = before.len() as int;
            assert forall|i: int, j: int|
                0 <= i < j < self.entries@.len() implies (#[trigger] self.entries@[i]).0@
                != (#[trigger] self.entries@[j]).0@ by {
                if j == n {
                    assert(self.entries@[i] == before[i]);
                }
            }
            assert forall|q: Seq<char>| #[trigger] self.view().contains_key(q) implies old(self).view().insert(p, id).contains_key(q) && self.view()[q] == old(self).view().insert(p, id)[q] by {
                let c = choose|k: int| 0 <= k < self.entries@.len() && self.entries@[k].0@ == q;
                if q == p {
                    if c != n {
                        assert(self.entries@[c] == before[c]);
                    }
                } else {
                    assert(c != n);
                    assert(self.entries@[c] == before[c]);
                    assert(old(self).view().contains_key(q));
                    let c0 = choose|k: int| 0 <= k < before.len() && before[k].0@ == q;
                    if c0 != c {
                        if c0 < c {
                            assert(self.entries@[c0].0@ != self.entries@[c].0@);
                        } else {
                            assert(self.entries@[c].0@ != self.entries@[c0].0@);
                        }
                    }
                }
            }
            assert forall|q: Seq<char>| old(self).view().insert(p, id).contains_key(q) implies #[trigger] self.view().contains_key(q) by {
                if q == p {
                    assert(self.entries@[n].0@ == p);
                } else {
                    let c0 = choose|k: int| 0 <= k < before.len() && before[k].0@ == q;
                    assert(self.entries@[c0] == before[c0]);
                }
            }
            assert(self.view() =~= old(self).view().insert(p, id));
        }
    }
}


/// The identifiers of a workspace's sessions once every occurrence of `session_id`
/// is gone, the rest in their order.
pub open spec fn without_session(ids: Seq<u128>, session_id: u128) -> Seq<u128> {
    ids.filter(other_than(session_id))
}

/// The test that keeps every identifier but `session_id`.
pub open spec fn other_than(session_id: u128) -> spec_fn(u128) -> bool {
    |x: u128| x != session_id
}

/// After a session is removed from a workspace, no occurrence of it is left, and
/// every other session the workspace had is still there.
pub proof fn law_remove_session_removes_only_it(ids: Seq<u128>, session_id: u128, other: u128)
    requires
        other != session_id,
    ensures
        !without_session(ids, session_id).contains(session_id),
        without_session(ids, session_id).contains(other) == ids.contains(other),
{
    let pred = other_than(session_id);
    if without_session(ids, session_id).contains(session_id) {
        let i = choose|i: int|
            0 <= i < without_session(ids, session_id).len() && without_session(ids, session_id)[i]
                == session_id;
        ids.lemma_filter_pred(pred, i);
    }
    if ids.contains(other) {
        let i = choose|i: int| 0 <= i < ids.len() && ids[i] == other;
        ids.lemma_filter_contains(pred, i);
    }
    if without_session(ids, session_id).contains(other) {
        ids.lemma_filter_contains_rev(pred, other);
    }
}

/// Adding a session and then removing it leaves the session list as it was, when
/// the session was not in it before.
pub proof fn law_add_then_remove_session(ids: Seq<u128>, session_id: u128)
    requires
        !ids.contains(session_id),
    ensures
        without_session(ids.push(session_id), session_id) == ids,
    decreases ids.len(),
{
    reveal(Seq::filter);
    assert(ids.push(session_id).drop_last() =~= ids);
    lemma_filter_keeps_all(ids, session_id);
}

/// Removing a session that does not occur leaves the list as it was.
proof fn lemma_filter_keeps_all(ids: Seq<u128>, session_id: u128)
    requires
        !ids.contains(session_id),
    ensures
        without_session(ids, session_id) == ids,
    decreases ids.len(),
{
    reveal(Seq::filter);
    if ids.len() > 0 {
        assert(!ids.drop_last().contains(session_id)) by {
            if ids.drop_last().contains(session_id) {
                let i = choose|i: int|
                    0 <= i < ids.drop_last().len() && ids.drop_last()[i] == session_id;
                assert(ids[i] == session_id);
            }
        }
        lemma_filter_keeps_all(ids.drop_last(), session_id);
        assert(ids[ids.len() - 1] != session_id);
        assert(ids.drop_last().push(ids.last()) =~= ids);
    }
}

/// Registering a new directory makes its path lead to the new workspace, whose
/// description carries that path; registering the same path again gives the same
/// workspace back.
pub proof fn law_registered_path_leads_to_workspace(
    paths: Map<Seq<char>, u128>,
    path: Seq<char>,
    id: u128,
)
    ensures
        paths.insert(path, id).contains_key(path),
        paths.insert(path, id)[path] == id,
{
}

/// Some workspace of `m` has the description `info`.
pub open spec fn describes_some(m: Map<u128, Workspace>, info: WorkspaceInfoView) -> bool {
    exists|id: u128| #[trigger] m.dom().contains(id) && m[id].info@ == info
}

/// Keeps the workspaces, by identifier and by canonical path.
pub struct WorkspaceManager {
    workspaces: HashMap<u128, Workspace>,
    path_to_id: PathIndex,
}

/// Replacing the workspace stored under `id` by one with the same identifier and
/// path, whose session count is its number of sessions, keeps the manager's
/// invariant and the match of paths to workspaces.
proof fn lemma_replaced_workspace_keeps_invariant(
    before: WorkspaceManager,
    after: WorkspaceManager,
    id: u128,
)
    requires
        before.wf(),
        after.path_to_id == before.path_to_id,
        before.workspaces().contains_key(id),
        after.workspaces().dom() == before.workspaces().dom(),
        after.workspaces().remove(id) == before.workspaces().remove(id),
        after.workspaces()[id].info.id == before.workspaces()[id].info.id,
        after.workspaces()[id].info.path == before.workspaces()[id].info.path,
        after.workspaces()[id].info.active_sessions == after.workspaces()[id].session_ids@.len(),
    ensures
        after.wf(),
        before.paths_match() ==> after.paths_match(),
{
    assert forall|q: Seq<char>| #[trigger]
        after.paths().contains_key(q) implies after.workspaces().contains_key(after.paths()[q]) by {
        assert(before.workspaces().contains_key(before.paths()[q]));
    }
    assert forall|k: u128| #[trigger] after.workspaces().contains_key(k) implies {
        let w = after.workspaces()[k];
        &&& w.info.id == k
        &&& w.info.active_sessions == w.session_ids@.len()
        &&& after.paths().contains_key(w.info.path@)
        &&& after.paths()[w.info.path@] == k
    } by {
        assert(before.workspaces().contains_key(k));
        if k != id {
            assert(after.workspaces()[k] == after.workspaces().remove(id)[k]);
        }
    }
    if before.paths_match() {
        assert forall|q: Seq<char>| #[trigger]
            after.paths().contains_key(q) implies after.workspaces()[after.paths()[q]].info.path@ == q by {
            assert(before.workspaces().contains_key(before.paths()[q]));
            if before.paths()[q] != id {
                assert(after.workspaces()[after.paths()[q]] == after.workspaces().remove(id)[after.paths()[q]]);
            }
        }
    }
}

impl WorkspaceManager {
    /// The workspaces, by identifier.
    pub closed spec fn workspaces(&self) -> Map<u128, Workspace> {
        self.workspaces@
    }

    /// The identifiers, by canonical path.
    pub closed spec fn paths(&self) -> Map<Seq<char>, u128> {
        self.path_to_id.view()
    }

    /// The manager's invariant, kept by every operation: every indexed path leads
    /// to a workspace; every workspace is stored under its own identifier, its path
    /// is indexed to it, and its session count is the number of its session
    /// identifiers.
    #[verifier::type_invariant]
    pub closed spec fn wf(&self) -> bool {
        &&& self.path_to_id.wf()
        &&& forall|p: Seq<char>| #[trigger]
            self.paths().contains_key(p) ==> self.workspaces().contains_key(self.paths()[p])
        &&& forall|id: u128| #[trigger]
            self.workspaces().contains_key(id) ==> {
                let w = self.workspaces()[id];
                &&& w.info.id == id
                &&& w.info.active_sessions == w.session_ids@.len()
                &&& self.paths().contains_key(w.info.path@)
                &&& self.paths()[w.info.path@] == id
            }
    }

    /// Every indexed path leads to the workspace that carries that path. This holds
    /// as long as every new workspace got an identifier no other workspace had.
    pub closed spec fn paths_match(&self) -> bool {
        forall|p: Seq<char>| #[trigger]
            self.paths().contains_key(p) ==> self.workspaces()[self.paths()[p]].info.path@ == p
    }

    /// In a manager whose new workspaces all got fresh identifiers, each indexed path
    /// leads to a workspace stored under that identifier and carrying that path, and
    /// no two paths lead to the same workspace.
    pub proof fn law_path_index_one_to_one(&self, p: Seq<char>, q: Seq<char>)
        requires
            self.wf(),
            self.paths_match(),
        ensures
            self.paths().contains_key(p) ==> {
                let id = self.paths()[p];
                &&& self.workspaces().contains_key(id)
                &&& self.workspaces()[id].info.id == id
                &&& self.workspaces()[id].info.path@ == p
            },
            self.paths().contains_key(p) && self.paths().contains_key(q) && p != q
                ==> self.paths()[p] != self.paths()[q],
    {
        if self.paths().contains_key(p) && self.paths().contains_key(q) && p != q {
            assert(self.workspaces()[self.paths()[p]].info.path@ == p);
            assert(self.workspaces()[self.paths()[q]].info.path@ == q);
        }
    }

    /// Every workspace's session count is the number of its sessions, its path
    /// leads back to it, and every registered path leads to a workspace.
    pub proof fn law_counts_and_paths_agree(&self, id: u128, path: Seq<char>)
        requires
            self.wf(),
        ensures
            self.workspaces().contains_key(id) ==> {
                let w = self.workspaces()[id];
                &&& w.info.id == id
                &&& w.info.active_sessions == w.session_ids@.len()
                &&& self.paths().contains_key(w.info.path@)
                &&& self.paths()[w.info.path@] == id
            },
            self.paths().contains_key(path) ==> self.workspaces().contains_key(self.paths()[path]),
    {
    }

    /// A manager without workspaces.
    pub fn new() -> (m: WorkspaceManager)
        ensures
            m.paths_match(),
            m.workspaces() == Map::<u128, Workspace>::empty(),
            m.paths() == Map::<Seq<char>, u128>::empty(),
    {
        WorkspaceManager { workspaces: HashMap::new(), path_to_id: PathIndex::new() }
    }

    /// Leaves an empty manager in place of this one and hands back its workspaces
    /// and path index.
    fn take_parts(&mut self) -> (r: (HashMap<u128, Workspace>, PathIndex))
        ensures
            old(self).wf(),
            r.0@ == old(self).workspaces(),
            r.1 == old(self).path_to_id,
            r.1.wf(),
            r.1.view() == old(self).paths(),
    {
        proof {
            use_type_invariant(&*self);
        }
        let mut taken = WorkspaceManager::new();
        std::mem::swap(&mut taken, self);
        let WorkspaceManager { workspaces, path_to_id } = taken;
        (workspaces, path_to_id)
    }

    /// Registers the directory at `canonical_path` (already canonicalised), whose
    /// filesystem status is `kind`. A path that is registered already gives its
    /// workspace back unchanged; otherwise the path must be a directory, and a new
    /// workspace named after the path's last component is made for it.
    pub fn create_workspace(&mut self, canonical_path: String, kind: PathKind) -> (r: Result<
        u128,
        WorkspaceError,
    >)
        ensures
            old(self).paths_match() ==> final(self).paths_match() || (r matches Ok(id)
                && !old(self).paths().contains_key(canonical_path@) && old(
                self,
            ).workspaces().contains_key(id)),
            old(self).paths().contains_key(canonical_path@) ==> {
                &&& r == Ok::<u128, WorkspaceError>(old(self).paths()[canonical_path@])
                &&& final(self).workspaces() == old(self).workspaces()
                &&& final(self).paths() == old(self).paths()
            },
            !old(self).paths().contains_key(canonical_path@) && kind != PathKind::Directory ==> {
                &&& kind == PathKind::Missing ==> (r matches Err(WorkspaceError::PathDoesNotExist(p))
                    && p@ == canonical_path@)
                &&& kind == PathKind::NotDirectory ==> (r matches Err(
                    WorkspaceError::NotADirectory(p),
                ) && p@ == canonical_path@)
                &&& final(self).workspaces() == old(self).workspaces()
                &&& final(self).paths() == old(self).paths()
            },
            !old(self).paths().contains_key(canonical_path@) && kind == PathKind::Directory ==> (
            r matches Ok(id) && {
                let w = final(self).workspaces()[id];
                &&& is_v4_uuid(id)
                &&& final(self).workspaces().dom() == old(self).workspaces().dom().insert(id)
                &&& final(self).workspaces().remove(id) == old(self).workspaces().remove(id)
                &&& w.info.id == id
                &&& w.info.path@ == canonical_path@
                &&& w.info.name@ == name_for(canonical_path@)
                &&& w.info.active_sessions == 0
                &&& w.session_ids@.len() == 0
                &&& final(self).paths() == old(self).paths().insert(canonical_path@, id)
            }),
    {
        proof {
            use_type_invariant(&*self);
        }
        match self.path_to_id.get(canonical_path.as_str()) {
            Some(existing) => {
                return Ok(existing);
            },
            None => {},
        }
        match kind {
            PathKind::Missing => {
                return Err(WorkspaceError::PathDoesNotExist(canonical_path));
            },
            PathKind::NotDirectory => {
                return Err(WorkspaceError::NotADirectory(canonical_path));
            },
            PathKind::Directory => {},
        }
        let workspace_id = new_uuid();
        let name = match file_name(canonical_path.as_str()) {
            Some(n) => n,
            None => String::from_str("root"),
        };
        let info = WorkspaceInfo {
            id: workspace_id,
            path: canonical_path.clone(),
            name,
            active_sessions: 0,
            created_at: now(),
        };
        let workspace = Workspace { info, session_ids: Vec::new() };
        let ghost p = canonical_path@;
        let ghost before = *self;
        let (mut workspaces, mut path_to_id) = self.take_parts();
        workspaces.insert(workspace_id, workspace);
        path_to_id.insert_new(canonical_path, workspace_id);
        let ghost after = WorkspaceManager { workspaces, path_to_id };
        proof {
            assert(after.workspaces@.remove(workspace_id) =~= before.workspaces@.remove(
                workspace_id,
            ));
            assert forall|q: Seq<char>| #[trigger]
                after.paths().contains_key(q) implies after.workspaces().contains_key(
                after.paths()[q],
            ) by {
                if q != p {
                    assert(before.paths().contains_key(q));
                }
            }
            assert forall|id: u128| #[trigger] after.workspaces().contains_key(id) implies {
                let w = after.workspaces()[id];
                &&& w.info.id == id
                &&& w.info.active_sessions == w.session_ids@.len()
                &&& after.paths().contains_key(w.info.path@)
                &&& after.paths()[w.info.path@] == id
            } by {
                if id != workspace_id {
                    assert(before.workspaces().contains_key(id));
                    let w = before.workspaces()[id];
                    assert(before.paths().contains_key(w.info.path@));
                    assert(w.info.path@ != p);
                }
            }
            if before.paths_match() && !before.workspaces().contains_key(workspace_id) {
                assert forall|q: Seq<char>| #[trigger]
                    after.paths().contains_key(q) implies after.workspaces()[after.paths()[q]].info.path@
                    == q by {
                    if q != p {
                        assert(before.paths().contains_key(q));
                        assert(before.workspaces().contains_key(before.paths()[q]));
                    }
                }
            }
        }
        *self = WorkspaceManager { workspaces, path_to_id };
        Ok(workspace_id)
    }

    /// A copy of the description of `workspace_id`, when it exists.
    pub fn get_workspace(&self, workspace_id: u128) -> (r: Option<WorkspaceInfo>)
        ensures
            match r {
                Some(info) => self.workspaces().contains_key(workspace_id) && info@
                    == self.workspaces()[workspace_id].info@,
                None => !self.workspaces().contains_key(workspace_id),
            },
    {
        match self.workspaces.get(&workspace_id) {
            Some(w) => Some(w.info.duplicate()),
            None => None,
        }
    }

    /// Copies of the descriptions of all workspaces, one per workspace, in the map's
    /// iteration order.
    pub fn list_workspaces(&self) -> (r: Vec<WorkspaceInfo>)
        ensures
            r@.len() == self.workspaces().dom().len(),
            forall|j: int| 0 <= j < r@.len() ==> describes_some(self.workspaces(), #[trigger] r@[j]@),
            forall|id: u128| #[trigger]
                self.workspaces().dom().contains(id) ==> exists|j: int|
                    0 <= j < r@.len() && r@[j]@ == self.workspaces()[id].info@,
    {
        let mut out: Vec<WorkspaceInfo> = Vec::new();
        let ghost m = self.workspaces@;
        for w in it: self.workspaces.values()
            invariant
                m == self.workspaces@,
                it.seq().unref().to_set() == m.values(),
                it.seq().len() == m.dom().len(),
                out@.len() == it.index(),
                forall|j: int| 0 <= j < out@.len() ==> describes_some(m, #[trigger] out@[j]@),
                forall|v: Workspace| #[trigger]
                    m.values().contains(v) ==> (exists|j: int|
                        0 <= j < out@.len() && out@[j]@ == v.info@) || (exists|k2: int|
                        it.index() <= k2 < it.seq().len() && it.seq().unref()[k2] == v),
            ensures
                out@.len() == m.dom().len(),
                forall|j: int| 0 <= j < out@.len() ==> describes_some(m, #[trigger] out@[j]@),
                forall|v: Workspace| #[trigger]
                    m.values().contains(v) ==> exists|j: int|
                        0 <= j < out@.len() && out@[j]@ == v.info@,
        {
            let ghost k = it.index();
            let ghost old_out = out@;
            proof {
                assert(w == it.seq()[k]);
                assert(it.seq().unref()[k] == *w);
                assert(it.seq().unref().contains(*w));
                assert(m.values().contains(*w));
                assert(m.contains_value(*w));
            }
            out.push(w.info.duplicate());
            proof {
                assert(out@[k]@ == w.info@);
                assert forall|j: int| 0 <= j < out@.len() implies describes_some(m, #[trigger] out@[j]@) by {
                    if j < k {
                        assert(out@[j] == old_out[j]);
                    } else {
                        let id = choose|id: u128| #[trigger] m.dom().contains(id) && m[id] == *w;
                        assert(m.dom().contains(id) && out@[j]@ == m[id].info@);
                    }
                }
                assert forall|v: Workspace| #[trigger] m.values().contains(v) implies (exists|j: int|
                    0 <= j < out@.len() && out@[j]@ == v.info@) || (exists|k2: int|
                    k + 1 <= k2 < it.seq().len() && it.seq().unref()[k2] == v) by {
                    if exists|j: int| 0 <= j < old_out.len() && old_out[j]@ == v.info@ {
                        let j = choose|j: int| 0 <= j < old_out.len() && old_out[j]@ == v.info@;
                        assert(out@[j] == old_out[j]);
                    } else {
                        let k2 = choose|k2: int| k <= k2 < it.seq().len() && it.seq().unref()[k2] == v;
                        if k2 == k {
                            assert(out@[k]@ == v.info@);
                        }
                    }
                }
            }
        }
        proof {
            assert forall|id: u128| #[trigger] m.dom().contains(id) implies exists|j: int|
                0 <= j < out@.len() && out@[j]@ == m[id].info@ by {
                assert(m.values().contains(m[id]));
            }
        }
        out
    }

    /// The workspace registered for `canonical_path` (already canonicalised).
    pub fn get_workspace_by_path(&self, canonical_path: &str) -> (r: Option<u128>)
        ensures
            match r {
                Some(id) => self.paths().contains_key(canonical_path@) && self.paths()[canonical_path@]
                    == id,
                None => !self.paths().contains_key(canonical_path@),
            },
    {
        proof {
            use_type_invariant(self);
        }
        self.path_to_id.get(canonical_path)
    }

    /// Adds a session to a workspace; its session count follows.
    pub fn add_session(&mut self, workspace_id: u128, session_id: u128) -> (r: Result<
        (),
        WorkspaceError,
    >)
        ensures
            final(self).paths() == old(self).paths(),
            old(self).paths_match() ==> final(self).paths_match(),
            !old(self).workspaces().contains_key(workspace_id) ==> {
                &&& r matches Err(WorkspaceError::WorkspaceNotFound)
                &&& final(self).workspaces() == old(self).workspaces()
            },
            old(self).workspaces().contains_key(workspace_id) ==> {
                let w0 = old(self).workspaces()[workspace_id];
                let w1 = final(self).workspaces()[workspace_id];
                &&& r is Ok
                &&& final(self).workspaces().dom() == old(self).workspaces().dom()
                &&& final(self).workspaces().remove(workspace_id) == old(self).workspaces().remove(
                    workspace_id,
                )
                &&& w1.session_ids@ == w0.session_ids@.push(session_id)
                &&& w1.info.active_sessions == w1.session_ids@.len()
                &&& w1.info.id == w0.info.id
                &&& w1.info.path == w0.info.path
                &&& w1.info.name == w0.info.name
                &&& w1.info.created_at == w0.info.created_at
            },
    {
        proof {
            use_type_invariant(&*self);
        }
        if !self.workspaces.contains_key(&workspace_id) {
            return Err(WorkspaceError::WorkspaceNotFound);
        }
        let ghost before = *self;
        let (mut workspaces, path_to_id) = self.take_parts();
        let mut workspace = workspaces.remove(&workspace_id).unwrap();
        workspace.session_ids.push(session_id);
        workspace.info.active_sessions = workspace.session_ids.len();
        workspaces.insert(workspace_id, workspace);
        let ghost after = WorkspaceManager { workspaces, path_to_id };
        proof {
            assert(after.workspaces@.remove(workspace_id) =~= before.workspaces@.remove(
                workspace_id,
            ));
            assert(after.workspaces@.dom() =~= before.workspaces@.dom());
            lemma_replaced_workspace_keeps_invariant(before, after, workspace_id);
        }
        *self = WorkspaceManager { workspaces, path_to_id };
        Ok(())
    }

    /// Removes every occurrence of a session from a workspace; its session count
    /// follows.
    pub fn remove_session(&mut self, workspace_id: u128, session_id: u128) -> (r: Result<
        (),
        WorkspaceError,
    >)
        ensures
            final(self).paths() == old(self).paths(),
            old(self).paths_match() ==> final(self).paths_match(),
            !old(self).workspaces().contains_key(workspace_id) ==> {
                &&& r matches Err(WorkspaceError::WorkspaceNotFound)
                &&& final(self).workspaces() == old(self).workspaces()
            },
            old(self).workspaces().contains_key(workspace_id) ==> {
                let w0 = old(self).workspaces()[workspace_id];
                let w1 = final(self).workspaces()[workspace_id];
                &&& r is Ok
                &&& final(self).workspaces().dom() == old(self).workspaces().dom()
                &&& final(self).workspaces().remove(workspace_id) == old(self).workspaces().remove(
                    workspace_id,
                )
                &&& w1.session_ids@ == without_session(w0.session_ids@, session_id)
                &&& w1.info.active_sessions == w1.session_ids@.len()
                &&& w1.info.id == w0.info.id
                &&& w1.info.path == w0.info.path
                &&& w1.info.name == w0.info.name
                &&& w1.info.created_at == w0.info.created_at
            },
    {
        proof {
            use_type_invariant(&*self);
        }
        if !self.workspaces.contains_key(&workspace_id) {
            return Err(WorkspaceError::WorkspaceNotFound);
        }
        let ghost before = *self;
        let (mut workspaces, path_to_id) = self.take_parts();
        let mut workspace = workspaces.remove(&workspace_id).unwrap();
        let ghost w0 = workspace;
        let mut kept: Vec<u128> = Vec::new();
        let mut i: usize = 0;
        while i < workspace.session_ids.len()
            invariant
                workspace == w0,
                i <= w0.session_ids@.len(),
                kept@ == without_session(w0.session_ids@.subrange(0, i as int), session_id),
            decreases w0.session_ids@.len() - i,
        {
            let id = workspace.session_ids[i];
            proof {
                let pre = w0.session_ids@.subrange(0, i as int);
                assert(w0.session_ids@.subrange(0, i + 1) =~= pre.push(id));
                assert(pre.push(id).drop_last() =~= pre);
                reveal(Seq::filter);
            }
            if id != session_id {
                kept.push(id);
            }
            i = i + 1;
        }
        assert(w0.session_ids@.subrange(0, i as int) =~= w0.session_ids@);
        workspace.session_ids = kept;
        workspace.info.active_sessions = workspace.session_ids.len();
        workspaces.insert(workspace_id, workspace);
        let ghost after = WorkspaceManager { workspaces, path_to_id };
        proof {
            assert(after.workspaces@.remove(workspace_id) =~= before.workspaces@.remove(
                workspace_id,
            ));
            assert(after.workspaces@.dom() =~= before.workspaces@.dom());
            lemma_replaced_workspace_keeps_invariant(before, after, workspace_id);
        }
        *self = WorkspaceManager { workspaces, path_to_id };
        Ok(())
    }
}

} // verus!
