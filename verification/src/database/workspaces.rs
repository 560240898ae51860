//! Workspaces: create, list, read, touch and delete. The caller hands in a workspace
//! complete with its id and timestamps; the settings are stored as one encoded text.
use vstd::prelude::*;
use crate::database::{Database, StoreModel};
use crate::error::StoreError;
use crate::fields::copy_opt;
use crate::ident::now_rfc3339;
use crate::json::{decode_object, object_in_json, write_object};
use crate::model::workspace::{
    Workspace,
    WorkspaceRow,
    WorkspaceRowView,
    WorkspaceUpdate,
    WorkspaceView,
};
use crate::ordering::{
    full_mask,
    ints,
    keys_view,
    mark_all,
    marked,
    marked_positions,
    order_positions,
    ordered,
    OrderKey,
    OrderKeyView,
};
use crate::table::{has_key, lemma_update_at, lookup, position, replaced, without};
use crate::text::chars_of;

verus! {

/// The row under which a workspace is stored, with `settings` as the text of its
/// settings.
pub open spec fn workspace_row(w: WorkspaceView, settings: Seq<char>) -> WorkspaceRowView {
    WorkspaceRowView {
        id: w.id,
        name: w.name,
        description: w.description,
        color: w.color,
        is_default: w.is_default,
        settings: settings,
        created_at: w.created_at,
        updated_at: w.updated_at,
    }
}

/// The workspace `w` is a reading of the row `row`: it has the row's fields. Its
/// settings are what the row's text was read as, and empty where the text cannot be
/// read.
pub open spec fn workspace_reads(w: WorkspaceView, row: WorkspaceRowView) -> bool {
    &&& workspace_row(w, row.settings) == row
    &&& !object_in_json(row.settings) ==> w.settings == Map::<String, serde_json::Value>::empty()
}

impl StoreModel {
    /// Creating a workspace, its settings stored as `settings`: refused where the id
    /// is taken; otherwise the row is appended.
    pub open spec fn create_workspace(self, w: WorkspaceView, settings: Seq<char>) -> Result<
        StoreModel,
        StoreError,
    > {
        if has_key::<WorkspaceRow>(self.workspaces, w.id) {
            Err(StoreError::DuplicateKey)
        } else {
            Ok(StoreModel { workspaces: self.workspaces.push(workspace_row(w, settings)), ..self })
        }
    }

    /// Touching the workspace `id` at the time `now`: refused where no workspace has
    /// the id; otherwise the time of its last update is `now` and nothing else changes.
    pub open spec fn touch_workspace(self, id: Seq<char>, now: Seq<char>) -> Result<StoreModel, StoreError> {
        match lookup::<WorkspaceRow>(self.workspaces, id) {
            None => Err(StoreError::NotFound),
            Some(row) => Ok(
                StoreModel {
                    workspaces: replaced::<WorkspaceRow>(
                        self.workspaces,
                        id,
                        WorkspaceRowView { updated_at: now, ..row },
                    ),
                    ..self
                },
            ),
        }
    }

    /// The store without the workspace `id`.
    pub open spec fn delete_workspace(self, id: Seq<char>) -> StoreModel {
        StoreModel { workspaces: without::<WorkspaceRow>(self.workspaces, id), ..self }
    }

    /// The keys by which workspaces are listed: the time of their creation, as text.
    pub open spec fn workspace_keys(self) -> Seq<OrderKeyView> {
        Seq::new(self.workspaces.len(), |i: int| OrderKeyView::Text(self.workspaces[i].created_at))
    }

    /// The positions of all workspaces, the most recently created first.
    pub open spec fn workspace_order(self) -> Seq<int> {
        ordered(self.workspace_keys(), marked(full_mask(self.workspaces.len())), true)
    }
}

/// A reading of a stored workspace. Settings that cannot be read are empty.
fn to_workspace(row: &WorkspaceRow) -> (w: Workspace)
    ensures
        workspace_reads(w@, row@),
{
    Workspace {
        id: row.id.clone(),
        name: row.name.clone(),
        description: copy_opt(&row.description),
        color: row.color.clone(),
        is_default: row.is_default,
        settings: decode_object(row.settings.as_str()),
        created_at: row.created_at.clone(),
        updated_at: row.updated_at.clone(),
    }
}

impl Database {
    /// Stores the workspace as it is handed in, with `settings` as the text of its
    /// settings, and hands it back. Nothing is written where the id is taken.
    pub fn insert_workspace(&mut self, workspace: Workspace, settings: String) -> (r: Result<
        Workspace,
        StoreError,
    >)
        requires
            old(self).wf(),
        ensures
            final(self).wf(),
            match r {
                Ok(w) => w == workspace && old(self)@.create_workspace(workspace@, settings@) == Ok::<
                    _,
                    StoreError,
                >(final(self)@),
                Err(e) => old(self)@.create_workspace(workspace@, settings@) == Err::<StoreModel, _>(e)
                    && final(self)@ == old(self)@,
            },
    {
        if position(&self.workspaces, &workspace.id).is_some() {
            return Err(StoreError::DuplicateKey);
        }
        let row = WorkspaceRow {
            id: workspace.id.clone(),
            name: workspace.name.clone(),
            description: copy_opt(&workspace.description),
            color: workspace.color.clone(),
            is_default: workspace.is_default,
            settings: settings,
            created_at: workspace.created_at.clone(),
            updated_at: workspace.updated_at.clone(),
        };
        let ghost rv = row@;
        self.workspaces.push(row);
        proof {
            assert(self@ =~= (StoreModel {
                workspaces: old(self)@.workspaces.push(rv),
                ..old(self)@
            }));
        }
        Ok(workspace)
    }

    /// Stores the workspace as it is handed in, its settings encoded, and hands it
    /// back. Nothing is written where the id is taken or the settings cannot be
    /// encoded.
    pub fn create_workspace(&mut self, workspace: Workspace) -> (r: Result<Workspace, StoreError>)
        requires
            old(self).wf(),
        ensures
            final(self).wf(),
            match r {
                Ok(w) => {
                    &&& w == workspace
                    &&& final(self)@.workspaces.len() == old(self)@.workspaces.len() + 1
                    &&& old(self)@.create_workspace(workspace@, final(self)@.workspaces.last().settings)
                        == Ok::<_, StoreError>(final(self)@)
                },
                Err(e) => {
                    &&& final(self)@ == old(self)@
                    &&& e == StoreError::Encoding || (e == StoreError::DuplicateKey && has_key::<
                        WorkspaceRow,
                    >(old(self)@.workspaces, workspace@.id))
                },
            },
    {
        let settings = match write_object(&workspace.settings) {
            Ok(text) => text,
            Err(_) => {
                return Err(StoreError::Encoding);
            },
        };
        self.insert_workspace(workspace, settings)
    }

    /// All workspaces, the most recently created first.
    pub fn get_workspaces(&self) -> (r: Result<Vec<Workspace>, StoreError>)
        requires
            self.wf(),
        ensures
            r matches Ok(list) && list.len() == self@.workspace_order().len() && forall|k: int|
                0 <= k < list.len() ==> workspace_reads(
                    (#[trigger] list@[k])@,
                    self@.workspaces[self@.workspace_order()[k]],
                ),
    {
        let mut keys: Vec<OrderKey> = Vec::new();
        let mut i: usize = 0;
        while i < self.workspaces.len()
            invariant
                i <= self.workspaces.len(),
                keys.len() == i,
                forall|j: int|
                    0 <= j < i ==> (#[trigger] keys@[j])@ == OrderKeyView::Text(
                        self.workspaces@[j].created_at@,
                    ),
            decreases self.workspaces.len() - i,
        {
            keys.push(OrderKey::Text(chars_of(self.workspaces[i].created_at.as_str())));
            i += 1;
        }
        assert(keys_view(keys@) =~= self@.workspace_keys());
        let mask = mark_all(self.workspaces.len());
        let positions = marked_positions(&mask);
        let order = order_positions(&keys, &positions, true);
        let ghost target = self@.workspace_order();
        let mut out: Vec<Workspace> = Vec::new();
        let mut k: usize = 0;
        while k < order.len()
            invariant
                k <= order.len(),
                out.len() == k,
                ints(order@) == target,
                forall|j: int|
                    0 <= j < order.len() ==> 0 <= #[trigger] ints(order@)[j] < self.workspaces.len(),
                forall|j: int|
                    0 <= j < k ==> workspace_reads((#[trigger] out@[j])@, self@.workspaces[target[j]]),
            decreases order.len() - k,
        {
            assert(ints(order@)[k as int] == order@[k as int]);
            out.push(to_workspace(&self.workspaces[order[k]]));
            k += 1;
        }
        Ok(out)
    }

    /// The workspace `workspace_id`. That no workspace has the id is an error.
    pub fn get_workspace(&self, workspace_id: &str) -> (r: Result<Workspace, StoreError>)
        requires
            self.wf(),
        ensures
            match r {
                Ok(w) => lookup::<WorkspaceRow>(self@.workspaces, workspace_id@) matches Some(row)
                    && workspace_reads(w@, row),
                Err(e) => e == StoreError::NotFound && lookup::<WorkspaceRow>(
                    self@.workspaces,
                    workspace_id@,
                ) is None,
            },
    {
        let key = workspace_id.to_owned();
        match position(&self.workspaces, &key) {
            Some(at) => {
                Ok(to_workspace(&self.workspaces[at]))
            },
            None => Err(StoreError::NotFound),
        }
    }

    /// Sets the time of the last update of the workspace `workspace_id` to `now` and
    /// hands the workspace out. The fields of `updates` are not applied.
    pub fn touch_workspace(&mut self, workspace_id: String, updates: WorkspaceUpdate, now: String) -> (r:
        Result<Workspace, StoreError>)
        requires
            old(self).wf(),
        ensures
            final(self).wf(),
            match r {
                Ok(w) => {
                    &&& old(self)@.touch_workspace(workspace_id@, now@) == Ok::<_, StoreError>(
                        final(self)@,
                    )
                    &&& lookup::<WorkspaceRow>(final(self)@.workspaces, workspace_id@) matches Some(row)
                        && workspace_reads(w@, row)
                },
                Err(e) => {
                    &&& e == StoreError::NotFound
                    &&& old(self)@.touch_workspace(workspace_id@, now@) == Err::<StoreModel, _>(e)
                    &&& final(self)@ == old(self)@
                },
            },
    {
        let at = match position(&self.workspaces, &workspace_id) {
            Some(at) => at,
            None => {
                return Err(StoreError::NotFound);
            },
        };
        let ghost before = old(self)@.workspaces[at as int];
        let ghost rv = WorkspaceRowView { updated_at: now@, ..before };
        proof {
            lemma_update_at::<WorkspaceRow>(old(self)@.workspaces, at as int, rv);
        }
        self.workspaces[at].updated_at = now;
        proof {
            assert(self@ =~= (StoreModel {
                workspaces: old(self)@.workspaces.update(at as int, rv),
                ..old(self)@
            }));
        }
        Ok(to_workspace(&self.workspaces[at]))
    }

    /// Touches a workspace at the current time: the time of its last update is set, and
    /// the fields of `updates` are not applied.
    pub fn update_workspace(&mut self, workspace_id: String, updates: WorkspaceUpdate) -> (r: Result<
        Workspace,
        StoreError,
    >)
        requires
            old(self).wf(),
        ensures
            final(self).wf(),
            match r {
                Ok(w) => {
                    &&& old(self)@.touch_workspace(workspace_id@, w@.updated_at) == Ok::<_, StoreError>(
                        final(self)@,
                    )
                    &&& lookup::<WorkspaceRow>(final(self)@.workspaces, workspace_id@) matches Some(row)
                        && workspace_reads(w@, row)
                },
                Err(e) => {
                    &&& e == StoreError::NotFound
                    &&& !has_key::<WorkspaceRow>(old(self)@.workspaces, workspace_id@)
                    &&& final(self)@ == old(self)@
                },
            },
    {
        let now = now_rfc3339();
        self.touch_workspace(workspace_id, updates, now)
    }

    /// Deletes the workspace `workspace_id`. Deleting a workspace that is not there
    /// changes nothing.
    pub fn delete_workspace(&mut self, workspace_id: String) -> (r: Result<(), StoreError>)
        requires
            old(self).wf(),
        ensures
            final(self).wf(),
            r is Ok,
            final(self)@ == old(self)@.delete_workspace(workspace_id@),
    {
        match position(&self.workspaces, &workspace_id) {
            Some(at) => {
                self.workspaces.remove(at);
                assert(self@.workspaces =~= without::<WorkspaceRow>(
                    old(self)@.workspaces,
                    workspace_id@,
                ));
            },
            None => {},
        }
        Ok(())
    }
}

} // verus!
