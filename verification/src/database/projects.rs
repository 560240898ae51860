//! Projects: create, list, read, touch and delete. The caller hands in a project
//! complete with its id and timestamps; its tags, settings and metadata are stored as
//! encoded texts.
use vstd::prelude::*;
use crate::database::{Database, StoreModel};
use crate::error::StoreError;
use crate::fields::copy_opt;
use crate::ident::now_rfc3339;
use crate::json::{
    decode_object,
    decode_strings,
    object_in_json,
    encodes_strings,
    strings_in,
    write_object,
    encode_strings,
};
use crate::model::project::{Project, ProjectRow, ProjectRowView, ProjectUpdate, ProjectView};
use crate::ordering::{
    full_mask,
    ints,
    keys_view,
    mark_all,
    marked,
    marked_positions,
    order_positions,
    ordered,
    OrderKey,
    OrderKeyView,
};
use crate::table::{has_key, lemma_update_at, lookup, position, replaced, without};
use crate::text::chars_of;

verus! {

/// The row under which a project is stored, with `tags`, `settings` and `metadata` as
/// the texts of its tag list and of its two maps.
pub open spec fn project_row(
    p: ProjectView,
    tags: Seq<char>,
    settings: Seq<char>,
    metadata: Seq<char>,
) -> ProjectRowView {
    ProjectRowView {
        id: p.id,
        workspace_id: p.workspace_id,
        name: p.name,
        description: p.description,
        project_type: p.project_type,
        template: p.template,
        parent_id: p.parent_id,
        path: p.path,
        color: p.color,
        icon: p.icon,
        tags: tags,
        settings: settings,
        metadata: metadata,
        is_folder: p.is_folder,
        created_at: p.created_at,
        updated_at: p.updated_at,
    }
}

/// The project `p` is a reading of the row `row`: it has the row's fields, and its
/// tags are the list that the row's text stands for. Its settings and metadata are
/// what the row's texts were read as, and empty where a text cannot be read.
pub open spec fn project_reads(p: ProjectView, row: ProjectRowView) -> bool {
    &&& project_row(p, row.tags, row.settings, row.metadata) == row
    &&& p.tags == strings_in(row.tags)
    &&& !object_in_json(row.settings) ==> p.settings == Map::<String, serde_json::Value>::empty()
    &&& !object_in_json(row.metadata) ==> p.metadata == Map::<String, serde_json::Value>::empty()
}

impl StoreModel {
    /// Creating a project, stored as the row `row`: refused where the id is taken;
    /// otherwise the row is appended.
    pub open spec fn create_project(self, row: ProjectRowView) -> Result<StoreModel, StoreError> {
        if has_key::<ProjectRow>(self.projects, row.id) {
            Err(StoreError::DuplicateKey)
        } else {
            Ok(StoreModel { projects: self.projects.push(row), ..self })
        }
    }

    /// Touching the project `id` at the time `now`: refused where no project has
    /// the id; otherwise the time of its last update is `now` and nothing else changes.
    pub open spec fn touch_project(self, id: Seq<char>, now: Seq<char>) -> Result<StoreModel, StoreError> {
        match lookup::<ProjectRow>(self.projects, id) {
            None => Err(StoreError::NotFound),
            Some(row) => Ok(
                StoreModel {
                    projects: replaced::<ProjectRow>(
                        self.projects,
                        id,
                        ProjectRowView { updated_at: now, ..row },
                    ),
                    ..self
                },
            ),
        }
    }

    /// The store without the project `id`.
    pub open spec fn delete_project(self, id: Seq<char>) -> StoreModel {
        StoreModel { projects: without::<ProjectRow>(self.projects, id), ..self }
    }

    /// The keys by which projects are listed: the time of their creation, as text.
    pub open spec fn project_keys(self) -> Seq<OrderKeyView> {
        Seq::new(self.projects.len(), |i: int| OrderKeyView::Text(self.projects[i].created_at))
    }

    /// The positions of all projects, the most recently created first.
    pub open spec fn project_order(self) -> Seq<int> {
        ordered(self.project_keys(), marked(full_mask(self.projects.len())), true)
    }
}

/// A reading of a stored project. Tags, settings and metadata that cannot be read are
/// empty.
fn to_project(row: &ProjectRow) -> (p: Project)
    ensures
        project_reads(p@, row@),
{
    Project {
        id: row.id.clone(),
        workspace_id: row.workspace_id.clone(),
        name: row.name.clone(),
        description: copy_opt(&row.description),
        project_type: row.project_type.clone(),
        template: copy_opt(&row.template),
        parent_id: copy_opt(&row.parent_id),
        path: copy_opt(&row.path),
        color: row.color.clone(),
        icon: row.icon.clone(),
        tags: decode_strings(row.tags.as_str()),
        settings: decode_object(row.settings.as_str()),
        metadata: decode_object(row.metadata.as_str()),
        is_folder: row.is_folder,
        created_at: row.created_at.clone(),
        updated_at: row.updated_at.clone(),
    }
}

impl Database {
    /// Stores the project as it is handed in, with `tags`, `settings` and `metadata` as
    /// the texts of its tag list and of its two maps, and hands it back. Nothing is
    /// written where the id is taken.
    pub fn insert_project(
        &mut self,
        project: Project,
        tags: String,
        settings: String,
        metadata: String,
    ) -> (r: Result<Project, StoreError>)
        requires
            old(self).wf(),
        ensures
            final(self).wf(),
            match r {
                Ok(p) => p == project && old(self)@.create_project(
                    project_row(project@, tags@, settings@, metadata@),
                ) == Ok::<_, StoreError>(final(self)@),
                Err(e) => old(self)@.create_project(project_row(project@, tags@, settings@, metadata@))
                    == Err::<StoreModel, _>(e) && final(self)@ == old(self)@,
            },
    {
        if position(&self.projects, &project.id).is_some() {
            return Err(StoreError::DuplicateKey);
        }
        let row = ProjectRow {
            id: project.id.clone(),
            workspace_id: project.workspace_id.clone(),
            name: project.name.clone(),
            description: copy_opt(&project.description),
            project_type: project.project_type.clone(),
            template: copy_opt(&project.template),
            parent_id: copy_opt(&project.parent_id),
            path: copy_opt(&project.path),
            color: project.color.clone(),
            icon: project.icon.clone(),
            tags: tags,
            settings: settings,
            metadata: metadata,
            is_folder: project.is_folder,
            created_at: project.created_at.clone(),
            updated_at: project.updated_at.clone(),
        };
        let ghost rv = row@;
        self.projects.push(row);
        proof {
            assert(self@ =~= (StoreModel { projects: old(self)@.projects.push(rv), ..old(self)@ }));
        }
        Ok(project)
    }

    /// Stores the project as it is handed in, its tags, settings and metadata encoded,
    /// and hands it back. Nothing is written where the id is taken or a structured
    /// field cannot be encoded.
    pub fn create_project(&mut self, project: Project) -> (r: Result<Project, StoreError>)
        requires
            old(self).wf(),
        ensures
            final(self).wf(),
            match r {
                Ok(p) => {
                    &&& p == project
                    &&& final(self)@.projects.len() == old(self)@.projects.len() + 1
                    &&& encodes_strings(final(self)@.projects.last().tags, project@.tags)
                    &&& final(self)@.projects.last() == project_row(
                        project@,
                        final(self)@.projects.last().tags,
                        final(self)@.projects.last().settings,
                        final(self)@.projects.last().metadata,
                    )
                    &&& old(self)@.create_project(final(self)@.projects.last()) == Ok::<_, StoreError>(
                        final(self)@,
                    )
                },
                Err(e) => {
                    &&& final(self)@ == old(self)@
                    &&& e == StoreError::Encoding || (e == StoreError::DuplicateKey && has_key::<
                        ProjectRow,
                    >(old(self)@.projects, project@.id))
                },
            },
    {
        let settings = match write_object(&project.settings) {
            Ok(text) => text,
            Err(_) => {
                return Err(StoreError::Encoding);
            },
        };
        let metadata = match write_object(&project.metadata) {
            Ok(text) => text,
            Err(_) => {
                return Err(StoreError::Encoding);
            },
        };
        let tags = match encode_strings(&project.tags) {
            Some(text) => text,
            None => {
                return Err(StoreError::Encoding);
            },
        };
        self.insert_project(project, tags, settings, metadata)
    }

    /// All projects, the most recently created first.
    pub fn get_projects(&self) -> (r: Result<Vec<Project>, StoreError>)
        requires
            self.wf(),
        ensures
            r matches Ok(list) && list.len() == self@.project_order().len() && forall|k: int|
                0 <= k < list.len() ==> project_reads(
                    (#[trigger] list@[k])@,
                    self@.projects[self@.project_order()[k]],
                ),
    {
        let mut keys: Vec<OrderKey> = Vec::new();
        let mut i: usize = 0;
        while i < self.projects.len()
            invariant
                i <= self.projects.len(),
                keys.len() == i,
                forall|j: int|
                    0 <= j < i ==> (#[trigger] keys@[j])@ == OrderKeyView::Text(
                        self.projects@[j].created_at@,
                    ),
            decreases self.projects.len() - i,
        {
            keys.push(OrderKey::Text(chars_of(self.projects[i].created_at.as_str())));
            i += 1;
        }
        assert(keys_view(keys@) =~= self@.project_keys());
        let mask = mark_all(self.projects.len());
        let positions = marked_positions(&mask);
        let order = order_positions(&keys, &positions, true);
        let ghost target = self@.project_order();
        let mut out: Vec<Project> = Vec::new();
        let mut k: usize = 0;
        while k < order.len()
            invariant
                k <= order.len(),
                out.len() == k,
                ints(order@) == target,
                forall|j: int|
                    0 <= j < order.len() ==> 0 <= #[trigger] ints(order@)[j] < self.projects.len(),
                forall|j: int|
                    0 <= j < k ==> project_reads((#[trigger] out@[j])@, self@.projects[target[j]]),
            decreases order.len() - k,
        {
            assert(ints(order@)[k as int] == order@[k as int]);
            out.push(to_project(&self.projects[order[k]]));
            k += 1;
        }
        Ok(out)
    }

    /// The project `project_id`. That no project has the id is an error.
    pub fn get_project(&self, project_id: &str) -> (r: Result<Project, StoreError>)
        requires
            self.wf(),
        ensures
            match r {
                Ok(w) => lookup::<ProjectRow>(self@.projects, project_id@) matches Some(row)
                    && project_reads(w@, row),
                Err(e) => e == StoreError::NotFound && lookup::<ProjectRow>(
                    self@.projects,
                    project_id@,
                ) is None,
            },
    {
        let key = project_id.to_owned();
        match position(&self.projects, &key) {
            Some(at) => {
                Ok(to_project(&self.projects[at]))
            },
            None => Err(StoreError::NotFound),
        }
    }

    /// Sets the time of the last update of the project `project_id` to `now` and
    /// hands the project out. The fields of `updates` are not applied.
    pub fn touch_project(&mut self, project_id: String, updates: ProjectUpdate, now: String) -> (r:
        Result<Project, StoreError>)
        requires
            old(self).wf(),
        ensures
            final(self).wf(),
            match r {
                Ok(w) => {
                    &&& old(self)@.touch_project(project_id@, now@) == Ok::<_, StoreError>(
                        final(self)@,
                    )
                    &&& lookup::<ProjectRow>(final(self)@.projects, project_id@) matches Some(row)
                        && project_reads(w@, row)
                },
                Err(e) => {
                    &&& e == StoreError::NotFound
                    &&& old(self)@.touch_project(project_id@, now@) == Err::<StoreModel, _>(e)
                    &&& final(self)@ == old(self)@
                },
            },
    {
        let at = match position(&self.projects, &project_id) {
            Some(at) => at,
            None => {
                return Err(StoreError::NotFound);
            },
        };
        let ghost before = old(self)@.projects[at as int];
        let ghost rv = ProjectRowView { updated_at: now@, ..before };
        proof {
            lemma_update_at::<ProjectRow>(old(self)@.projects, at as int, rv);
        }
        self.projects[at].updated_at = now;
        proof {
            assert(self@ =~= (StoreModel {
                projects: old(self)@.projects.update(at as int, rv),
                ..old(self)@
            }));
        }
        Ok(to_project(&self.projects[at]))
    }

    /// Touches a project at the current time: the time of its last update is set, and
    /// the fields of `updates` are not applied.
    pub fn update_project(&mut self, project_id: String, updates: ProjectUpdate) -> (r: Result<
        Project,
        StoreError,
    >)
        requires
            old(self).wf(),
        ensures
            final(self).wf(),
            match r {
                Ok(w) => {
                    &&& old(self)@.touch_project(project_id@, w@.updated_at) == Ok::<_, StoreError>(
                        final(self)@,
                    )
                    &&& lookup::<ProjectRow>(final(self)@.projects, project_id@) matches Some(row)
                        && project_reads(w@, row)
                },
                Err(e) => {
                    &&& e == StoreError::NotFound
                    &&& !has_key::<ProjectRow>(old(self)@.projects, project_id@)
                    &&& final(self)@ == old(self)@
                },
            },
    {
        let now = now_rfc3339();
        self.touch_project(project_id, updates, now)
    }

    /// Deletes the project `project_id`. Deleting a project that is not there
    /// changes nothing.
    pub fn delete_project(&mut self, project_id: String) -> (r: Result<(), StoreError>)
        requires
            old(self).wf(),
        ensures
            final(self).wf(),
            r is Ok,
            final(self)@ == old(self)@.delete_project(project_id@),
    {
        match position(&self.projects, &project_id) {
            Some(at) => {
                self.projects.remove(at);
                assert(self@.projects =~= without::<ProjectRow>(
                    old(self)@.projects,
                    project_id@,
                ));
            },
            None => {},
        }
        Ok(())
    }
}

} // verus!
