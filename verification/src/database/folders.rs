//! Folders: create, list and delete. Deleting a folder detaches its snippets.
use vstd::prelude::*;
use crate::database::{Database, mirror_of_all, StoreModel};
use crate::error::StoreError;
use crate::fields::copy_opt;
use crate::ident::{fresh_id, now_millis};
use crate::model::folder::{Folder, FolderView};
use crate::model::snippet::SnippetRowView;
use crate::ordering::{
    full_mask,
    ints,
    keys_view,
    mark_all,
    marked,
    marked_positions,
    order_positions,
    ordered,
    OrderKey,
    OrderKeyView,
};
use crate::table::{has_key, position, rows_view, without};

verus! {

/// The snippet `row` once the folder `folder` is gone: it loses its folder where that
/// was `folder`, and is unchanged otherwise.
pub open spec fn detached(row: SnippetRowView, folder: Seq<char>) -> SnippetRowView {
    if row.folder_id == Some(folder) {
        SnippetRowView { folder_id: None, ..row }
    } else {
        row
    }
}

/// The folder `name` under `parent_id`, created under the id `id` at the time `now`.
pub open spec fn new_folder(
    id: Seq<char>,
    now: i64,
    name: Seq<char>,
    parent_id: Option<Seq<char>>,
) -> FolderView {
    FolderView { id: id, name: name, parent_id: parent_id, created_at: now }
}

impl StoreModel {
    /// Creating a folder: refused where the id is taken; otherwise the row is appended.
    pub open spec fn create_folder(self, folder: FolderView) -> Result<StoreModel, StoreError> {
        if has_key::<Folder>(self.folders, folder.id) {
            Err(StoreError::DuplicateKey)
        } else {
            Ok(StoreModel { folders: self.folders.push(folder), ..self })
        }
    }

    /// The store without the folder `id`. No snippet is deleted with it: the snippets
    /// of the folder stay, without a folder.
    pub open spec fn delete_folder(self, id: Seq<char>) -> StoreModel {
        StoreModel {
            folders: without::<Folder>(self.folders, id),
            snippets: Seq::new(self.snippets.len(), |i: int| detached(self.snippets[i], id)),
            ..self
        }
    }

    /// The keys by which folders are listed: the time of their creation.
    pub open spec fn folder_keys(self) -> Seq<OrderKeyView> {
        Seq::new(self.folders.len(), |i: int| OrderKeyView::Number(self.folders[i].created_at as int))
    }

    /// All folders, the oldest first.
    pub open spec fn all_folders(self) -> Seq<FolderView> {
        let order = ordered(self.folder_keys(), marked(full_mask(self.folders.len())), false);
        Seq::new(order.len(), |k: int| self.folders[order[k]])
    }
}

/// A copy of a folder.
fn copy_folder(f: &Folder) -> (r: Folder)
    ensures
        r@ == f@,
{
    Folder {
        id: f.id.clone(),
        name: f.name.clone(),
        parent_id: copy_opt(&f.parent_id),
        created_at: f.created_at,
    }
}

impl Database {
    /// Creates the folder `name` under `parent_id`, under the id `id` at the time
    /// `now`. The folder is refused where the id is taken.
    pub fn insert_folder(&mut self, id: String, now: i64, name: String, parent_id: Option<String>) -> (r:
        Result<Folder, StoreError>)
        requires
            old(self).wf(),
        ensures
            final(self).wf(),
            match r {
                Ok(f) => {
                    &&& f@ == new_folder(id@, now, name@, parent_id.deep_view())
                    &&& old(self)@.create_folder(f@) == Ok::<_, StoreError>(final(self)@)
                },
                Err(e) => {
                    &&& e == StoreError::DuplicateKey
                    &&& has_key::<Folder>(old(self)@.folders, id@)
                    &&& final(self)@ == old(self)@
                },
            },
    {
        if position(&self.folders, &id).is_some() {
            return Err(StoreError::DuplicateKey);
        }
        let f = Folder { id: id, name: name, parent_id: parent_id, created_at: now };
        let row = copy_folder(&f);
        self.folders.push(row);
        proof {
            assert(self@ =~= old(self)@.create_folder(f@)->Ok_0);
        }
        Ok(f)
    }

    /// Creates a folder under a fresh id, with the current time as the time of its
    /// creation.
    pub fn create_folder(&mut self, name: String, parent_id: Option<String>) -> (r: Result<
        Folder,
        StoreError,
    >)
        requires
            old(self).wf(),
        ensures
            final(self).wf(),
            match r {
                Ok(f) => {
                    &&& f@.id.len() == 36
                    &&& f@ == new_folder(f@.id, f@.created_at, name@, parent_id.deep_view())
                    &&& old(self)@.create_folder(f@) == Ok::<_, StoreError>(final(self)@)
                },
                Err(e) => {
                    &&& final(self)@ == old(self)@
                    &&& e == StoreError::DuplicateKey
                    &&& exists|id: Seq<char>|
                        id.len() == 36 && #[trigger] has_key::<Folder>(old(self)@.folders, id)
                },
            },
    {
        let id = fresh_id();
        let now = now_millis();
        let ghost key = id@;
        let r = self.insert_folder(id, now, name, parent_id);
        proof {
            if r is Err {
                assert(key.len() == 36 && has_key::<Folder>(old(self)@.folders, key));
            }
        }
        r
    }

    /// All folders, the oldest first.
    pub fn get_all_folders(&self) -> (r: Result<Vec<Folder>, StoreError>)
        requires
            self.wf(),
        ensures
            r matches Ok(list) && rows_view(list@) == self@.all_folders(),
    {
        let mut keys: Vec<OrderKey> = Vec::new();
        let mut i: usize = 0;
        while i < self.folders.len()
            invariant
                i <= self.folders.len(),
                keys.len() == i,
                forall|j: int|
                    0 <= j < i ==> (#[trigger] keys@[j])@ == OrderKeyView::Number(
                        self.folders@[j].created_at as int,
                    ),
            decreases self.folders.len() - i,
        {
            keys.push(OrderKey::Number(self.folders[i].created_at));
            i += 1;
        }
        assert(keys_view(keys@) =~= self@.folder_keys());
        let mask = mark_all(self.folders.len());
        let positions = marked_positions(&mask);
        let order = order_positions(&keys, &positions, false);
        let ghost target = ordered(self@.folder_keys(), marked(full_mask(self@.folders.len())), false);
        let mut out: Vec<Folder> = Vec::new();
        let mut k: usize = 0;
        while k < order.len()
            invariant
                k <= order.len(),
                out.len() == k,
                ints(order@) == target,
                forall|j: int| 0 <= j < order.len() ==> 0 <= #[trigger] ints(order@)[j] < self.folders.len(),
                forall|j: int| 0 <= j < k ==> (#[trigger] out@[j])@ == self@.folders[target[j]],
            decreases order.len() - k,
        {
            assert(ints(order@)[k as int] == order@[k as int]);
            out.push(copy_folder(&self.folders[order[k]]));
            k += 1;
        }
        Ok(out)
    }

    /// Deletes the folder `id` and detaches its snippets: they stay in the store,
    /// without a folder. Deleting a folder that is not there changes no folder.
    pub fn delete_folder(&mut self, id: &str) -> (r: Result<(), StoreError>)
        requires
            old(self).wf(),
        ensures
            final(self).wf(),
            r is Ok,
            final(self)@ == old(self)@.delete_folder(id@),
    {
        let key = id.to_owned();
        match position(&self.folders, &key) {
            Some(at) => {
                self.folders.remove(at);
            },
            None => {},
        }
        let ghost before = old(self)@.snippets;
        let mut i: usize = 0;
        while i < self.snippets.len()
            invariant
                i <= self.snippets.len(),
                key@ == id@,
                before == old(self)@.snippets,
                self.snippets.len() == before.len(),
                self@.folders == without::<Folder>(old(self)@.folders, id@),
                self@.search_mirror == old(self)@.search_mirror,
                self@.workspaces == old(self)@.workspaces,
                self@.projects == old(self)@.projects,
                self@.repositories == old(self)@.repositories,
                self@.todos == old(self)@.todos,
                self@.tags == old(self)@.tags,
                self@.relations == old(self)@.relations,
                forall|j: int| 0 <= j < i ==> #[trigger] self@.snippets[j] == detached(before[j], id@),
                forall|j: int| i <= j < before.len() ==> #[trigger] self@.snippets[j] == before[j],
            decreases self.snippets.len() - i,
        {
            let inside = match &self.snippets[i].folder_id {
                Some(f) => *f == key,
                None => false,
            };
            let ghost here = self@.snippets;
            if inside {
                self.snippets[i].folder_id = None;
            }
            proof {
                assert forall|j: int| 0 <= j < i + 1 implies #[trigger] self@.snippets[j] == detached(
                    before[j],
                    id@,
                ) by {
                    if j < i {
                        assert(here[j] == detached(before[j], id@));
                    }
                }
                assert forall|j: int| i + 1 <= j < before.len() implies #[trigger] self@.snippets[j]
                    == before[j] by {
                    assert(here[j] == before[j]);
                }
            }
            i += 1;
        }
        proof {
            let next = old(self)@.delete_folder(id@);
            assert(mirror_of_all(next.snippets) =~= mirror_of_all(before)) by {}
            assert(self@ =~= next);
        }
        Ok(())
    }
}

} // verus!
