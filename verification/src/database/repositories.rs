//! Git repositories: create, list, read, touch and delete. The caller hands in a
//! repository complete with its id and timestamps; the remotes are stored as one
//! encoded text. No two repositories share a path.
use vstd::prelude::*;
use crate::database::{Database, has_path, StoreModel};
use crate::error::StoreError;
use crate::fields::copy_opt;
use crate::ident::now_rfc3339;
use crate::json::{decode_records, json_of_records, records_in, write_records};
use crate::model::repository::{
    GitRemote,
    GitRemoteView,
    GitRepository,
    GitRepositoryUpdate,
    GitRepositoryView,
    RepositoryRow,
    RepositoryRowView,
};
use crate::ordering::{
    full_mask,
    ints,
    keys_view,
    mark_all,
    marked,
    marked_positions,
    order_positions,
    ordered,
    OrderKey,
    OrderKeyView,
};
use crate::table::{has_key, lemma_index_unique, lookup, position, replaced, rows_view, without};
use crate::text::chars_of;

verus! {

/// The remote as the object under which it is stored: its name under `name`, its URL
/// under `url`.
pub open spec fn remote_record(remote: GitRemoteView) -> Seq<(Seq<char>, Seq<char>)> {
    seq![("name"@, remote.name), ("url"@, remote.url)]
}

/// The remotes as the objects under which they are stored.
pub open spec fn remote_records(remotes: Seq<GitRemoteView>) -> Seq<Seq<(Seq<char>, Seq<char>)>> {
    Seq::new(remotes.len(), |i: int| remote_record(remotes[i]))
}

/// Some entry of `entries` has the key `key`.
pub open spec fn has_entry(entries: Seq<(Seq<char>, Seq<char>)>, key: Seq<char>) -> bool {
    exists|i: int| 0 <= i < entries.len() && (#[trigger] entries[i]).0 == key
}

/// The value of the first entry of `entries` that has the key `key`.
pub open spec fn entry_value(entries: Seq<(Seq<char>, Seq<char>)>, key: Seq<char>) -> Seq<char> {
    entries[choose|i: int|
        0 <= i < entries.len() && (#[trigger] entries[i]).0 == key && forall|j: int|
            0 <= j < i ==> (#[trigger] entries[j]).0 != key].1
}

/// The object `entries` is a remote: it has a name and a URL.
pub open spec fn is_remote(entries: Seq<(Seq<char>, Seq<char>)>) -> bool {
    has_entry(entries, "name"@) && has_entry(entries, "url"@)
}

/// The remote that an object stands for.
pub open spec fn remote_of(entries: Seq<(Seq<char>, Seq<char>)>) -> GitRemoteView {
    GitRemoteView { name: entry_value(entries, "name"@), url: entry_value(entries, "url"@) }
}

/// The remotes that a list of objects stands for: one for each object where each is a
/// remote, and none where one of them is not.
pub open spec fn remotes_of(records: Seq<Seq<(Seq<char>, Seq<char>)>>) -> Seq<GitRemoteView> {
    if forall|i: int| 0 <= i < records.len() ==> is_remote(#[trigger] records[i]) {
        Seq::new(records.len(), |i: int| remote_of(records[i]))
    } else {
        Seq::empty()
    }
}

/// The row under which a repository is stored, with `remotes` as the text of its
/// remotes.
pub open spec fn repository_row(r: GitRepositoryView, remotes: Seq<char>) -> RepositoryRowView {
    RepositoryRowView {
        id: r.id,
        name: r.name,
        description: r.description,
        path: r.path,
        is_default: r.is_default,
        remotes: remotes,
        created_at: r.created_at,
        updated_at: r.updated_at,
    }
}

/// The repository that a stored row stands for. Remotes that cannot be read stand for
/// no remotes.
pub open spec fn repository_of(row: RepositoryRowView) -> GitRepositoryView {
    GitRepositoryView {
        id: row.id,
        name: row.name,
        description: row.description,
        path: row.path,
        is_default: row.is_default,
        remotes: remotes_of(records_in(row.remotes)),
        created_at: row.created_at,
        updated_at: row.updated_at,
    }
}

impl StoreModel {
    /// Whether a repository with the id `id` and the path `path` would clash with one
    /// that is stored: the id is taken, or the path is.
    pub open spec fn repository_clashes(self, id: Seq<char>, path: Seq<char>) -> bool {
        has_key::<RepositoryRow>(self.repositories, id) || has_path(self.repositories, path)
    }

    /// Creating a repository: refused where its id or its path is taken, and where the
    /// remotes have no encoding; otherwise the row, with the remotes encoded, is
    /// appended.
    pub open spec fn create_repository(self, r: GitRepositoryView) -> Result<StoreModel, StoreError> {
        if self.repository_clashes(r.id, r.path) {
            Err(StoreError::DuplicateKey)
        } else {
            match json_of_records(remote_records(r.remotes)) {
                None => Err(StoreError::Encoding),
                Some(remotes) => Ok(
                    StoreModel {
                        repositories: self.repositories.push(repository_row(r, remotes)),
                        ..self
                    },
                ),
            }
        }
    }

    /// The repository with the id `id`, if there is one.
    pub open spec fn repository(self, id: Seq<char>) -> Option<GitRepositoryView> {
        match lookup::<RepositoryRow>(self.repositories, id) {
            Some(row) => Some(repository_of(row)),
            None => None,
        }
    }

    /// All repositories, the most recently created first.
    pub open spec fn all_repositories(self) -> Seq<GitRepositoryView> {
        let order = self.repository_order();
        Seq::new(order.len(), |k: int| repository_of(self.repositories[order[k]]))
    }

    /// Touching the repository `id` at the time `now`: refused where no repository has
    /// the id; otherwise the time of its last update is `now` and nothing else changes.
    pub open spec fn touch_repository(self, id: Seq<char>, now: Seq<char>) -> Result<StoreModel, StoreError> {
        match lookup::<RepositoryRow>(self.repositories, id) {
            None => Err(StoreError::NotFound),
            Some(row) => Ok(
                StoreModel {
                    repositories: replaced::<RepositoryRow>(
                        self.repositories,
                        id,
                        RepositoryRowView { updated_at: now, ..row },
                    ),
                    ..self
                },
            ),
        }
    }

    /// The store without the repository `id`.
    pub open spec fn delete_repository(self, id: Seq<char>) -> StoreModel {
        StoreModel { repositories: without::<RepositoryRow>(self.repositories, id), ..self }
    }

    /// The keys by which repositories are listed: the time of their creation, as text.
    pub open spec fn repository_keys(self) -> Seq<OrderKeyView> {
        Seq::new(self.repositories.len(), |i: int| OrderKeyView::Text(self.repositories[i].created_at))
    }

    /// The positions of all repositories, the most recently created first.
    pub open spec fn repository_order(self) -> Seq<int> {
        ordered(self.repository_keys(), marked(full_mask(self.repositories.len())), true)
    }
}

/// The remotes as the objects under which they are stored.
fn to_records(remotes: &Vec<GitRemote>) -> (records: Vec<Vec<(String, String)>>)
    ensures
        records.deep_view() == remote_records(rows_view(remotes@)),
{
    let mut records: Vec<Vec<(String, String)>> = Vec::new();
    let mut i: usize = 0;
    while i < remotes.len()
        invariant
            i <= remotes.len(),
            records.len() == i,
            forall|j: int| 0 <= j < i ==> (#[trigger] records@[j]).deep_view() == remote_record(remotes@[j]@),
        decreases remotes.len() - i,
    {
        let mut entries: Vec<(String, String)> = Vec::new();
        entries.push(("name".to_owned(), remotes[i].name.clone()));
        entries.push(("url".to_owned(), remotes[i].url.clone()));
        assert(entries.deep_view() =~= remote_record(remotes@[i as int]@));
        records.push(entries);
        i += 1;
    }
    assert(records.deep_view() =~= remote_records(rows_view(remotes@)));
    records
}

/// The value of the first entry that has the key `key`, if there is one.
fn value_of(entries: &Vec<(String, String)>, key: &String) -> (value: Option<String>)
    ensures
        match value {
            Some(v) => has_entry(entries.deep_view(), key@) && v@ == entry_value(
                entries.deep_view(),
                key@,
            ),
            None => !has_entry(entries.deep_view(), key@),
        },
{
    let ghost all = entries.deep_view();
    let mut i: usize = 0;
    while i < entries.len()
        invariant
            i <= entries.len(),
            all == entries.deep_view(),
            forall|j: int| 0 <= j < i ==> (#[trigger] all[j]).0 != key@,
        decreases entries.len() - i,
    {
        if entries[i].0 == *key {
            proof {
                assert(all[i as int].0 == key@);
                let first = choose|f: int|
                    0 <= f < all.len() && (#[trigger] all[f]).0 == key@ && forall|j: int|
                        0 <= j < f ==> (#[trigger] all[j]).0 != key@;
                assert(first == i) by {
                    if first < i {
                        assert(all[first].0 != key@);
                    }
                    if i < first {
                        assert(all[i as int].0 != key@);
                    }
                }
            }
            return Some(entries[i].1.clone());
        }
        i += 1;
    }
    None
}

/// The remotes that a list of objects stands for.
fn to_remotes(records: &Vec<Vec<(String, String)>>) -> (remotes: Vec<GitRemote>)
    ensures
        rows_view(remotes@) == remotes_of(records.deep_view()),
{
    let ghost all = records.deep_view();
    let name_key = "name".to_owned();
    let url_key = "url".to_owned();
    let mut remotes: Vec<GitRemote> = Vec::new();
    let mut i: usize = 0;
    while i < records.len()
        invariant
            i <= records.len(),
            all == records.deep_view(),
            name_key@ == "name"@,
            url_key@ == "url"@,
            remotes.len() == i,
            forall|j: int| 0 <= j < i ==> is_remote(#[trigger] all[j]),
            forall|j: int| 0 <= j < i ==> (#[trigger] remotes@[j])@ == remote_of(all[j]),
        decreases records.len() - i,
    {
        assert(all[i as int] == records@[i as int].deep_view());
        let name = value_of(&records[i], &name_key);
        let url = value_of(&records[i], &url_key);
        match (name, url) {
            (Some(name), Some(url)) => {
                remotes.push(GitRemote { name: name, url: url });
            },
            _ => {
                assert(!is_remote(all[i as int]));
                let none: Vec<GitRemote> = Vec::new();
                assert(rows_view(none@) =~= remotes_of(all));
                return none;
            },
        }
        i += 1;
    }
    assert(rows_view(remotes@) =~= remotes_of(all));
    remotes
}

/// The repository that a stored row stands for.
fn to_repository(row: &RepositoryRow) -> (r: GitRepository)
    ensures
        r@ == repository_of(row@),
{
    GitRepository {
        id: row.id.clone(),
        name: row.name.clone(),
        description: copy_opt(&row.description),
        path: row.path.clone(),
        is_default: row.is_default,
        remotes: to_remotes(&decode_records(row.remotes.as_str())),
        created_at: row.created_at.clone(),
        updated_at: row.updated_at.clone(),
    }
}

impl Database {
    /// Whether some repository has the path `path`.
    fn has_path(&self, path: &String) -> (found: bool)
        ensures
            found == has_path(self@.repositories, path@),
    {
        let mut i: usize = 0;
        while i < self.repositories.len()
            invariant
                i <= self.repositories.len(),
                forall|j: int| 0 <= j < i ==> (#[trigger] self@.repositories[j]).path != path@,
            decreases self.repositories.len() - i,
        {
            if self.repositories[i].path == *path {
                assert(self@.repositories[i as int].path == path@);
                return true;
            }
            i += 1;
        }
        false
    }

    /// Stores the repository as it is handed in, and hands it back. Nothing is written
    /// where the id or the path is taken, or the remotes cannot be encoded.
    pub fn create_git_repository(&mut self, repository: GitRepository) -> (r: Result<
        GitRepository,
        StoreError,
    >)
        requires
            old(self).wf(),
        ensures
            final(self).wf(),
            match r {
                Ok(stored) => {
                    &&& stored == repository
                    &&& old(self)@.create_repository(repository@) == Ok::<_, StoreError>(final(self)@)
                },
                Err(e) => old(self)@.create_repository(repository@) == Err::<StoreModel, _>(e)
                    && final(self)@ == old(self)@,
            },
    {
        if position(&self.repositories, &repository.id).is_some() || self.has_path(&repository.path) {
            return Err(StoreError::DuplicateKey);
        }
        let records = to_records(&repository.remotes);
        let remotes = match write_records(&records) {
            Ok(text) => text,
            Err(_) => {
                return Err(StoreError::Encoding);
            },
        };
        let row = RepositoryRow {
            id: repository.id.clone(),
            name: repository.name.clone(),
            description: copy_opt(&repository.description),
            path: repository.path.clone(),
            is_default: repository.is_default,
            remotes: remotes,
            created_at: repository.created_at.clone(),
            updated_at: repository.updated_at.clone(),
        };
        let ghost rv = row@;
        self.repositories.push(row);
        proof {
            let rows = old(self)@.repositories.push(rv);
            assert(self@ =~= (StoreModel { repositories: rows, ..old(self)@ }));
        }
        Ok(repository)
    }

    /// All repositories, the most recently created first.
    pub fn get_git_repositories(&self) -> (r: Result<Vec<GitRepository>, StoreError>)
        requires
            self.wf(),
        ensures
            r matches Ok(list) && rows_view(list@) == self@.all_repositories(),
    {
        let mut keys: Vec<OrderKey> = Vec::new();
        let mut i: usize = 0;
        while i < self.repositories.len()
            invariant
                i <= self.repositories.len(),
                keys.len() == i,
                forall|j: int|
                    0 <= j < i ==> (#[trigger] keys@[j])@ == OrderKeyView::Text(
                        self.repositories@[j].created_at@,
                    ),
            decreases self.repositories.len() - i,
        {
            keys.push(OrderKey::Text(chars_of(self.repositories[i].created_at.as_str())));
            i += 1;
        }
        assert(keys_view(keys@) =~= self@.repository_keys());
        let mask = mark_all(self.repositories.len());
        let positions = marked_positions(&mask);
        let order = order_positions(&keys, &positions, true);
        let ghost target = self@.repository_order();
        let mut out: Vec<GitRepository> = Vec::new();
        let mut k: usize = 0;
        while k < order.len()
            invariant
                k <= order.len(),
                out.len() == k,
                ints(order@) == target,
                forall|j: int|
                    0 <= j < order.len() ==> 0 <= #[trigger] ints(order@)[j] < self.repositories.len(),
                forall|j: int|
                    0 <= j < k ==> (#[trigger] out@[j])@ == repository_of(self@.repositories[target[j]]),
            decreases order.len() - k,
        {
            assert(ints(order@)[k as int] == order@[k as int]);
            out.push(to_repository(&self.repositories[order[k]]));
            k += 1;
        }
        Ok(out)
    }

    /// The repository `repository_id`. That no repository has the id is an error.
    pub fn get_git_repository(&self, repository_id: &str) -> (r: Result<GitRepository, StoreError>)
        requires
            self.wf(),
        ensures
            match r {
                Ok(w) => self@.repository(repository_id@) == Some(w@),
                Err(e) => e == StoreError::NotFound && self@.repository(repository_id@) is None,
            },
    {
        let key = repository_id.to_owned();
        match position(&self.repositories, &key) {
            Some(at) => {
                Ok(to_repository(&self.repositories[at]))
            },
            None => Err(StoreError::NotFound),
        }
    }

    /// Sets the time of the last update of the repository `repository_id` to `now` and
    /// hands the repository out. The fields of `updates` are not applied.
    pub fn touch_git_repository(&mut self, repository_id: String, updates: GitRepositoryUpdate, now: String) -> (r:
        Result<GitRepository, StoreError>)
        requires
            old(self).wf(),
        ensures
            final(self).wf(),
            match r {
                Ok(w) => {
                    &&& old(self)@.touch_repository(repository_id@, now@) == Ok::<_, StoreError>(
                        final(self)@,
                    )
                    &&& final(self)@.repository(repository_id@) == Some(w@)
                },
                Err(e) => {
                    &&& e == StoreError::NotFound
                    &&& old(self)@.touch_repository(repository_id@, now@) == Err::<StoreModel, _>(e)
                    &&& final(self)@ == old(self)@
                },
            },
    {
        let at = match position(&self.repositories, &repository_id) {
            Some(at) => at,
            None => {
                return Err(StoreError::NotFound);
            },
        };
        let ghost before = old(self)@.repositories[at as int];
        let ghost rv = RepositoryRowView { updated_at: now@, ..before };
        self.repositories[at].updated_at = now;
        proof {
            let rows = old(self)@.repositories.update(at as int, rv);
            lemma_index_unique::<RepositoryRow>(rows, repository_id@, at as int);
            assert(self@ =~= (StoreModel {
                repositories: old(self)@.repositories.update(at as int, rv),
                ..old(self)@
            }));
        }
        Ok(to_repository(&self.repositories[at]))
    }

    /// Touches a repository at the current time: the time of its last update is set, and
    /// the fields of `updates` are not applied.
    pub fn update_git_repository(&mut self, repository_id: String, updates: GitRepositoryUpdate) -> (r: Result<
        GitRepository,
        StoreError,
    >)
        requires
            old(self).wf(),
        ensures
            final(self).wf(),
            match r {
                Ok(w) => {
                    &&& old(self)@.touch_repository(repository_id@, w@.updated_at) == Ok::<_, StoreError>(
                        final(self)@,
                    )
                    &&& final(self)@.repository(repository_id@) == Some(w@)
                },
                Err(e) => {
                    &&& e == StoreError::NotFound
                    &&& !has_key::<RepositoryRow>(old(self)@.repositories, repository_id@)
                    &&& final(self)@ == old(self)@
                },
            },
    {
        let now = now_rfc3339();
        self.touch_git_repository(repository_id, updates, now)
    }

    /// Deletes the repository `repository_id`. Deleting a repository that is not there
    /// changes nothing.
    pub fn delete_git_repository(&mut self, repository_id: String) -> (r: Result<(), StoreError>)
        requires
            old(self).wf(),
        ensures
            final(self).wf(),
            r is Ok,
            final(self)@ == old(self)@.delete_repository(repository_id@),
    {
        match position(&self.repositories, &repository_id) {
            Some(at) => {
                self.repositories.remove(at);
            },
            None => {},
        }
        assert(self@ =~= old(self)@.delete_repository(repository_id@));
        Ok(())
    }
}

} // verus!
