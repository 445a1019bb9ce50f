//! Collections of requests, their folders, variables and sync state.

use vstd::prelude::*;
use vstd::string::*;

use crate::base::{clone_opt_string, new_id, now, uuid_text, Id, Identifiable, Temporal, Timestamp};
use crate::environment::{distinct_keys, last_value_per_key, pair_lookup, pairs_view};
use crate::request::AuthConfig;

verus! {

broadcast use vstd::std_specs::vec::group_vec_axioms;

/// Kind of a collection variable.
#[derive(Clone, Copy, Debug, PartialEq, Eq, Structural)]
pub enum VariableType {
    String,
    Boolean,
    Secret,
    Json,
    Number,
}

impl Default for VariableType {
    fn default() -> (r: Self)
        ensures
            r == VariableType::String,
    {
        VariableType::String
    }
}

/// A variable of a collection.
#[derive(Debug, PartialEq, Eq)]
pub struct Variable {
    pub key: String,
    pub value: String,
    pub variable_type: VariableType,
    pub enabled: bool,
    /// A hint about the expected value.
    pub hint: Option<String>,
    /// The value a secret started with.
    pub initial_value: Option<String>,
}

impl Clone for Variable {
    fn clone(&self) -> (r: Self)
        ensures
            r == *self,
    {
        Variable {
            key: self.key.clone(),
            value: self.value.clone(),
            variable_type: self.variable_type,
            enabled: self.enabled,
            hint: clone_opt_string(&self.hint),
            initial_value: clone_opt_string(&self.initial_value),
        }
    }
}

/// An enabled variable of the given type, without hint or initial value.
pub open spec fn typed_variable(key: String, value: String, t: VariableType) -> Variable {
    Variable { key, value, variable_type: t, enabled: true, hint: None, initial_value: None }
}

impl Variable {
    pub fn new(key: String, value: String) -> (r: Self)
        ensures
            r == typed_variable(key, value, VariableType::String),
    {
        Variable {
            key,
            value,
            variable_type: VariableType::String,
            enabled: true,
            hint: None,
            initial_value: None,
        }
    }

    pub fn secret(key: String, value: String) -> (r: Self)
        ensures
            r == typed_variable(key, value, VariableType::Secret),
    {
        Variable {
            key,
            value,
            variable_type: VariableType::Secret,
            enabled: true,
            hint: None,
            initial_value: None,
        }
    }

    pub fn json(key: String, value: String) -> (r: Self)
        ensures
            r == typed_variable(key, value, VariableType::Json),
    {
        Variable {
            key,
            value,
            variable_type: VariableType::Json,
            enabled: true,
            hint: None,
            initial_value: None,
        }
    }

    pub fn with_hint(self, hint: String) -> (r: Self)
        ensures
            r == (Variable { hint: Some(hint), ..self }),
    {
        let mut v = self;
        v.hint = Some(hint);
        v
    }

    pub fn disabled(self) -> (r: Self)
        ensures
            r == (Variable { enabled: false, ..self }),
    {
        let mut v = self;
        v.enabled = false;
        v
    }
}

/// The name of a variable type in the Postman collection format.
pub open spec fn postman_type_name(t: VariableType) -> Seq<char> {
    match t {
        VariableType::String => "string"@,
        VariableType::Boolean => "boolean"@,
        VariableType::Secret => "secret"@,
        VariableType::Json => "json"@,
        VariableType::Number => "number"@,
    }
}

/// The variable type named exactly `s` in the Postman collection format.
pub open spec fn postman_type_named(s: Seq<char>) -> Option<VariableType> {
    if s == "string"@ {
        Some(VariableType::String)
    } else if s == "boolean"@ {
        Some(VariableType::Boolean)
    } else if s == "secret"@ {
        Some(VariableType::Secret)
    } else if s == "json"@ {
        Some(VariableType::Json)
    } else if s == "number"@ {
        Some(VariableType::Number)
    } else {
        None
    }
}

fn variable_type_to_postman(var_type: VariableType) -> (r: &'static str)
    ensures
        r@ == postman_type_name(var_type),
{
    match var_type {
        VariableType::String => "string",
        VariableType::Boolean => "boolean",
        VariableType::Secret => "secret",
        VariableType::Json => "json",
        VariableType::Number => "number",
    }
}

fn postman_variable_type(s: &str) -> (r: Option<VariableType>)
    ensures
        r == postman_type_named(s@),
{
    let t = String::from_str(s);
    if t == String::from_str("string") {
        Some(VariableType::String)
    } else if t == String::from_str("boolean") {
        Some(VariableType::Boolean)
    } else if t == String::from_str("secret") {
        Some(VariableType::Secret)
    } else if t == String::from_str("json") {
        Some(VariableType::Json)
    } else if t == String::from_str("number") {
        Some(VariableType::Number)
    } else {
        None
    }
}

impl VariableType {
    /// The name of this type in the Postman collection format.
    pub fn postman_name(&self) -> (r: &'static str)
        ensures
            r@ == postman_type_name(*self),
    {
        variable_type_to_postman(*self)
    }

    /// The type named `s` in the Postman collection format.
    pub fn from_postman_name(s: &str) -> (r: Option<VariableType>)
        ensures
            r == postman_type_named(s@),
    {
        postman_variable_type(s)
    }
}

/// Sync status of a collection.
#[derive(Clone, Copy, Debug, PartialEq, Eq, Structural)]
pub enum SyncStatus {
    NotSynced,
    Syncing,
    Synced,
    Failed,
    Conflict,
    /// Local changes wait to be synced.
    Pending,
}

impl Default for SyncStatus {
    fn default() -> (r: Self)
        ensures
            r == SyncStatus::NotSynced,
    {
        SyncStatus::NotSynced
    }
}

/// Sync state of a collection.
#[derive(Clone, Copy, Debug, PartialEq, Eq, Structural)]
pub struct SyncState {
    pub last_synced_at: Option<Timestamp>,
    pub status: SyncStatus,
    pub remote_id: Option<Id>,
    /// Version used to detect conflicts.
    pub version: Option<i64>,
    pub pending_changes: usize,
}

impl SyncState {
    /// The state of a collection that was never synced.
    pub open spec fn default_spec() -> SyncState {
        SyncState {
            last_synced_at: None,
            status: SyncStatus::NotSynced,
            remote_id: None,
            version: None,
            pending_changes: 0,
        }
    }
}

impl Default for SyncState {
    fn default() -> (r: Self)
        ensures
            r == (SyncState {
                last_synced_at: None,
                status: SyncStatus::NotSynced,
                remote_id: None,
                version: None,
                pending_changes: 0,
            }),
    {
        SyncState {
            last_synced_at: None,
            status: SyncStatus::NotSynced,
            remote_id: None,
            version: None,
            pending_changes: 0,
        }
    }
}

/// How a collection is laid out in the interface.
#[derive(Clone, Copy, Debug, PartialEq, Eq, Structural)]
pub enum CollectionViewMode {
    List,
    Grid,
    Tree,
}

impl Default for CollectionViewMode {
    fn default() -> (r: Self)
        ensures
            r == CollectionViewMode::Tree,
    {
        CollectionViewMode::Tree
    }
}

/// Interface state of a collection.
#[derive(Clone, Copy, Debug, PartialEq, Eq, Structural)]
pub struct CollectionUiState {
    pub is_expanded: bool,
    pub selected_item: Option<Id>,
    /// Bit pattern of the `f32` scroll offset, if any.
    pub scroll_position_bits: Option<u32>,
    pub view_mode: CollectionViewMode,
}

impl Default for CollectionUiState {
    fn default() -> (r: Self)
        ensures
            r == (CollectionUiState {
                is_expanded: false,
                selected_item: None,
                scroll_position_bits: None,
                view_mode: CollectionViewMode::Tree,
            }),
    {
        CollectionUiState {
            is_expanded: false,
            selected_item: None,
            scroll_position_bits: None,
            view_mode: CollectionViewMode::Tree,
        }
    }
}

/// Interface state of a folder.
#[derive(Clone, Copy, Debug, PartialEq, Eq, Structural)]
pub struct FolderUiState {
    pub is_expanded: bool,
    pub is_selected: bool,
    /// Nesting level, for display.
    pub depth: usize,
}

impl Default for FolderUiState {
    fn default() -> (r: Self)
        ensures
            r == (FolderUiState { is_expanded: false, is_selected: false, depth: 0 }),
    {
        FolderUiState { is_expanded: false, is_selected: false, depth: 0 }
    }
}

/// Metadata of a collection.
#[derive(Clone, Debug, PartialEq, Eq)]
pub struct CollectionInfo {
    /// Schema of the collection format.
    pub schema: String,
    pub postboy_id: String,
    pub icon: Option<String>,
    pub color: Option<String>,
}

/// The collection format schema.
pub open spec fn collection_schema() -> Seq<char> {
    "https://schema.getpostboy.com/json/collection/v2.1.0/collection.json"@
}

impl Default for CollectionInfo {
    fn default() -> (r: Self)
        ensures
            r.schema@ == collection_schema(),
            r.icon is None,
            r.color is None,
    {
        CollectionInfo {
            schema: String::from_str(
                "https://schema.getpostboy.com/json/collection/v2.1.0/collection.json",
            ),
            postboy_id: uuid_text(new_id()),
            icon: None,
            color: None,
        }
    }
}

/// A folder of a collection; folders nest.
#[derive(Debug, PartialEq, Eq)]
pub struct Folder {
    pub id: Id,
    pub name: String,
    pub description: Option<String>,
    pub parent_id: Option<Id>,
    pub children: Vec<Folder>,
    /// Ids of the requests in this folder.
    pub requests: Vec<Id>,
    pub ui_state: FolderUiState,
    pub created_at: Timestamp,
    pub updated_at: Timestamp,
}

/// The request ids of a folder and of its sub-folders: its own first, then
/// each child's in order.
pub open spec fn folder_request_ids(f: Folder) -> Seq<Id>
    decreases f, f.children@.len() + 1,
{
    f.requests@ + children_request_ids(f, f.children@.len() as nat)
}

/// The request ids of the first `n` children of `f`, in order.
pub open spec fn children_request_ids(f: Folder, n: nat) -> Seq<Id>
    decreases f, n,
{
    if n == 0 || n > f.children@.len() {
        Seq::empty()
    } else {
        children_request_ids(f, (n - 1) as nat) + folder_request_ids(f.children@[n - 1])
    }
}

fn copy_ids(v: &Vec<Id>) -> (r: Vec<Id>)
    ensures
        r@ == v@,
{
    let mut out: Vec<Id> = Vec::new();
    let mut i: usize = 0;
    while i < v.len()
        invariant
            i <= v@.len(),
            out@ == v@.take(i as int),
        decreases v@.len() - i,
    {
        out.push(v[i]);
        i = i + 1;
        assert(out@ =~= v@.take(i as int));
    }
    assert(v@.take(i as int) =~= v@);
    out
}

impl Clone for Folder {
    /// A copy of this folder and, recursively, of its sub-folders.
    fn clone(&self) -> (r: Self)
        ensures
            r.id == self.id,
            r.name == self.name,
            r.description == self.description,
            r.parent_id == self.parent_id,
            r.children@.len() == self.children@.len(),
            r.requests@ == self.requests@,
            r.ui_state == self.ui_state,
            r.created_at == self.created_at,
            r.updated_at == self.updated_at,
        decreases *self,
    {
        let mut children: Vec<Folder> = Vec::new();
        let mut i: usize = 0;
        while i < self.children.len()
            invariant
                i <= self.children@.len(),
                children@.len() == i,
            decreases self.children@.len() - i,
        {
            proof {
                assert(decreases_to!(*self => self.children@[i as int]));
            }
            children.push(self.children[i].clone());
            i = i + 1;
        }
        Folder {
            id: self.id,
            name: self.name.clone(),
            description: clone_opt_string(&self.description),
            parent_id: self.parent_id,
            children,
            requests: copy_ids(&self.requests),
            ui_state: self.ui_state,
            created_at: self.created_at,
            updated_at: self.updated_at,
        }
    }
}

impl Folder {
    pub fn new(name: String) -> (r: Self)
        ensures
            r.name == name,
            r.description is None,
            r.parent_id is None,
            r.children@.len() == 0,
            r.requests@.len() == 0,
            r.ui_state.depth == 0,
            r.created_at == r.updated_at,
    {
        let t = now();
        Folder {
            id: new_id(),
            name,
            description: None,
            parent_id: None,
            children: Vec::new(),
            requests: Vec::new(),
            ui_state: FolderUiState::default(),
            created_at: t,
            updated_at: t,
        }
    }

    pub fn with_parent(self, parent_id: Id) -> (r: Self)
        ensures
            r == (Folder { parent_id: Some(parent_id), ..self }),
    {
        let mut f = self;
        f.parent_id = Some(parent_id);
        f
    }

    pub fn with_description(self, description: String) -> (r: Self)
        ensures
            r == (Folder { description: Some(description), ..self }),
    {
        let mut f = self;
        f.description = Some(description);
        f
    }

    pub fn add_child(&mut self, folder: Folder)
        ensures
            final(self).children@ == old(self).children@.push(folder),
            *final(self) == (Folder {
                children: final(self).children,
                updated_at: final(self).updated_at,
                ..*old(self)
            }),
    {
        self.children.push(folder);
        self.updated_at = now();
    }

    pub fn add_request(&mut self, request_id: Id)
        ensures
            final(self).requests@ == old(self).requests@.push(request_id),
            *final(self) == (Folder {
                requests: final(self).requests,
                updated_at: final(self).updated_at,
                ..*old(self)
            }),
    {
        self.requests.push(request_id);
        self.updated_at = now();
    }

    /// The request ids of this folder and of all its sub-folders.
    pub fn all_request_ids(&self) -> (r: Vec<Id>)
        ensures
            r@ == folder_request_ids(*self),
        decreases *self,
    {
        let mut ids = copy_ids(&self.requests);
        let mut i: usize = 0;
        while i < self.children.len()
            invariant
                i <= self.children@.len(),
                ids@ == self.requests@ + children_request_ids(*self, i as nat),
            decreases self.children@.len() - i,
        {
            proof {
                assert(decreases_to!(*self => self.children@[i as int]));
            }
            let mut sub = self.children[i].all_request_ids();
            ids.append(&mut sub);
            i = i + 1;
            assert(ids@ =~= self.requests@ + children_request_ids(*self, i as nat));
        }
        ids
    }

    pub fn depth(&self) -> (r: usize)
        ensures
            r == self.ui_state.depth,
    {
        self.ui_state.depth
    }

    /// This folder if it has id `folder_id`, else the first match among its
    /// sub-folders, searched depth-first in order.
    pub fn find_folder(&self, folder_id: Id) -> (r: Option<&Folder>)
        ensures
            match find_in_folder(*self, folder_id) {
                Some(f) => r matches Some(x) && *x == f,
                None => r is None,
            },
        decreases *self,
    {
        if self.id == folder_id {
            return Some(self);
        }
        let mut i: usize = 0;
        while i < self.children.len()
            invariant
                i <= self.children@.len(),
                self.id != folder_id,
                find_in_folder(*self, folder_id) == find_in_children(*self, folder_id, i as nat),
            decreases self.children@.len() - i,
        {
            proof {
                assert(decreases_to!(*self => self.children@[i as int]));
            }
            match self.children[i].find_folder(folder_id) {
                Some(found) => {
                    return Some(found);
                },
                None => {},
            }
            i = i + 1;
        }
        None
    }

    /// Sets the display depth of this folder to `depth`, and of each folder
    /// below it to one more than its parent's (saturating).
    pub fn set_depth(&mut self, depth: usize)
        ensures
            final(self).ui_state.depth == depth,
            final(self).id == old(self).id,
            final(self).requests == old(self).requests,
            final(self).children@.len() == old(self).children@.len(),
        decreases *old(self),
    {
        self.ui_state.depth = depth;
        let child_depth = if depth < usize::MAX {
            depth + 1
        } else {
            depth
        };
        let n = self.children.len();
        let mut i: usize = 0;
        while i < n
            invariant
                i <= n,
                n == self.children@.len(),
                n == old(self).children@.len(),
                self.ui_state.depth == depth,
                self.id == old(self).id,
                self.requests == old(self).requests,
                forall|j: int| i <= j < n ==> self.children@[j] == old(self).children@[j],
            decreases n - i,
        {
            proof {
                assert(decreases_to!(*old(self) => old(self).children@[i as int]));
            }
            self.children[i].set_depth(child_depth);
            i = i + 1;
        }
    }

    /// Like `find_folder`, for changing the folder found.
    pub fn find_folder_mut(&mut self, folder_id: Id) -> (r: Option<&mut Folder>)
        ensures
            match find_in_folder(*old(self), folder_id) {
                Some(f) => r matches Some(x) && *x == f,
                None => r is None,
            },
        decreases *old(self),
    {
        if self.id == folder_id {
            return Some(self);
        }
        let n = self.children.len();
        let mut i: usize = 0;
        while i < n
            invariant
                i <= n,
                n == self.children@.len(),
                *self == *old(self),
                self.id != folder_id,
                find_in_folder(*self, folder_id) == find_in_children(*self, folder_id, i as nat),
            decreases n - i,
        {
            if self.children[i].find_folder(folder_id).is_some() {
                proof {
                    assert(decreases_to!(*old(self) => old(self).children@[i as int]));
                }
                return self.children[i].find_folder_mut(folder_id);
            }
            i = i + 1;
        }
        None
    }

    /// A copy under a new id, named "<name> (Copy)".
    pub fn duplicate(&self) -> (r: Self)
        ensures
            r.name@ == self.name@ + " (Copy)"@,
            r.description == self.description,
            r.parent_id == self.parent_id,
            r.children@.len() == self.children@.len(),
            r.requests@ == self.requests@,
    {
        let mut dup = self.clone();
        dup.id = new_id();
        dup.name = String::from_str(self.name.as_str()).concat(" (Copy)");
        let t = now();
        dup.created_at = t;
        dup.updated_at = t;
        dup
    }
}

/// The folder with id `id` in the tree of `f`: `f` itself, or the first
/// match in its sub-folders, depth-first.
pub open spec fn find_in_folder(f: Folder, id: Id) -> Option<Folder>
    decreases f, f.children@.len() + 1,
{
    if f.id == id {
        Some(f)
    } else {
        find_in_children(f, id, 0)
    }
}

/// The first match for `id` in the trees of the children of `f`, from the
/// `i`-th on.
pub open spec fn find_in_children(f: Folder, id: Id, i: nat) -> Option<Folder>
    decreases f, f.children@.len() - i,
{
    if i >= f.children@.len() {
        None
    } else {
        match find_in_folder(f.children@[i as int], id) {
            Some(x) => Some(x),
            None => find_in_children(f, id, i + 1),
        }
    }
}

/// The first match for `id` in the trees of `folders`, from the `i`-th on.
pub open spec fn find_in_list(folders: Seq<Folder>, id: Id, i: nat) -> Option<Folder>
    decreases folders.len() - i,
{
    if i >= folders.len() {
        None
    } else {
        match find_in_folder(folders[i as int], id) {
            Some(x) => Some(x),
            None => find_in_list(folders, id, i + 1),
        }
    }
}

/// The request ids of the trees of the first `n` folders, in order.
pub open spec fn list_request_ids(folders: Seq<Folder>, n: nat) -> Seq<Id>
    decreases n,
{
    if n == 0 || n > folders.len() {
        Seq::empty()
    } else {
        list_request_ids(folders, (n - 1) as nat) + folder_request_ids(folders[n - 1])
    }
}

/// The folders of `s` whose id is not `id`, in order.
pub open spec fn folders_without(s: Seq<Folder>, id: Id) -> Seq<Folder>
    decreases s.len(),
{
    if s.len() == 0 {
        s
    } else if s.last().id == id {
        folders_without(s.drop_last(), id)
    } else {
        folders_without(s.drop_last(), id).push(s.last())
    }
}

/// The ids of `s` other than `id`, in order.
pub open spec fn ids_without(s: Seq<Id>, id: Id) -> Seq<Id>
    decreases s.len(),
{
    if s.len() == 0 {
        s
    } else if s.last() == id {
        ids_without(s.drop_last(), id)
    } else {
        ids_without(s.drop_last(), id).push(s.last())
    }
}

/// The first enabled variable named `key`.
pub open spec fn first_enabled_variable(vars: Seq<Variable>, key: Seq<char>) -> Option<Variable>
    decreases vars.len(),
{
    if vars.len() == 0 {
        None
    } else if vars[0].enabled && vars[0].key@ == key {
        Some(vars[0])
    } else {
        first_enabled_variable(vars.drop_first(), key)
    }
}

/// The (key, value) pairs of the enabled variables, in order.
pub open spec fn enabled_variable_pairs(vars: Seq<Variable>) -> Seq<(Seq<char>, Seq<char>)>
    decreases vars.len(),
{
    if vars.len() == 0 {
        Seq::empty()
    } else if vars.last().enabled {
        enabled_variable_pairs(vars.drop_last()).push((vars.last().key@, vars.last().value@))
    } else {
        enabled_variable_pairs(vars.drop_last())
    }
}

/// A container of requests, organized in folders.
#[derive(Clone, Debug, PartialEq)]
pub struct Collection {
    pub id: Id,
    pub name: String,
    pub description: Option<String>,
    pub info: CollectionInfo,
    pub folders: Vec<Folder>,
    /// Ids of the requests at the top level.
    pub requests: Vec<Id>,
    pub variables: Vec<Variable>,
    pub auth: Option<AuthConfig>,
    pub sync_state: SyncState,
    pub ui_state: CollectionUiState,
    pub created_at: Timestamp,
    pub updated_at: Timestamp,
}

impl Collection {
    pub fn new(name: String) -> (r: Self)
        ensures
            r.name == name,
            r.description is None,
            r.info.schema@ == collection_schema(),
            r.folders@.len() == 0,
            r.requests@.len() == 0,
            r.variables@.len() == 0,
            r.auth is None,
            r.sync_state.status == SyncStatus::NotSynced,
            r.sync_state.pending_changes == 0,
            r.created_at == r.updated_at,
    {
        let t = now();
        Collection {
            id: new_id(),
            name,
            description: None,
            info: CollectionInfo::default(),
            folders: Vec::new(),
            requests: Vec::new(),
            variables: Vec::new(),
            auth: None,
            sync_state: SyncState::default(),
            ui_state: CollectionUiState::default(),
            created_at: t,
            updated_at: t,
        }
    }

    pub fn with_description(self, description: String) -> (r: Self)
        ensures
            r == (Collection { description: Some(description), ..self }),
    {
        let mut c = self;
        c.description = Some(description);
        c
    }

    /// Appends an enabled string variable.
    pub fn with_variable(self, key: String, value: String) -> (r: Self)
        ensures
            r == (Collection { variables: r.variables, ..self }),
            r.variables@ == self.variables@.push(typed_variable(key, value, VariableType::String)),
    {
        let mut c = self;
        c.variables.push(Variable::new(key, value));
        c
    }

    pub fn with_auth(self, auth: AuthConfig) -> (r: Self)
        ensures
            r == (Collection { auth: Some(auth), ..self }),
    {
        let mut c = self;
        c.auth = Some(auth);
        c
    }

    pub fn add_folder(&mut self, folder: Folder)
        ensures
            final(self).folders@ == old(self).folders@.push(folder),
            *final(self) == (Collection {
                folders: final(self).folders,
                updated_at: final(self).updated_at,
                ..*old(self)
            }),
    {
        self.folders.push(folder);
        self.updated_at = now();
    }

    pub fn add_request(&mut self, request_id: Id)
        ensures
            final(self).requests@ == old(self).requests@.push(request_id),
            *final(self) == (Collection {
                requests: final(self).requests,
                updated_at: final(self).updated_at,
                ..*old(self)
            }),
    {
        self.requests.push(request_id);
        self.updated_at = now();
    }

    /// Removes the top-level folders with id `folder_id`; true when one was there.
    pub fn remove_folder(&mut self, folder_id: Id) -> (r: bool)
        ensures
            final(self).folders@ == folders_without(old(self).folders@, folder_id),
            r == (final(self).folders@.len() < old(self).folders@.len()),
            !r ==> final(self).updated_at == old(self).updated_at,
    {
        let ghost orig = self.folders@;
        let len_before = self.folders.len();
        let mut i: usize = 0;
        let ghost mut j: int = 0;
        while i < self.folders.len()
            invariant
                0 <= j <= orig.len(),
                i <= self.folders@.len(),
                self.folders@.take(i as int) == folders_without(orig.take(j), folder_id),
                self.folders@.skip(i as int) == orig.skip(j),
                len_before == orig.len(),
                self.updated_at == old(self).updated_at,
            decreases self.folders@.len() - i,
        {
            let ghost cur = self.folders@;
            proof {
                assert(orig.skip(j).len() == cur.skip(i as int).len());
                assert(cur[i as int] == orig[j]) by {
                    assert(cur.skip(i as int)[0] == orig.skip(j)[0]);
                }
                assert(orig.take(j + 1).drop_last() =~= orig.take(j));
            }
            if self.folders[i].id == folder_id {
                self.folders.remove(i);
                proof {
                    assert(self.folders@.take(i as int) =~= cur.take(i as int));
                    assert(self.folders@.skip(i as int) =~= cur.skip(i as int).skip(1));
                    assert(orig.skip(j + 1) =~= orig.skip(j).skip(1));
                }
            } else {
                i = i + 1;
                proof {
                    assert(self.folders@.take(i as int) =~= cur.take(i - 1).push(cur[i - 1]));
                    assert(self.folders@.skip(i as int) =~= cur.skip(i - 1).skip(1));
                    assert(orig.skip(j + 1) =~= orig.skip(j).skip(1));
                }
            }
            proof {
                j = j + 1;
            }
        }
        proof {
            assert(orig.skip(j).len() == 0);
            assert(orig.take(j) =~= orig);
            assert(self.folders@.take(i as int) =~= self.folders@);
        }
        let removed = self.folders.len() < len_before;
        if removed {
            self.updated_at = now();
        }
        removed
    }

    /// Removes the top-level request ids equal to `request_id`; true when one
    /// was there.
    pub fn remove_request(&mut self, request_id: Id) -> (r: bool)
        ensures
            final(self).requests@ == ids_without(old(self).requests@, request_id),
            r == (final(self).requests@.len() < old(self).requests@.len()),
            !r ==> final(self).updated_at == old(self).updated_at,
    {
        let ghost orig = self.requests@;
        let len_before = self.requests.len();
        let mut i: usize = 0;
        let ghost mut j: int = 0;
        while i < self.requests.len()
            invariant
                0 <= j <= orig.len(),
                i <= self.requests@.len(),
                self.requests@.take(i as int) == ids_without(orig.take(j), request_id),
                self.requests@.skip(i as int) == orig.skip(j),
                len_before == orig.len(),
                self.updated_at == old(self).updated_at,
            decreases self.requests@.len() - i,
        {
            let ghost cur = self.requests@;
            proof {
                assert(orig.skip(j).len() == cur.skip(i as int).len());
                assert(cur[i as int] == orig[j]) by {
                    assert(cur.skip(i as int)[0] == orig.skip(j)[0]);
                }
                assert(orig.take(j + 1).drop_last() =~= orig.take(j));
            }
            if self.requests[i] == request_id {
                self.requests.remove(i);
                proof {
                    assert(self.requests@.take(i as int) =~= cur.take(i as int));
                    assert(self.requests@.skip(i as int) =~= cur.skip(i as int).skip(1));
                    assert(orig.skip(j + 1) =~= orig.skip(j).skip(1));
                }
            } else {
                i = i + 1;
                proof {
                    assert(self.requests@.take(i as int) =~= cur.take(i - 1).push(cur[i - 1]));
                    assert(self.requests@.skip(i as int) =~= cur.skip(i - 1).skip(1));
                    assert(orig.skip(j + 1) =~= orig.skip(j).skip(1));
                }
            }
            proof {
                j = j + 1;
            }
        }
        proof {
            assert(orig.skip(j).len() == 0);
            assert(orig.take(j) =~= orig);
            assert(self.requests@.take(i as int) =~= self.requests@);
        }
        let removed = self.requests.len() < len_before;
        if removed {
            self.updated_at = now();
        }
        removed
    }

    /// The top-level request ids, then those of each folder tree in order.
    pub fn all_request_ids(&self) -> (r: Vec<Id>)
        ensures
            r@ == self.requests@ + list_request_ids(self.folders@, self.folders@.len() as nat),
    {
        let mut ids = copy_ids(&self.requests);
        let mut i: usize = 0;
        while i < self.folders.len()
            invariant
                i <= self.folders@.len(),
                ids@ == self.requests@ + list_request_ids(self.folders@, i as nat),
            decreases self.folders@.len() - i,
        {
            let mut sub = self.folders[i].all_request_ids();
            ids.append(&mut sub);
            i = i + 1;
            assert(ids@ =~= self.requests@ + list_request_ids(self.folders@, i as nat));
        }
        ids
    }

    /// The first folder with id `folder_id` in the folder trees, depth-first.
    pub fn find_folder(&self, folder_id: Id) -> (r: Option<&Folder>)
        ensures
            match find_in_list(self.folders@, folder_id, 0) {
                Some(f) => r matches Some(x) && *x == f,
                None => r is None,
            },
    {
        let mut i: usize = 0;
        while i < self.folders.len()
            invariant
                i <= self.folders@.len(),
                find_in_list(self.folders@, folder_id, 0) == find_in_list(
                    self.folders@,
                    folder_id,
                    i as nat,
                ),
            decreases self.folders@.len() - i,
        {
            match self.folders[i].find_folder(folder_id) {
                Some(found) => {
                    return Some(found);
                },
                None => {},
            }
            i = i + 1;
        }
        None
    }

    /// Like `find_folder`, for changing the folder found.
    pub fn find_folder_mut(&mut self, folder_id: Id) -> (r: Option<&mut Folder>)
        ensures
            match find_in_list(old(self).folders@, folder_id, 0) {
                Some(f) => r matches Some(x) && *x == f,
                None => r is None,
            },
    {
        let n = self.folders.len();
        let mut i: usize = 0;
        while i < n
            invariant
                i <= n,
                n == self.folders@.len(),
                *self == *old(self),
                find_in_list(self.folders@, folder_id, 0) == find_in_list(
                    self.folders@,
                    folder_id,
                    i as nat,
                ),
            decreases n - i,
        {
            if self.folders[i].find_folder(folder_id).is_some() {
                return self.folders[i].find_folder_mut(folder_id);
            }
            i = i + 1;
        }
        None
    }

    pub fn is_synced(&self) -> (r: bool)
        ensures
            r == (self.sync_state.status == SyncStatus::Synced),
    {
        self.sync_state.status == SyncStatus::Synced
    }

    /// Pending changes are counted, or the status says so.
    pub fn has_pending_changes(&self) -> (r: bool)
        ensures
            r == (self.sync_state.pending_changes > 0 || self.sync_state.status
                == SyncStatus::Pending),
    {
        self.sync_state.pending_changes > 0 || self.sync_state.status == SyncStatus::Pending
    }

    /// The first enabled variable named `key`.
    pub fn get_variable(&self, key: &str) -> (r: Option<&Variable>)
        ensures
            match first_enabled_variable(self.variables@, key@) {
                Some(v) => r matches Some(x) && *x == v,
                None => r is None,
            },
    {
        let k = String::from_str(key);
        let mut i: usize = 0;
        assert(self.variables@.skip(0) =~= self.variables@);
        while i < self.variables.len()
            invariant
                i <= self.variables@.len(),
                k@ == key@,
                first_enabled_variable(self.variables@, key@) == first_enabled_variable(
                    self.variables@.skip(i as int),
                    key@,
                ),
            decreases self.variables@.len() - i,
        {
            let ghost rest = self.variables@.skip(i as int);
            assert(rest[0] == self.variables@[i as int]);
            assert(rest.drop_first() =~= self.variables@.skip(i + 1));
            if self.variables[i].enabled && self.variables[i].key == k {
                return Some(&self.variables[i]);
            }
            i = i + 1;
        }
        None
    }

    /// The enabled variables as a map: each key once, with the value of the
    /// last enabled variable of that name.
    pub fn enabled_variables_map(&self) -> (r: Vec<(String, String)>)
        ensures
            distinct_keys(pairs_view(r@)),
            forall|k: Seq<char>|
                pair_lookup(pairs_view(r@), k) == pair_lookup(
                    enabled_variable_pairs(self.variables@),
                    k,
                ),
    {
        let mut out: Vec<(String, String)> = Vec::new();
        let mut i: usize = 0;
        while i < self.variables.len()
            invariant
                i <= self.variables@.len(),
                pairs_view(out@) == enabled_variable_pairs(self.variables@.take(i as int)),
            decreases self.variables@.len() - i,
        {
            proof {
                assert(self.variables@.take(i + 1).drop_last() =~= self.variables@.take(i as int));
            }
            if self.variables[i].enabled {
                out.push((self.variables[i].key.clone(), self.variables[i].value.clone()));
            }
            i = i + 1;
            assert(pairs_view(out@) =~= enabled_variable_pairs(self.variables@.take(i as int)));
        }
        assert(self.variables@.take(i as int) =~= self.variables@);
        last_value_per_key(&out)
    }

    /// A copy under a new id, named "<name> (Copy)", with a fresh sync state.
    pub fn duplicate(&self) -> (r: Self)
        ensures
            r.name@ == self.name@ + " (Copy)"@,
            r.sync_state == SyncState::default_spec(),
    {
        let mut dup = self.clone();
        dup.id = new_id();
        dup.name = String::from_str(self.name.as_str()).concat(" (Copy)");
        dup.sync_state = SyncState::default();
        let t = now();
        dup.created_at = t;
        dup.updated_at = t;
        dup
    }

    pub fn mark_syncing(&mut self)
        ensures
            *final(self) == (Collection {
                sync_state: SyncState { status: SyncStatus::Syncing, ..old(self).sync_state },
                ..*old(self)
            }),
    {
        self.sync_state.status = SyncStatus::Syncing;
    }

    /// Records a successful sync as `version` of the remote item `remote_id`.
    pub fn mark_synced(&mut self, remote_id: Id, version: i64)
        ensures
            final(self).sync_state.status == SyncStatus::Synced,
            final(self).sync_state.last_synced_at is Some,
            final(self).sync_state.remote_id == Some(remote_id),
            final(self).sync_state.version == Some(version),
            final(self).sync_state.pending_changes == 0,
            *final(self) == (Collection { sync_state: final(self).sync_state, ..*old(self) }),
    {
        self.sync_state.status = SyncStatus::Synced;
        self.sync_state.last_synced_at = Some(now());
        self.sync_state.remote_id = Some(remote_id);
        self.sync_state.version = Some(version);
        self.sync_state.pending_changes = 0;
    }

    pub fn mark_sync_failed(&mut self)
        ensures
            *final(self) == (Collection {
                sync_state: SyncState { status: SyncStatus::Failed, ..old(self).sync_state },
                ..*old(self)
            }),
    {
        self.sync_state.status = SyncStatus::Failed;
    }

    /// Counts one more pending change (saturating) and, unless a sync is
    /// running, marks the collection pending.
    pub fn increment_pending_changes(&mut self)
        ensures
            final(self).sync_state.pending_changes == if old(self).sync_state.pending_changes
                < usize::MAX {
                old(self).sync_state.pending_changes + 1
            } else {
                usize::MAX as int
            },
            final(self).sync_state.status == if old(self).sync_state.status == SyncStatus::Syncing {
                SyncStatus::Syncing
            } else {
                SyncStatus::Pending
            },
            *final(self) == (Collection { sync_state: final(self).sync_state, ..*old(self) }),
    {
        if self.sync_state.pending_changes < usize::MAX {
            self.sync_state.pending_changes = self.sync_state.pending_changes + 1;
        }
        if self.sync_state.status != SyncStatus::Syncing {
            self.sync_state.status = SyncStatus::Pending;
        }
    }
}

impl Temporal for Collection {
    fn created_at(&self) -> Timestamp {
        self.created_at
    }

    fn updated_at(&self) -> Timestamp {
        self.updated_at
    }
}

impl Identifiable for Collection {
    fn id(&self) -> Id {
        self.id
    }
}

impl Temporal for Folder {
    fn created_at(&self) -> Timestamp {
        self.created_at
    }

    fn updated_at(&self) -> Timestamp {
        self.updated_at
    }
}

impl Identifiable for Folder {
    fn id(&self) -> Id {
        self.id
    }
}

} // verus!
