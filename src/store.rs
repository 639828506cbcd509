//! The config store engine: one operation per mutation of the document.
//!
//! Lookups along the parent chain fail with a [`StoreError`]; removing an
//! entity that is not there succeeds and leaves the document unchanged.

use vstd::prelude::*;
use crate::ident::{is_generated_id, new_id};
use crate::keyed::{Keyed, find_index, keys_of, remove_key};
use vstd::seq_lib::lemma_filter_view_commute;
use crate::model::{
    CallistoConfig, Collection, CollectionModel, ConfigModel, Environment, EnvironmentModel,
    Request, RequestModel, Variable, VariableModel, Workspace, WorkspaceModel, collection_ids,
    environment_ids, first_index, lemma_filter_keeps_all, lemma_first_index_none, request_ids,
    workspace_ids,
};

verus! {

/// A required ancestor or target of an operation was not found.
#[derive(Debug, Clone, Copy, PartialEq, Eq, Structural)]
pub enum StoreError {
    WorkspaceNotFound,
    CollectionNotFound,
    RequestNotFound,
    EnvironmentNotFound,
}

/// The message that goes with each error.
pub open spec fn error_text(e: StoreError) -> Seq<char> {
    match e {
        StoreError::WorkspaceNotFound => "Workspace not found"@,
        StoreError::CollectionNotFound => "Collection not found"@,
        StoreError::RequestNotFound => "Request not found"@,
        StoreError::EnvironmentNotFound => "Environment not found"@,
    }
}

impl StoreError {
    /// The human-readable description of the error.
    pub fn message(&self) -> (r: String)
        ensures
            r@ == error_text(*self),
    {
        match self {
            StoreError::WorkspaceNotFound => "Workspace not found".to_string(),
            StoreError::CollectionNotFound => "Collection not found".to_string(),
            StoreError::RequestNotFound => "Request not found".to_string(),
            StoreError::EnvironmentNotFound => "Environment not found".to_string(),
        }
    }
}

/// Variables seen as models.
pub open spec fn variables_view(vs: Seq<Variable>) -> Seq<VariableModel> {
    vs.map_values(|v: Variable| v@)
}

/// Position of the workspace `wid` in the document, or -1.
pub open spec fn workspace_index(c: ConfigModel, wid: Seq<char>) -> int {
    first_index(workspace_ids(c.workspaces), wid)
}

/// Position of the collection `cid` in the workspace, or -1.
pub open spec fn collection_index(w: WorkspaceModel, cid: Seq<char>) -> int {
    first_index(collection_ids(w.collections), cid)
}

/// Position of the request `rid` in the collection, or -1.
pub open spec fn request_index(col: CollectionModel, rid: Seq<char>) -> int {
    first_index(request_ids(col.requests), rid)
}

/// Position of the environment `eid` in the document, or -1.
pub open spec fn environment_index(c: ConfigModel, eid: Seq<char>) -> int {
    first_index(environment_ids(c.environments), eid)
}

/// The document with its workspace at `wi` replaced by `w`.
pub open spec fn with_workspace(c: ConfigModel, wi: int, w: WorkspaceModel) -> ConfigModel {
    ConfigModel { workspaces: c.workspaces.update(wi, w), ..c }
}

/// The document with the collection at `ci` of the workspace at `wi` replaced by `col`.
pub open spec fn with_collection(
    c: ConfigModel,
    wi: int,
    ci: int,
    col: CollectionModel,
) -> ConfigModel {
    let w = c.workspaces[wi];
    with_workspace(c, wi, WorkspaceModel { collections: w.collections.update(ci, col), ..w })
}

/// The document with a new, empty workspace at the end.
pub open spec fn added_workspace(c: ConfigModel, id: Seq<char>, name: Seq<char>) -> ConfigModel {
    ConfigModel {
        workspaces: c.workspaces.push(
            WorkspaceModel { id: id, name: name, collections: Seq::empty() },
        ),
        ..c
    }
}

/// The document with a new, empty collection at the end of the workspace at `wi`.
pub open spec fn added_collection(
    c: ConfigModel,
    wi: int,
    id: Seq<char>,
    name: Seq<char>,
) -> ConfigModel {
    let w = c.workspaces[wi];
    let col = CollectionModel { id: id, name: name, requests: Seq::empty() };
    with_workspace(c, wi, WorkspaceModel { collections: w.collections.push(col), ..w })
}

/// The document with the collection at `ci` of the workspace at `wi` renamed.
pub open spec fn renamed_collection(c: ConfigModel, wi: int, ci: int, name: Seq<char>) -> ConfigModel {
    let col = c.workspaces[wi].collections[ci];
    with_collection(c, wi, ci, CollectionModel { name: name, ..col })
}

/// The document with `r` at the end of the collection at `ci` of the workspace at `wi`.
pub open spec fn added_request(c: ConfigModel, wi: int, ci: int, r: RequestModel) -> ConfigModel {
    let col = c.workspaces[wi].collections[ci];
    with_collection(c, wi, ci, CollectionModel { requests: col.requests.push(r), ..col })
}

/// The request at `ri` takes the fields of `r`, all but its identifier.
pub open spec fn updated_request(
    c: ConfigModel,
    wi: int,
    ci: int,
    ri: int,
    r: RequestModel,
) -> ConfigModel {
    let col = c.workspaces[wi].collections[ci];
    let old_r = col.requests[ri];
    let new_r = RequestModel { id: old_r.id, ..r };
    with_collection(c, wi, ci, CollectionModel { requests: col.requests.update(ri, new_r), ..col })
}

/// The document without the workspaces whose identifier is `wid`.
pub open spec fn removed_workspace(c: ConfigModel, wid: Seq<char>) -> ConfigModel {
    ConfigModel { workspaces: c.workspaces.filter(|w: WorkspaceModel| w.id != wid), ..c }
}

/// The document without the collections `cid` of the workspace at `wi`.
pub open spec fn removed_collection(c: ConfigModel, wi: int, cid: Seq<char>) -> ConfigModel {
    let w = c.workspaces[wi];
    with_workspace(
        c,
        wi,
        WorkspaceModel {
            collections: w.collections.filter(|col: CollectionModel| col.id != cid),
            ..w
        },
    )
}

/// The document without the requests `rid` of the collection at `ci` of the workspace at `wi`.
pub open spec fn removed_request(c: ConfigModel, wi: int, ci: int, rid: Seq<char>) -> ConfigModel {
    let col = c.workspaces[wi].collections[ci];
    with_collection(
        c,
        wi,
        ci,
        CollectionModel { requests: col.requests.filter(|r: RequestModel| r.id != rid), ..col },
    )
}

/// The document with a new environment at the end.
pub open spec fn added_environment(
    c: ConfigModel,
    id: Seq<char>,
    name: Seq<char>,
    vars: Seq<VariableModel>,
) -> ConfigModel {
    ConfigModel {
        environments: c.environments.push(
            EnvironmentModel { id: id, name: name, variables: vars },
        ),
        ..c
    }
}

/// The document with the name and variables of the environment at `ei` replaced.
pub open spec fn updated_environment(
    c: ConfigModel,
    ei: int,
    name: Seq<char>,
    vars: Seq<VariableModel>,
) -> ConfigModel {
    let e = c.environments[ei];
    ConfigModel {
        environments: c.environments.update(
            ei,
            EnvironmentModel { id: e.id, name: name, variables: vars },
        ),
        ..c
    }
}

/// The document without the environments whose identifier is `eid`.
pub open spec fn removed_environment(c: ConfigModel, eid: Seq<char>) -> ConfigModel {
    ConfigModel { environments: c.environments.filter(|e: EnvironmentModel| e.id != eid), ..c }
}

/// An empty document of the current version.
pub fn empty_config() -> (r: CallistoConfig)
    ensures
        r@.version == "1.0"@,
        r@.workspaces.len() == 0,
        r@.environments.len() == 0,
{
    let r = CallistoConfig {
        version: "1.0".to_string(),
        workspaces: Vec::new(),
        environments: Vec::new(),
    };
    proof {
        assert(r@.workspaces =~= Seq::empty());
        assert(r@.environments =~= Seq::empty());
    }
    r
}

/// Appends a workspace with the given identifier and no collections.
pub fn add_workspace_with_id(config: CallistoConfig, id: String, name: String) -> (r:
    CallistoConfig)
    ensures
        r@ == added_workspace(config@, id@, name@),
{
    let mut config = config;
    let ghost old_c = config@;
    let w = Workspace { id, name, collections: Vec::new() };
    proof {
        assert(w@.collections =~= Seq::<CollectionModel>::empty());
    }
    config.workspaces.push(w);
    proof {
        assert(config@.workspaces =~= old_c.workspaces.push(w@));
    }
    config
}

/// Appends a workspace with a fresh identifier and no collections.
pub fn add_workspace(config: CallistoConfig, name: String) -> (r: CallistoConfig)
    ensures
        exists|id: Seq<char>| is_generated_id(id) && r@ == added_workspace(config@, id, name@),
{
    let id = new_id();
    let ghost idv = id@;
    let r = add_workspace_with_id(config, id, name);
    assert(is_generated_id(idv) && r@ == added_workspace(config@, idv, name@));
    r
}

/// Appends a collection with the given identifier to the workspace `workspace_id`.
pub fn create_collection_with_id(
    config: CallistoConfig,
    workspace_id: &String,
    id: String,
    name: String,
) -> (r: Result<CallistoConfig, StoreError>)
    ensures
        match r {
            Ok(c) => workspace_index(config@, workspace_id@) >= 0 && c@ == added_collection(
                config@,
                workspace_index(config@, workspace_id@),
                id@,
                name@,
            ),
            Err(e) => workspace_index(config@, workspace_id@) == -1 && e
                == StoreError::WorkspaceNotFound,
        },
{
    let mut config = config;
    let ghost old_c = config@;
    proof {
        assert(keys_of(config.workspaces@) =~= workspace_ids(old_c.workspaces));
    }
    let wi = match find_index(&config.workspaces, workspace_id) {
        Some(i) => i,
        None => return Err(StoreError::WorkspaceNotFound),
    };
    let col = Collection { id, name, requests: Vec::new() };
    proof {
        assert(col@.requests =~= Seq::<RequestModel>::empty());
    }
    let ghost old_w = config.workspaces@[wi as int];
    config.workspaces[wi].collections.push(col);
    proof {
        let new_w = config.workspaces@[wi as int];
        assert(new_w@.collections =~= old_w@.collections.push(col@));
        assert(config@.workspaces =~= old_c.workspaces.update(
            wi as int,
            WorkspaceModel { collections: old_w@.collections.push(col@), ..old_w@ },
        ));
    }
    Ok(config)
}

/// Removes every workspace whose identifier is `workspace_id`; removing an
/// absent workspace leaves the document unchanged.
pub fn delete_workspace(config: CallistoConfig, workspace_id: &String) -> (r: CallistoConfig)
    ensures
        r@ == removed_workspace(config@, workspace_id@),
        workspace_index(config@, workspace_id@) == -1 ==> r@ == config@,
{
    let ghost old_c = config@;
    let ghost old_ws = config.workspaces@;
    let CallistoConfig { version, workspaces, environments } = config;
    let kept = remove_key(workspaces, workspace_id);
    proof {
        let p = |x: Workspace| x.key_view() != workspace_id@;
        let sp = |w: WorkspaceModel| w.id != workspace_id@;
        lemma_filter_view_commute(old_ws, p, sp);
        assert(kept@.map_values(|w: Workspace| w@) =~= old_ws.filter(p).map_values(
            |x: Workspace| x.view(),
        ));
        if workspace_index(old_c, workspace_id@) == -1 {
            lemma_first_index_none(workspace_ids(old_c.workspaces), workspace_id@);
            assert forall|i: int| 0 <= i < old_c.workspaces.len() implies sp(
                old_c.workspaces[i],
            ) by {
                assert(workspace_ids(old_c.workspaces)[i] == old_c.workspaces[i].id);
            }
            lemma_filter_keeps_all(old_c.workspaces, sp);
        }
    }
    CallistoConfig { version, workspaces: kept, environments }
}

/// Looks up the workspace `workspace_id`, then its collection `collection_id`.
fn locate_collection(config: &CallistoConfig, workspace_id: &String, collection_id: &String) -> (r:
    Result<(usize, usize), StoreError>)
    ensures
        ({
            let wi = workspace_index(config@, workspace_id@);
            match r {
                Ok((i, j)) => wi >= 0 && i == wi && i < config.workspaces@.len() && j
                    == collection_index(config@.workspaces[wi], collection_id@) && j
                    < config.workspaces@[wi].collections@.len(),
                Err(e) => (wi == -1 && e == StoreError::WorkspaceNotFound) || (wi >= 0
                    && collection_index(config@.workspaces[wi], collection_id@) == -1 && e
                    == StoreError::CollectionNotFound),
            }
        }),
{
    proof {
        assert(keys_of(config.workspaces@) =~= workspace_ids(config@.workspaces));
    }
    let wi = match find_index(&config.workspaces, workspace_id) {
        Some(i) => i,
        None => return Err(StoreError::WorkspaceNotFound),
    };
    let w = &config.workspaces[wi];
    proof {
        assert(keys_of(w.collections@) =~= collection_ids(w@.collections));
    }
    match find_index(&w.collections, collection_id) {
        Some(j) => Ok((wi, j)),
        None => Err(StoreError::CollectionNotFound),
    }
}

/// Renames the collection `collection_id` of the workspace `workspace_id`.
pub fn rename_collection(
    config: CallistoConfig,
    workspace_id: &String,
    collection_id: &String,
    new_name: String,
) -> (r: Result<CallistoConfig, StoreError>)
    ensures
        ({
            let wi = workspace_index(config@, workspace_id@);
            let ci = collection_index(config@.workspaces[wi], collection_id@);
            match r {
                Ok(c) => wi >= 0 && ci >= 0 && c@ == renamed_collection(config@, wi, ci, new_name@),
                Err(e) => (wi == -1 && e == StoreError::WorkspaceNotFound) || (wi >= 0 && ci == -1
                    && e == StoreError::CollectionNotFound),
            }
        }),
{
    let mut config = config;
    let ghost old_c = config@;
    let (wi, ci) = match locate_collection(&config, workspace_id, collection_id) {
        Ok(p) => p,
        Err(e) => return Err(e),
    };
    let ghost old_w = config.workspaces@[wi as int];
    let ghost old_col = old_w.collections@[ci as int];
    config.workspaces[wi].collections[ci].name = new_name;
    proof {
        let new_w = config.workspaces@[wi as int];
        let new_col = new_w.collections@[ci as int];
        assert(new_col@.requests =~= old_col@.requests);
        assert(new_w@.collections =~= old_w@.collections.update(
            ci as int,
            CollectionModel { name: new_name@, ..old_col@ },
        ));
        assert(config@.workspaces =~= renamed_collection(
            old_c,
            wi as int,
            ci as int,
            new_name@,
        ).workspaces);
    }
    Ok(config)
}

/// Appends `request` to the collection `collection_id` of the workspace
/// `workspace_id`.
pub fn create_request_with(
    config: CallistoConfig,
    workspace_id: &String,
    collection_id: &String,
    request: Request,
) -> (r: Result<CallistoConfig, StoreError>)
    ensures
        ({
            let wi = workspace_index(config@, workspace_id@);
            let ci = collection_index(config@.workspaces[wi], collection_id@);
            match r {
                Ok(c) => wi >= 0 && ci >= 0 && c@ == added_request(config@, wi, ci, request@),
                Err(e) => (wi == -1 && e == StoreError::WorkspaceNotFound) || (wi >= 0 && ci == -1
                    && e == StoreError::CollectionNotFound),
            }
        }),
{
    let mut config = config;
    let ghost old_c = config@;
    let (wi, ci) = match locate_collection(&config, workspace_id, collection_id) {
        Ok(p) => p,
        Err(e) => return Err(e),
    };
    let ghost old_w = config.workspaces@[wi as int];
    let ghost old_col = old_w.collections@[ci as int];
    let ghost rv = request@;
    config.workspaces[wi].collections[ci].requests.push(request);
    proof {
        let new_w = config.workspaces@[wi as int];
        let new_col = new_w.collections@[ci as int];
        assert(new_col@.requests =~= old_col@.requests.push(rv));
        assert(new_w@.collections =~= old_w@.collections.update(
            ci as int,
            CollectionModel { requests: old_col@.requests.push(rv), ..old_col@ },
        ));
        assert(config@.workspaces =~= added_request(old_c, wi as int, ci as int, rv).workspaces);
    }
    Ok(config)
}

/// Appends a request with a fresh identifier to the collection
/// `collection_id` of the workspace `workspace_id`.
pub fn create_request(
    config: CallistoConfig,
    workspace_id: &String,
    collection_id: &String,
    request_name: String,
    request_type: String,
    method: String,
    curl: String,
) -> (r: Result<CallistoConfig, StoreError>)
    ensures
        ({
            let wi = workspace_index(config@, workspace_id@);
            let ci = collection_index(config@.workspaces[wi], collection_id@);
            match r {
                Ok(c) => wi >= 0 && ci >= 0 && exists|id: Seq<char>|
                    is_generated_id(id) && c@ == added_request(
                        config@,
                        wi,
                        ci,
                        RequestModel {
                            id: id,
                            name: request_name@,
                            req_type: request_type@,
                            method: method@,
                            curl: curl@,
                        },
                    ),
                Err(e) => (wi == -1 && e == StoreError::WorkspaceNotFound) || (wi >= 0 && ci == -1
                    && e == StoreError::CollectionNotFound),
            }
        }),
{
    let id = new_id();
    let request = Request { id, name: request_name, req_type: request_type, method, curl };
    let ghost rv = request@;
    let r = create_request_with(config, workspace_id, collection_id, request);
    proof {
        if r is Ok {
            assert(is_generated_id(rv.id));
        }
    }
    r
}

/// Replaces every field but the identifier of the request `request_id` in the
/// collection `collection_id` of the workspace `workspace_id`.
pub fn update_request(
    config: CallistoConfig,
    workspace_id: &String,
    collection_id: &String,
    request_id: &String,
    request_name: String,
    request_type: String,
    method: String,
    curl: String,
) -> (r: Result<CallistoConfig, StoreError>)
    ensures
        ({
            let wi = workspace_index(config@, workspace_id@);
            let col = config@.workspaces[wi].collections[collection_index(
                config@.workspaces[wi],
                collection_id@,
            )];
            let ci = collection_index(config@.workspaces[wi], collection_id@);
            let ri = request_index(col, request_id@);
            match r {
                Ok(c) => wi >= 0 && ci >= 0 && ri >= 0 && c@ == updated_request(
                    config@,
                    wi,
                    ci,
                    ri,
                    RequestModel {
                        id: request_id@,
                        name: request_name@,
                        req_type: request_type@,
                        method: method@,
                        curl: curl@,
                    },
                ),
                Err(e) => (wi == -1 && e == StoreError::WorkspaceNotFound) || (wi >= 0 && ci == -1
                    && e == StoreError::CollectionNotFound) || (wi >= 0 && ci >= 0 && ri == -1 && e
                    == StoreError::RequestNotFound),
            }
        }),
{
    let mut config = config;
    let ghost old_c = config@;
    let (wi, ci) = match locate_collection(&config, workspace_id, collection_id) {
        Ok(p) => p,
        Err(e) => return Err(e),
    };
    let ghost old_w = config.workspaces@[wi as int];
    let ghost old_col = old_w.collections@[ci as int];
    proof {
        assert(keys_of(old_col.requests@) =~= request_ids(old_col@.requests));
    }
    let ri = match find_index(&config.workspaces[wi].collections[ci].requests, request_id) {
        Some(k) => k,
        None => return Err(StoreError::RequestNotFound),
    };
    let ghost old_r = old_col.requests@[ri as int];
    let req = &mut config.workspaces[wi].collections[ci].requests[ri];
    req.name = request_name;
    req.req_type = request_type;
    req.method = method;
    req.curl = curl;
    proof {
        let new_w = config.workspaces@[wi as int];
        let new_col = new_w.collections@[ci as int];
        let new_r = new_col.requests@[ri as int];
        assert(new_r.id == old_r.id);
        assert(new_col@.requests =~= old_col@.requests.update(ri as int, new_r@));
        assert(new_w@.collections =~= old_w@.collections.update(ci as int, new_col@));
        assert(config@.workspaces =~= updated_request(
            old_c,
            wi as int,
            ci as int,
            ri as int,
            new_r@,
        ).workspaces);
    }
    Ok(config)
}

/// Appends a collection with a fresh identifier to the workspace `workspace_id`.
pub fn create_collection(
    config: CallistoConfig,
    workspace_id: &String,
    collection_name: String,
) -> (r: Result<CallistoConfig, StoreError>)
    ensures
        match r {
            Ok(c) => workspace_index(config@, workspace_id@) >= 0 && exists|id: Seq<char>|
                is_generated_id(id) && c@ == added_collection(
                    config@,
                    workspace_index(config@, workspace_id@),
                    id,
                    collection_name@,
                ),
            Err(e) => workspace_index(config@, workspace_id@) == -1 && e
                == StoreError::WorkspaceNotFound,
        },
{
    let id = new_id();
    let ghost idv = id@;
    let r = create_collection_with_id(config, workspace_id, id, collection_name);
    proof {
        if r is Ok {
            assert(is_generated_id(idv));
        }
    }
    r
}

/// Removes every collection `collection_id` of the workspace `workspace_id`;
/// removing an absent collection leaves the document unchanged.
pub fn delete_collection(config: CallistoConfig, workspace_id: &String, collection_id: &String) -> (r:
    Result<CallistoConfig, StoreError>)
    ensures
        ({
            let wi = workspace_index(config@, workspace_id@);
            match r {
                Ok(c) => wi >= 0 && c@ == removed_collection(config@, wi, collection_id@) && (
                collection_index(config@.workspaces[wi], collection_id@) == -1 ==> c@ == config@),
                Err(e) => wi == -1 && e == StoreError::WorkspaceNotFound,
            }
        }),
{
    let mut config = config;
    let ghost old_c = config@;
    proof {
        assert(keys_of(config.workspaces@) =~= workspace_ids(old_c.workspaces));
    }
    let wi = match find_index(&config.workspaces, workspace_id) {
        Some(i) => i,
        None => return Err(StoreError::WorkspaceNotFound),
    };
    let ghost old_w = config.workspaces@[wi as int];
    let ghost old_cols = old_w.collections@;
    let mut cols: Vec<Collection> = Vec::new();
    std::mem::swap(&mut config.workspaces[wi].collections, &mut cols);
    let kept = remove_key(cols, collection_id);
    let ghost kept_v = kept@;
    config.workspaces[wi].collections = kept;
    proof {
        let p = |x: Collection| x.key_view() != collection_id@;
        let sp = |c: CollectionModel| c.id != collection_id@;
        lemma_filter_view_commute(old_cols, p, sp);
        let new_w = config.workspaces@[wi as int];
        assert(new_w@.collections =~= old_w@.collections.filter(sp));
        assert(config@.workspaces =~= removed_collection(
            old_c,
            wi as int,
            collection_id@,
        ).workspaces);
        if collection_index(old_w@, collection_id@) == -1 {
            lemma_first_index_none(collection_ids(old_w@.collections), collection_id@);
            assert forall|i: int| 0 <= i < old_w@.collections.len() implies sp(
                old_w@.collections[i],
            ) by {
                assert(collection_ids(old_w@.collections)[i] == old_w@.collections[i].id);
            }
            lemma_filter_keeps_all(old_w@.collections, sp);
            assert(config@.workspaces =~= old_c.workspaces);
        }
    }
    Ok(config)
}

/// Removes every request `request_id` of the collection `collection_id` of
/// the workspace `workspace_id`; removing an absent request leaves the
/// document unchanged.
pub fn delete_request(
    config: CallistoConfig,
    workspace_id: &String,
    collection_id: &String,
    request_id: &String,
) -> (r: Result<CallistoConfig, StoreError>)
    ensures
        ({
            let wi = workspace_index(config@, workspace_id@);
            let ci = collection_index(config@.workspaces[wi], collection_id@);
            match r {
                Ok(c) => wi >= 0 && ci >= 0 && c@ == removed_request(config@, wi, ci, request_id@)
                    && (request_index(config@.workspaces[wi].collections[ci], request_id@) == -1
                    ==> c@ == config@),
                Err(e) => (wi == -1 && e == StoreError::WorkspaceNotFound) || (wi >= 0 && ci == -1
                    && e == StoreError::CollectionNotFound),
            }
        }),
{
    let mut config = config;
    let ghost old_c = config@;
    let (wi, ci) = match locate_collection(&config, workspace_id, collection_id) {
        Ok(p) => p,
        Err(e) => return Err(e),
    };
    let ghost old_w = config.workspaces@[wi as int];
    let ghost old_col = old_w.collections@[ci as int];
    let ghost old_reqs = old_col.requests@;
    let mut reqs: Vec<Request> = Vec::new();
    std::mem::swap(&mut config.workspaces[wi].collections[ci].requests, &mut reqs);
    let kept = remove_key(reqs, request_id);
    config.workspaces[wi].collections[ci].requests = kept;
    proof {
        let p = |x: Request| x.key_view() != request_id@;
        let sp = |r: RequestModel| r.id != request_id@;
        lemma_filter_view_commute(old_reqs, p, sp);
        let new_w = config.workspaces@[wi as int];
        let new_col = new_w.collections@[ci as int];
        assert(new_col@.requests =~= old_col@.requests.filter(sp));
        assert(new_w@.collections =~= old_w@.collections.update(ci as int, new_col@));
        assert(config@.workspaces =~= removed_request(
            old_c,
            wi as int,
            ci as int,
            request_id@,
        ).workspaces);
        if request_index(old_col@, request_id@) == -1 {
            lemma_first_index_none(request_ids(old_col@.requests), request_id@);
            assert forall|i: int| 0 <= i < old_col@.requests.len() implies sp(
                old_col@.requests[i],
            ) by {
                assert(request_ids(old_col@.requests)[i] == old_col@.requests[i].id);
            }
            lemma_filter_keeps_all(old_col@.requests, sp);
            assert(new_col@ == old_col@);
            assert(new_w@.collections =~= old_w@.collections);
            assert(config@.workspaces =~= old_c.workspaces);
        }
    }
    Ok(config)
}

/// Appends an environment with the given identifier.
pub fn create_environment_with_id(
    config: CallistoConfig,
    id: String,
    name: String,
    variables: Vec<Variable>,
) -> (r: CallistoConfig)
    ensures
        r@ == added_environment(config@, id@, name@, variables_view(variables@)),
{
    let mut config = config;
    let ghost old_c = config@;
    let e = Environment { id, name, variables };
    config.environments.push(e);
    proof {
        assert(config@.environments =~= old_c.environments.push(e@));
    }
    config
}

/// Appends an environment with a fresh identifier.
pub fn create_environment(config: CallistoConfig, name: String, variables: Vec<Variable>) -> (r:
    CallistoConfig)
    ensures
        exists|id: Seq<char>|
            is_generated_id(id) && r@ == added_environment(
                config@,
                id,
                name@,
                variables_view(variables@),
            ),
{
    let id = new_id();
    let ghost idv = id@;
    let r = create_environment_with_id(config, id, name, variables);
    assert(is_generated_id(idv));
    r
}

/// Replaces the name and the whole variable list of the environment
/// `environment_id`.
pub fn update_environment(
    config: CallistoConfig,
    environment_id: &String,
    name: String,
    variables: Vec<Variable>,
) -> (r: Result<CallistoConfig, StoreError>)
    ensures
        ({
            let ei = environment_index(config@, environment_id@);
            match r {
                Ok(c) => ei >= 0 && c@ == updated_environment(
                    config@,
                    ei,
                    name@,
                    variables_view(variables@),
                ),
                Err(e) => ei == -1 && e == StoreError::EnvironmentNotFound,
            }
        }),
{
    let mut config = config;
    let ghost old_c = config@;
    proof {
        assert(keys_of(config.environments@) =~= environment_ids(old_c.environments));
    }
    let ei = match find_index(&config.environments, environment_id) {
        Some(i) => i,
        None => return Err(StoreError::EnvironmentNotFound),
    };
    let ghost vars = variables_view(variables@);
    let env = &mut config.environments[ei];
    env.name = name;
    env.variables = variables;
    proof {
        assert(config@.environments =~= updated_environment(
            old_c,
            ei as int,
            name@,
            vars,
        ).environments);
    }
    Ok(config)
}

/// Removes every environment `environment_id`; removing an absent
/// environment leaves the document unchanged.
pub fn delete_environment(config: CallistoConfig, environment_id: &String) -> (r: CallistoConfig)
    ensures
        r@ == removed_environment(config@, environment_id@),
        environment_index(config@, environment_id@) == -1 ==> r@ == config@,
{
    let ghost old_c = config@;
    let ghost old_es = config.environments@;
    let CallistoConfig { version, workspaces, environments } = config;
    let kept = remove_key(environments, environment_id);
    proof {
        let p = |x: Environment| x.key_view() != environment_id@;
        let sp = |e: EnvironmentModel| e.id != environment_id@;
        lemma_filter_view_commute(old_es, p, sp);
        assert(kept@.map_values(|e: Environment| e@) =~= old_es.filter(p).map_values(
            |x: Environment| x.view(),
        ));
        if environment_index(old_c, environment_id@) == -1 {
            lemma_first_index_none(environment_ids(old_c.environments), environment_id@);
            assert forall|i: int| 0 <= i < old_c.environments.len() implies sp(
                old_c.environments[i],
            ) by {
                assert(environment_ids(old_c.environments)[i] == old_c.environments[i].id);
            }
            lemma_filter_keeps_all(old_c.environments, sp);
        }
    }
    CallistoConfig { version, workspaces, environments: kept }
}

} // verus!
