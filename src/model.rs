//! The entity model: the persisted document and the entities it owns, each
//! with a mathematical view over sequences of characters.

use vstd::prelude::*;
use vstd::std_specs::cmp::{PartialEqSpec, PartialEqSpecImpl};

verus! {

/// A key/value pair of an environment.
#[derive(Debug, Clone, Eq)]
pub struct Variable {
    pub key: String,
    pub value: String,
}

/// A stored request definition.
#[derive(Debug, Clone, Eq)]
pub struct Request {
    pub id: String,
    pub name: String,
    pub req_type: String,
    pub method: String,
    pub curl: String,
}

/// A named group of requests.
#[derive(Debug, Clone, Eq)]
pub struct Collection {
    pub id: String,
    pub name: String,
    pub requests: Vec<Request>,
}

/// A named group of collections.
#[derive(Debug, Clone, Eq)]
pub struct Workspace {
    pub id: String,
    pub name: String,
    pub collections: Vec<Collection>,
}

/// A named set of variables.
#[derive(Debug, Clone, Eq)]
pub struct Environment {
    pub id: String,
    pub name: String,
    pub variables: Vec<Variable>,
}

/// The whole persisted document.
#[derive(Debug, Clone, Eq)]
pub struct CallistoConfig {
    pub version: String,
    pub workspaces: Vec<Workspace>,
    pub environments: Vec<Environment>,
}

/// The value of a [`Variable`].
pub struct VariableModel {
    pub key: Seq<char>,
    pub value: Seq<char>,
}

/// The value of a [`Request`].
pub struct RequestModel {
    pub id: Seq<char>,
    pub name: Seq<char>,
    pub req_type: Seq<char>,
    pub method: Seq<char>,
    pub curl: Seq<char>,
}

/// The value of a [`Collection`], with its requests.
pub struct CollectionModel {
    pub id: Seq<char>,
    pub name: Seq<char>,
    pub requests: Seq<RequestModel>,
}

/// The value of a [`Workspace`], with its collections.
pub struct WorkspaceModel {
    pub id: Seq<char>,
    pub name: Seq<char>,
    pub collections: Seq<CollectionModel>,
}

/// The value of an [`Environment`], with its variables.
pub struct EnvironmentModel {
    pub id: Seq<char>,
    pub name: Seq<char>,
    pub variables: Seq<VariableModel>,
}

/// The value of a whole [`CallistoConfig`].
pub struct ConfigModel {
    pub version: Seq<char>,
    pub workspaces: Seq<WorkspaceModel>,
    pub environments: Seq<EnvironmentModel>,
}

impl View for Variable {
    type V = VariableModel;

    open spec fn view(&self) -> VariableModel {
        VariableModel { key: self.key@, value: self.value@ }
    }
}

impl View for Request {
    type V = RequestModel;

    open spec fn view(&self) -> RequestModel {
        RequestModel {
            id: self.id@,
            name: self.name@,
            req_type: self.req_type@,
            method: self.method@,
            curl: self.curl@,
        }
    }
}

impl View for Collection {
    type V = CollectionModel;

    open spec fn view(&self) -> CollectionModel {
        CollectionModel {
            id: self.id@,
            name: self.name@,
            requests: self.requests@.map_values(|r: Request| r@),
        }
    }
}

impl View for Workspace {
    type V = WorkspaceModel;

    open spec fn view(&self) -> WorkspaceModel {
        WorkspaceModel {
            id: self.id@,
            name: self.name@,
            collections: self.collections@.map_values(|c: Collection| c@),
        }
    }
}

impl View for Environment {
    type V = EnvironmentModel;

    open spec fn view(&self) -> EnvironmentModel {
        EnvironmentModel {
            id: self.id@,
            name: self.name@,
            variables: self.variables@.map_values(|v: Variable| v@),
        }
    }
}

impl View for CallistoConfig {
    type V = ConfigModel;

    open spec fn view(&self) -> ConfigModel {
        ConfigModel {
            version: self.version@,
            workspaces: self.workspaces@.map_values(|w: Workspace| w@),
            environments: self.environments@.map_values(|e: Environment| e@),
        }
    }
}

/// Element-wise equality of two vectors whose elements compare by view.
fn vec_eq<T: PartialEq + View>(a: &Vec<T>, b: &Vec<T>) -> (r: bool)
    requires
        T::obeys_eq_spec(),
        forall|x: T, y: T| #[trigger] x.eq_spec(&y) <==> x@ == y@,
    ensures
        r == (a@.map_values(|x: T| x@) == b@.map_values(|x: T| x@)),
{
    if a.len() != b.len() {
        proof {
            assert(a@.map_values(|x: T| x@).len() != b@.map_values(|x: T| x@).len());
        }
        return false;
    }
    let mut i: usize = 0;
    while i < a.len()
        invariant
            a@.len() == b@.len(),
            i <= a@.len(),
            T::obeys_eq_spec(),
            forall|x: T, y: T| #[trigger] x.eq_spec(&y) <==> x@ == y@,
            forall|j: int| 0 <= j < i ==> a@[j]@ == b@[j]@,
        decreases a@.len() - i,
    {
        if !(a[i] == b[i]) {
            proof {
                assert(a@.map_values(|x: T| x@)[i as int] != b@.map_values(|x: T| x@)[i as int]);
            }
            return false;
        }
        i = i + 1;
    }
    proof {
        assert(a@.map_values(|x: T| x@) =~= b@.map_values(|x: T| x@));
    }
    true
}
impl PartialEq for Variable {
    fn eq(&self, o: &Variable) -> (r: bool)
        ensures
            r == (self@ == o@),
    {
        self.key == o.key && self.value == o.value
    }
}

impl PartialEqSpecImpl for Variable {
    open spec fn obeys_eq_spec() -> bool {
        true
    }

    open spec fn eq_spec(&self, o: &Variable) -> bool {
        self@ == o@
    }
}

impl PartialEq for Request {
    fn eq(&self, o: &Request) -> (r: bool)
        ensures
            r == (self@ == o@),
    {
        self.id == o.id && self.name == o.name && self.req_type == o.req_type && self.method
            == o.method && self.curl == o.curl
    }
}

impl PartialEqSpecImpl for Request {
    open spec fn obeys_eq_spec() -> bool {
        true
    }

    open spec fn eq_spec(&self, o: &Request) -> bool {
        self@ == o@
    }
}

impl PartialEq for Collection {
    fn eq(&self, o: &Collection) -> (r: bool)
        ensures
            r == (self@ == o@),
    {
        proof {
            assert(self@.requests =~= self.requests@.map_values(|x: Request| x@));
            assert(o@.requests =~= o.requests@.map_values(|x: Request| x@));
        }
        self.id == o.id && self.name == o.name && vec_eq(&self.requests, &o.requests)
    }
}

impl PartialEqSpecImpl for Collection {
    open spec fn obeys_eq_spec() -> bool {
        true
    }

    open spec fn eq_spec(&self, o: &Collection) -> bool {
        self@ == o@
    }
}

impl PartialEq for Workspace {
    fn eq(&self, o: &Workspace) -> (r: bool)
        ensures
            r == (self@ == o@),
    {
        proof {
            assert(self@.collections =~= self.collections@.map_values(|x: Collection| x@));
            assert(o@.collections =~= o.collections@.map_values(|x: Collection| x@));
        }
        self.id == o.id && self.name == o.name && vec_eq(&self.collections, &o.collections)
    }
}

impl PartialEqSpecImpl for Workspace {
    open spec fn obeys_eq_spec() -> bool {
        true
    }

    open spec fn eq_spec(&self, o: &Workspace) -> bool {
        self@ == o@
    }
}

impl PartialEq for Environment {
    fn eq(&self, o: &Environment) -> (r: bool)
        ensures
            r == (self@ == o@),
    {
        proof {
            assert(self@.variables =~= self.variables@.map_values(|x: Variable| x@));
            assert(o@.variables =~= o.variables@.map_values(|x: Variable| x@));
        }
        self.id == o.id && self.name == o.name && vec_eq(&self.variables, &o.variables)
    }
}

impl PartialEqSpecImpl for Environment {
    open spec fn obeys_eq_spec() -> bool {
        true
    }

    open spec fn eq_spec(&self, o: &Environment) -> bool {
        self@ == o@
    }
}

impl PartialEq for CallistoConfig {
    fn eq(&self, o: &CallistoConfig) -> (r: bool)
        ensures
            r == (self@ == o@),
    {
        proof {
            assert(self@.workspaces =~= self.workspaces@.map_values(|x: Workspace| x@));
            assert(o@.workspaces =~= o.workspaces@.map_values(|x: Workspace| x@));
            assert(self@.environments =~= self.environments@.map_values(|x: Environment| x@));
            assert(o@.environments =~= o.environments@.map_values(|x: Environment| x@));
        }
        self.version == o.version && vec_eq(&self.workspaces, &o.workspaces) && vec_eq(
            &self.environments,
            &o.environments,
        )
    }
}

impl PartialEqSpecImpl for CallistoConfig {
    open spec fn obeys_eq_spec() -> bool {
        true
    }

    open spec fn eq_spec(&self, o: &CallistoConfig) -> bool {
        self@ == o@
    }
}

/// `i` is the first position of `ids` that holds `id`.
pub open spec fn is_first_index(ids: Seq<Seq<char>>, id: Seq<char>, i: int) -> bool {
    0 <= i < ids.len() && ids[i] == id && forall|j: int| 0 <= j < i ==> ids[j] != id
}

/// The first position of `ids` that holds `id`, or -1 when none does.
pub open spec fn first_index(ids: Seq<Seq<char>>, id: Seq<char>) -> int {
    if exists|i: int| is_first_index(ids, id, i) {
        choose|i: int| is_first_index(ids, id, i)
    } else {
        -1
    }
}

/// Identifiers of a sequence of workspaces, in order.
pub open spec fn workspace_ids(ws: Seq<WorkspaceModel>) -> Seq<Seq<char>> {
    ws.map_values(|w: WorkspaceModel| w.id)
}

/// Identifiers of a sequence of collections, in order.
pub open spec fn collection_ids(cs: Seq<CollectionModel>) -> Seq<Seq<char>> {
    cs.map_values(|c: CollectionModel| c.id)
}

/// Identifiers of a sequence of requests, in order.
pub open spec fn request_ids(rs: Seq<RequestModel>) -> Seq<Seq<char>> {
    rs.map_values(|r: RequestModel| r.id)
}

/// Identifiers of a sequence of environments, in order.
pub open spec fn environment_ids(es: Seq<EnvironmentModel>) -> Seq<Seq<char>> {
    es.map_values(|e: EnvironmentModel| e.id)
}

/// Each position has the first-index property for at most one index.
pub proof fn lemma_first_index_unique(ids: Seq<Seq<char>>, id: Seq<char>, i: int)
    requires
        is_first_index(ids, id, i),
    ensures
        first_index(ids, id) == i,
{
    let k = choose|k: int| is_first_index(ids, id, k);
    assert(is_first_index(ids, id, k));
    if k < i {
        assert(ids[k] != id);
    } else if i < k {
        assert(ids[i] != id);
    }
}

/// No position holds `id`: the first index is -1.
pub proof fn lemma_first_index_absent(ids: Seq<Seq<char>>, id: Seq<char>)
    requires
        forall|j: int| 0 <= j < ids.len() ==> ids[j] != id,
    ensures
        first_index(ids, id) == -1,
{
    if exists|i: int| is_first_index(ids, id, i) {
        let k = choose|i: int| is_first_index(ids, id, i);
        assert(ids[k] == id);
    }
}

/// A position holding `id` means a first such position exists.
pub proof fn lemma_first_index_exists(ids: Seq<Seq<char>>, id: Seq<char>, j: int)
    requires
        0 <= j < ids.len(),
        ids[j] == id,
    ensures
        first_index(ids, id) >= 0,
        is_first_index(ids, id, first_index(ids, id)),
    decreases j,
{
    if forall|k: int| 0 <= k < j ==> ids[k] != id {
        assert(is_first_index(ids, id, j));
    } else {
        let k = choose|k: int| 0 <= k < j && ids[k] == id;
        lemma_first_index_exists(ids, id, k);
    }
}

/// When `id` has no first index, no position holds it.
pub proof fn lemma_first_index_none(ids: Seq<Seq<char>>, id: Seq<char>)
    requires
        first_index(ids, id) == -1,
    ensures
        forall|j: int| 0 <= j < ids.len() ==> ids[j] != id,
{
    assert forall|j: int| 0 <= j < ids.len() implies ids[j] != id by {
        if ids[j] == id {
            lemma_first_index_exists(ids, id, j);
        }
    }
}

/// Filtering by a predicate that every element meets changes nothing.
pub proof fn lemma_filter_keeps_all<A>(s: Seq<A>, p: spec_fn(A) -> bool)
    requires
        forall|i: int| 0 <= i < s.len() ==> p(s[i]),
    ensures
        s.filter(p) == s,
    decreases s.len(),
{
    reveal(Seq::filter);
    if s.len() > 0 {
        lemma_filter_keeps_all(s.drop_last(), p);
        assert(s.drop_last().push(s.last()) =~= s);
    }
}

} // verus!
