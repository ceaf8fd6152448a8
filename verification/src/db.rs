//! The HelixDB side: the records the agent keeps, and the query bodies it posts
//! to `POST /v1/query`.
//!
//! HelixDB takes a query AST as JSON. Each builder below returns the exact body
//! of one query; its contract states that body in full.
use vstd::prelude::*;
use crate::embed::ints;
use crate::llm::is_success;
use crate::json::{Json, JsonV, as_i64, get_index, lemma_entry_value_at, get_key, get_opt, at_opt};
use vstd::slice::slice_to_vec;

verus! {

/// A memory row returned from vector search.
pub struct MemoryHit {
    pub id: i64,
    /// The vector distance the server reported, written with three decimals.
    pub distance: String,
    pub role: String,
    pub text: String,
    pub ts: String,
}

/// The model of a memory hit.
pub struct HitV {
    pub id: i64,
    pub distance: Seq<char>,
    pub role: Seq<char>,
    pub text: Seq<char>,
    pub ts: Seq<char>,
}

impl View for MemoryHit {
    type V = HitV;

    open spec fn view(&self) -> HitV {
        HitV {
            id: self.id,
            distance: self.distance@,
            role: self.role@,
            text: self.text@,
            ts: self.ts@,
        }
    }
}

/// The models of a sequence of memory hits.
pub open spec fn hits_view(s: Seq<MemoryHit>) -> Seq<HitV> {
    s.map_values(|h: MemoryHit| h@)
}

/// A memory row from a graph traversal.
pub struct MemoryRow {
    pub id: i64,
    pub role: String,
    pub text: String,
    pub ts: String,
}

/// One fact in the knowledge graph: `<subject> <predicate> <object>`; the
/// subject is whichever entity the fact was read from.
pub struct Fact {
    pub predicate: String,
    pub object: String,
}

/// Where HelixDB is reached: the full URL of its query endpoint.
pub struct HelixClient {
    endpoint: String,
}

/// `s` with every trailing `c` removed.
pub open spec fn trim_end_char(s: Seq<char>, c: char) -> Seq<char>
    decreases s.len(),
{
    if s.len() > 0 && s.last() == c {
        trim_end_char(s.drop_last(), c)
    } else {
        s
    }
}

/// Trusted: `str::trim_end_matches` with a character pattern, documented as
/// removing every trailing match repeatedly: `trim_end_char`.
#[verifier::external_body]
fn str_trim_end_matches(s: &str, c: char) -> (r: &str)
    ensures
        r@ == trim_end_char(s@, c),
{
    s.trim_end_matches(c)
}

/// The query endpoint under a base URL.
pub open spec fn endpoint_of(base_url: Seq<char>) -> Seq<char> {
    trim_end_char(base_url, '/') + "/v1/query"@
}

impl HelixClient {
    /// The client of the HelixDB instance at `base_url` (trailing slashes ignored).
    pub fn new(base_url: &str) -> (r: HelixClient)
        ensures
            r.endpoint_view() == endpoint_of(base_url@),
    {
        let mut endpoint = String::from_str(str_trim_end_matches(base_url, '/'));
        endpoint.append("/v1/query");
        HelixClient { endpoint }
    }

    pub closed spec fn endpoint_view(&self) -> Seq<char> {
        self.endpoint@
    }

    /// The URL that every query is posted to.
    pub fn endpoint(&self) -> (r: &str)
        ensures
            r@ == self.endpoint_view(),
    {
        self.endpoint.as_str()
    }
}

/// Trailing slashes of the base URL do not matter.
pub proof fn lemma_endpoint_trailing_slash(base_url: Seq<char>)
    ensures
        endpoint_of(base_url.push('/')) == endpoint_of(base_url),
{
    assert(base_url.push('/').drop_last() =~= base_url);
}

/// Queries go to `<base URL>/v1/query`: a base URL that does not end in a
/// slash is taken as it is.
pub proof fn lemma_endpoint_plain(base_url: Seq<char>)
    requires
        base_url.len() == 0 || base_url.last() != '/',
    ensures
        endpoint_of(base_url) == base_url + "/v1/query"@,
{
}

// ---- Spec shapes of the query AST ----------------------------------------

/// `{"Param": name}`
pub open spec fn param_v(name: Seq<char>) -> JsonV {
    JsonV::Obj(seq![("Param"@, JsonV::Str(name))])
}

/// `{"Expr": {"Param": name}}`
pub open spec fn expr_param_v(name: Seq<char>) -> JsonV {
    JsonV::Obj(seq![("Expr"@, param_v(name))])
}

/// `[name, {"Expr": {"Param": name}}]`: a node property read from the parameter of that name.
pub open spec fn prop_v(name: Seq<char>) -> JsonV {
    JsonV::Arr(seq![JsonV::Str(name), expr_param_v(name)])
}

/// `{"source": source, "alias": alias}`
pub open spec fn field_v(source: Seq<char>, alias: Seq<char>) -> JsonV {
    JsonV::Obj(seq![("source"@, JsonV::Str(source)), ("alias"@, JsonV::Str(alias))])
}

/// `{"Project": [{"source": "$id", "alias": "id"}]}`
pub open spec fn project_id_v() -> JsonV {
    JsonV::Obj(seq![("Project"@, JsonV::Arr(seq![field_v("$id"@, "id"@)]))])
}

/// `{"NWhere": {"Eq": ["$label", {"String": label}]}}`: nodes with that label.
pub open spec fn with_label_v(label: Seq<char>) -> JsonV {
    JsonV::Obj(
        seq![
            ("NWhere"@, JsonV::Obj(
                seq![
                    ("Eq"@, JsonV::Arr(
                        seq![JsonV::Str("$label"@), JsonV::Obj(seq![("String"@, JsonV::Str(label))])],
                    )),
                ],
            )),
        ],
    )
}

/// `{"Where": {"EqExpr": ["name", {"Param": "name"}]}}`: nodes whose name is the `name` parameter.
pub open spec fn name_is_param_v() -> JsonV {
    JsonV::Obj(
        seq![
            ("Where"@, JsonV::Obj(
                seq![("EqExpr"@, JsonV::Arr(seq![JsonV::Str("name"@), param_v("name"@)]))],
            )),
        ],
    )
}

/// `{"CreateIndex": {"spec": spec, "if_not_exists": true}}`
pub open spec fn create_index_v(spec: JsonV) -> JsonV {
    JsonV::Obj(
        seq![
            ("CreateIndex"@, JsonV::Obj(
                seq![("spec"@, spec), ("if_not_exists"@, JsonV::Bool(true))],
            )),
        ],
    )
}

/// The `query` part: one query named `name` made of `steps`, returning `name`.
pub open spec fn query_v(name: Seq<char>, steps: Seq<JsonV>) -> JsonV {
    JsonV::Obj(
        seq![
            ("queries"@, JsonV::Arr(
                seq![
                    JsonV::Obj(
                        seq![
                            ("Query"@, JsonV::Obj(
                                seq![
                                    ("name"@, JsonV::Str(name)),
                                    ("steps"@, JsonV::Arr(steps)),
                                    ("condition"@, JsonV::Null),
                                ],
                            )),
                        ],
                    ),
                ],
            )),
            ("returns"@, JsonV::Arr(seq![JsonV::Str(name)])),
        ],
    )
}

/// A request body without parameters.
pub open spec fn request_v(request_type: Seq<char>, name: Seq<char>, steps: Seq<JsonV>) -> JsonV {
    JsonV::Obj(
        seq![
            ("request_type"@, JsonV::Str(request_type)),
            ("query_name"@, JsonV::Null),
            ("query"@, query_v(name, steps)),
        ],
    )
}

/// A request body with parameters and their types.
pub open spec fn request_params_v(
    request_type: Seq<char>,
    name: Seq<char>,
    steps: Seq<JsonV>,
    params: JsonV,
    types: JsonV,
) -> JsonV {
    JsonV::Obj(
        seq![
            ("request_type"@, JsonV::Str(request_type)),
            ("query_name"@, JsonV::Null),
            ("query"@, query_v(name, steps)),
            ("parameters"@, params),
            ("parameter_types"@, types),
        ],
    )
}

/// `{key: "String"}`: one string parameter's type.
pub open spec fn string_type_v(key: Seq<char>) -> JsonV {
    JsonV::Obj(seq![(key, JsonV::Str("String"@))])
}

// ---- Exec pieces, each equal to its spec shape ----------------------------

fn param(name: &str) -> (r: Json)
    ensures
        r.model() == param_v(name@),
{
    Json::obj1("Param", Json::str(name))
}

fn expr_param(name: &str) -> (r: Json)
    ensures
        r.model() == expr_param_v(name@),
{
    Json::obj1("Expr", param(name))
}

fn prop(name: &str) -> (r: Json)
    ensures
        r.model() == prop_v(name@),
{
    Json::arr2(Json::str(name), expr_param(name))
}

fn field(source: &str, alias: &str) -> (r: Json)
    ensures
        r.model() == field_v(source@, alias@),
{
    Json::obj2("source", Json::str(source), "alias", Json::str(alias))
}

fn project_id() -> (r: Json)
    ensures
        r.model() == project_id_v(),
{
    Json::obj1("Project", Json::arr1(field("$id", "id")))
}

fn with_label(label: &str) -> (r: Json)
    ensures
        r.model() == with_label_v(label@),
{
    Json::obj1(
        "NWhere",
        Json::obj1(
            "Eq",
            Json::arr2(Json::str("$label"), Json::obj1("String", Json::str(label))),
        ),
    )
}

fn name_is_param() -> (r: Json)
    ensures
        r.model() == name_is_param_v(),
{
    Json::obj1("Where", Json::obj1("EqExpr", Json::arr2(Json::str("name"), param("name"))))
}

fn create_index(spec: Json) -> (r: Json)
    ensures
        r.model() == create_index_v(spec.model()),
{
    Json::obj1("CreateIndex", Json::obj2("spec", spec, "if_not_exists", Json::Bool(true)))
}

fn query(name: &str, steps: Json) -> (r: Json)
    requires
        steps.model() is Arr,
    ensures
        r.model() == query_v(name@, steps.model()->Arr_0),
{
    Json::obj2(
        "queries",
        Json::arr1(
            Json::obj1(
                "Query",
                Json::obj3("name", Json::str(name), "steps", steps, "condition", Json::Null),
            ),
        ),
        "returns",
        Json::arr1(Json::str(name)),
    )
}

fn request(request_type: &str, name: &str, steps: Json) -> (r: Json)
    requires
        steps.model() is Arr,
    ensures
        r.model() == request_v(request_type@, name@, steps.model()->Arr_0),
{
    Json::obj3(
        "request_type",
        Json::str(request_type),
        "query_name",
        Json::Null,
        "query",
        query(name, steps),
    )
}

fn request_params(request_type: &str, name: &str, steps: Json, params: Json, types: Json) -> (r:
    Json)
    requires
        steps.model() is Arr,
    ensures
        r.model() == request_params_v(
            request_type@,
            name@,
            steps.model()->Arr_0,
            params.model(),
            types.model(),
        ),
{
    Json::obj5(
        "request_type",
        Json::str(request_type),
        "query_name",
        Json::Null,
        "query",
        query(name, steps),
        "parameters",
        params,
        "parameter_types",
        types,
    )
}

fn string_type(key: &str) -> (r: Json)
    ensures
        r.model() == string_type_v(key@),
{
    Json::obj1(key, Json::str("String"))
}

// ---- The queries -----------------------------------------------------------

/// Create the vector index on `Memory.embedding`, if it does not exist yet.
pub open spec fn vector_index_request_v() -> JsonV {
    request_v(
        "write"@,
        "idx"@,
        seq![
            create_index_v(
                JsonV::Obj(
                    seq![
                        ("NodeVector"@, JsonV::Obj(
                            seq![
                                ("label"@, JsonV::Str("Memory"@)),
                                ("property"@, JsonV::Str("embedding"@)),
                            ],
                        )),
                    ],
                ),
            ),
        ],
    )
}

/// Insert a `Memory` node with the given properties and return its id.
pub open spec fn add_memory_request_v(
    role: Seq<char>,
    text: Seq<char>,
    embedding: Seq<int>,
    ts: Seq<char>,
) -> JsonV {
    request_params_v(
        "write"@,
        "m"@,
        seq![
            JsonV::Obj(
                seq![
                    ("AddN"@, JsonV::Obj(
                        seq![
                            ("label"@, JsonV::Str("Memory"@)),
                            ("properties"@, JsonV::Arr(
                                seq![
                                    prop_v("role"@),
                                    prop_v("text"@),
                                    prop_v("embedding"@),
                                    prop_v("ts"@),
                                ],
                            )),
                        ],
                    )),
                ],
            ),
            project_id_v(),
        ],
        JsonV::Obj(
            seq![
                ("role"@, JsonV::Str(role)),
                ("text"@, JsonV::Str(text)),
                ("embedding"@, JsonV::Embedding(embedding)),
                ("ts"@, JsonV::Str(ts)),
            ],
        ),
        JsonV::Obj(
            seq![
                ("role"@, JsonV::Str("String"@)),
                ("text"@, JsonV::Str("String"@)),
                ("embedding"@, JsonV::Obj(seq![("Array"@, JsonV::Str("F32"@))])),
                ("ts"@, JsonV::Str("String"@)),
            ],
        ),
    )
}

/// The parameters of a request body.
pub open spec fn params_of(body: JsonV) -> JsonV {
    get_key(body, "parameters"@)
}

/// In a request body with parameters, they are its fourth entry.
proof fn lemma_params_entry(ents: Seq<(Seq<char>, JsonV)>)
    requires
        ents.len() == 5,
        ents[0].0 == "request_type"@,
        ents[1].0 == "query_name"@,
        ents[2].0 == "query"@,
        ents[3].0 == "parameters"@,
    ensures
        get_key(JsonV::Obj(ents), "parameters"@) == ents[3].1,
{
    reveal_strlit("request_type");
    reveal_strlit("query_name");
    reveal_strlit("query");
    reveal_strlit("parameters");
    assert("query_name"@[0] != "parameters"@[0]);
    lemma_entry_value_at(ents, "parameters"@, 3);
}

/// The parameters of the add-memory body are its four arguments, each under
/// its own name: the node stored gets exactly the role, text, embedding and
/// timestamp it was given.
pub proof fn lemma_add_memory_params(
    role: Seq<char>,
    text: Seq<char>,
    embedding: Seq<int>,
    ts: Seq<char>,
)
    ensures
        get_key(params_of(add_memory_request_v(role, text, embedding, ts)), "role"@) == JsonV::Str(
            role,
        ),
        get_key(params_of(add_memory_request_v(role, text, embedding, ts)), "text"@) == JsonV::Str(
            text,
        ),
        get_key(params_of(add_memory_request_v(role, text, embedding, ts)), "embedding"@)
            == JsonV::Embedding(embedding),
        get_key(params_of(add_memory_request_v(role, text, embedding, ts)), "ts"@) == JsonV::Str(
            ts,
        ),
        get_key(
            get_key(get_index(query_steps(add_memory_request_v(role, text, embedding, ts)), 0), "AddN"@),
            "label"@,
        ) == JsonV::Str("Memory"@),
        get_key(
            get_key(get_index(query_steps(add_memory_request_v(role, text, embedding, ts)), 0), "AddN"@),
            "properties"@,
        ) == JsonV::Arr(seq![prop_v("role"@), prop_v("text"@), prop_v("embedding"@), prop_v("ts"@)]),
{
    let ents = add_memory_request_v(role, text, embedding, ts)->Obj_0;
    lemma_params_entry(ents);
    let p = ents[3].1->Obj_0;
    reveal_strlit("role");
    reveal_strlit("text");
    reveal_strlit("embedding");
    reveal_strlit("ts");
    assert("role"@[0] != "text"@[0]);
    lemma_entry_value_at(p, "role"@, 0);
    lemma_entry_value_at(p, "text"@, 1);
    lemma_entry_value_at(p, "embedding"@, 2);
    assert forall|j: int| 0 <= j < 3 implies #[trigger] p[j].0 != "ts"@ by {
        assert(p[j].0.len() != "ts"@.len());
    }
    lemma_entry_value_at(p, "ts"@, 3);
    lemma_query_steps();
    let a = get_key(get_index(query_steps(add_memory_request_v(role, text, embedding, ts)), 0), "AddN"@)->Obj_0;
    reveal_strlit("label");
    reveal_strlit("properties");
    assert(a[0].0.len() != "properties"@.len());
    lemma_entry_value_at(a, "properties"@, 1);
}

/// The `k` memories nearest to `query_vector`, nearest first, each with its
/// id, distance, role, text and timestamp.
pub open spec fn search_request_v(query_vector: Seq<int>, k: int) -> JsonV {
    request_params_v(
        "read"@,
        "hits"@,
        seq![
            JsonV::Obj(
                seq![
                    ("VectorSearchNodes"@, JsonV::Obj(
                        seq![
                            ("label"@, JsonV::Str("Memory"@)),
                            ("property"@, JsonV::Str("embedding"@)),
                            ("query_vector"@, expr_param_v("query_vector"@)),
                            ("k"@, expr_param_v("k"@)),
                        ],
                    )),
                ],
            ),
            JsonV::Obj(
                seq![
                    ("Project"@, JsonV::Arr(
                        seq![
                            field_v("$id"@, "id"@),
                            field_v("$distance"@, "distance"@),
                            field_v("role"@, "role"@),
                            field_v("text"@, "text"@),
                            field_v("ts"@, "ts"@),
                        ],
                    )),
                ],
            ),
        ],
        JsonV::Obj(
            seq![("query_vector"@, JsonV::Embedding(query_vector)), ("k"@, JsonV::Int(k))],
        ),
        JsonV::Obj(
            seq![
                ("query_vector"@, JsonV::Obj(seq![("Array"@, JsonV::Str("F32"@))])),
                ("k"@, JsonV::Str("I64"@)),
            ],
        ),
    )
}

/// The search is for the `k` nearest neighbours of exactly the vector it is
/// given: its parameters hold that vector and `k`, and the vector searched for
/// is the one that the add-memory body stores for the same embedding.
pub proof fn lemma_search_params(
    query_vector: Seq<int>,
    k: int,
    role: Seq<char>,
    text: Seq<char>,
    ts: Seq<char>,
)
    ensures
        get_key(params_of(search_request_v(query_vector, k)), "query_vector"@)
            == JsonV::Embedding(query_vector),
        get_key(params_of(search_request_v(query_vector, k)), "k"@) == JsonV::Int(k),
        get_key(params_of(search_request_v(query_vector, k)), "query_vector"@) == get_key(
            params_of(add_memory_request_v(role, text, query_vector, ts)),
            "embedding"@,
        ),
        get_key(
            get_key(get_index(query_steps(search_request_v(query_vector, k)), 0), "VectorSearchNodes"@),
            "label"@,
        ) == JsonV::Str("Memory"@),
        get_key(
            get_key(get_index(query_steps(search_request_v(query_vector, k)), 0), "VectorSearchNodes"@),
            "property"@,
        ) == JsonV::Str("embedding"@),
        get_key(
            get_key(get_index(query_steps(search_request_v(query_vector, k)), 0), "VectorSearchNodes"@),
            "query_vector"@,
        ) == expr_param_v("query_vector"@),
        get_key(
            get_key(get_index(query_steps(search_request_v(query_vector, k)), 0), "VectorSearchNodes"@),
            "k"@,
        ) == expr_param_v("k"@),
{
    let ents = search_request_v(query_vector, k)->Obj_0;
    lemma_params_entry(ents);
    let p = ents[3].1->Obj_0;
    reveal_strlit("query_vector");
    reveal_strlit("k");
    lemma_entry_value_at(p, "query_vector"@, 0);
    assert(p[0].0.len() != "k"@.len());
    lemma_entry_value_at(p, "k"@, 1);
    lemma_add_memory_params(role, text, query_vector, ts);
    lemma_query_steps();
    let v = get_key(get_index(query_steps(search_request_v(query_vector, k)), 0), "VectorSearchNodes"@)->Obj_0;
    reveal_strlit("label");
    reveal_strlit("property");
    assert(v[0].0.len() != "property"@.len());
    lemma_entry_value_at(v, "property"@, 1);
    assert forall|j: int| 0 <= j < 2 implies #[trigger] v[j].0 != "query_vector"@ by {
        assert(v[j].0.len() != "query_vector"@.len());
    }
    lemma_entry_value_at(v, "query_vector"@, 2);
    assert forall|j: int| 0 <= j < 3 implies #[trigger] v[j].0 != "k"@ by {
        assert(v[j].0.len() != "k"@.len());
    }
    lemma_entry_value_at(v, "k"@, 3);
}

/// Create the edge `from_id -[label]-> to_id`.
pub open spec fn add_edge_request_v(from_id: int, to_id: int, label: Seq<char>) -> JsonV {
    request_params_v(
        "write"@,
        "e"@,
        seq![
            JsonV::Obj(seq![("N"@, param_v("from_id"@))]),
            JsonV::Obj(
                seq![
                    ("AddE"@, JsonV::Obj(
                        seq![
                            ("label"@, JsonV::Str(label)),
                            ("to"@, param_v("to_id"@)),
                            ("properties"@, JsonV::Arr(Seq::empty())),
                        ],
                    )),
                ],
            ),
        ],
        JsonV::Obj(seq![("from_id"@, JsonV::Int(from_id)), ("to_id"@, JsonV::Int(to_id))]),
        JsonV::Obj(seq![("from_id"@, JsonV::Str("I64"@)), ("to_id"@, JsonV::Str("I64"@))]),
    )
}

/// Create the unique equality index on `Entity.name`, if it does not exist yet.
pub open spec fn entity_index_request_v() -> JsonV {
    request_v(
        "write"@,
        "ix"@,
        seq![
            create_index_v(
                JsonV::Obj(
                    seq![
                        ("NodeEquality"@, JsonV::Obj(
                            seq![
                                ("label"@, JsonV::Str("Entity"@)),
                                ("property"@, JsonV::Str("name"@)),
                                ("unique"@, JsonV::Bool(true)),
                            ],
                        )),
                    ],
                ),
            ),
        ],
    )
}

/// The id of the `Entity` named `name`, if there is one.
pub open spec fn find_entity_request_v(name: Seq<char>) -> JsonV {
    request_params_v(
        "read"@,
        "e"@,
        seq![with_label_v("Entity"@), name_is_param_v(), project_id_v()],
        JsonV::Obj(seq![("name"@, JsonV::Str(name))]),
        string_type_v("name"@),
    )
}

/// Insert an `Entity` named `name` and return its id.
pub open spec fn add_entity_request_v(name: Seq<char>) -> JsonV {
    request_params_v(
        "write"@,
        "e"@,
        seq![
            JsonV::Obj(
                seq![
                    ("AddN"@, JsonV::Obj(
                        seq![
                            ("label"@, JsonV::Str("Entity"@)),
                            ("properties"@, JsonV::Arr(seq![prop_v("name"@)])),
                        ],
                    )),
                ],
            ),
            project_id_v(),
        ],
        JsonV::Obj(seq![("name"@, JsonV::Str(name))]),
        string_type_v("name"@),
    )
}

/// Insert a `Statement { predicate, object }` node and return its id.
pub open spec fn add_statement_request_v(predicate: Seq<char>, object: Seq<char>) -> JsonV {
    request_params_v(
        "write"@,
        "s"@,
        seq![
            JsonV::Obj(
                seq![
                    ("AddN"@, JsonV::Obj(
                        seq![
                            ("label"@, JsonV::Str("Statement"@)),
                            ("properties"@, JsonV::Arr(seq![prop_v("predicate"@), prop_v("object"@)])),
                        ],
                    )),
                ],
            ),
            project_id_v(),
        ],
        JsonV::Obj(seq![("predicate"@, JsonV::Str(predicate)), ("object"@, JsonV::Str(object))]),
        JsonV::Obj(
            seq![("predicate"@, JsonV::Str("String"@)), ("object"@, JsonV::Str("String"@))],
        ),
    )
}

/// The `predicate` and `object` of every statement the entity `name` HAS.
pub open spec fn facts_request_v(name: Seq<char>) -> JsonV {
    request_params_v(
        "read"@,
        "f"@,
        seq![
            with_label_v("Entity"@),
            name_is_param_v(),
            JsonV::Obj(seq![("Out"@, JsonV::Str("HAS"@))]),
            JsonV::Obj(
                seq![
                    ("ValueMap"@, JsonV::Arr(
                        seq![JsonV::Str("predicate"@), JsonV::Str("object"@)],
                    )),
                ],
            ),
        ],
        JsonV::Obj(seq![("name"@, JsonV::Str(name))]),
        string_type_v("name"@),
    )
}

/// The memories that the memory `id` has a `NEXT` edge to.
pub open spec fn next_request_v(id: int) -> JsonV {
    request_params_v(
        "read"@,
        "nxt"@,
        seq![
            JsonV::Obj(seq![("N"@, param_v("id"@))]),
            JsonV::Obj(seq![("Out"@, JsonV::Str("NEXT"@))]),
            JsonV::Obj(
                seq![
                    ("ValueMap"@, JsonV::Arr(
                        seq![
                            JsonV::Str("$id"@),
                            JsonV::Str("role"@),
                            JsonV::Str("text"@),
                            JsonV::Str("ts"@),
                        ],
                    )),
                ],
            ),
        ],
        JsonV::Obj(seq![("id"@, JsonV::Int(id))]),
        JsonV::Obj(seq![("id"@, JsonV::Str("I64"@))]),
    )
}

/// The number of `Memory` nodes.
pub open spec fn count_request_v() -> JsonV {
    request_v("read"@, "c"@, seq![with_label_v("Memory"@), JsonV::Str("Count"@)])
}

/// The label of the edges that chain a conversation.
pub open spec fn next_label() -> Seq<char> {
    "NEXT"@
}

// ---- What the bodies carry ------------------------------------------------------

/// The steps of the one query in a request body.
pub open spec fn query_steps(body: JsonV) -> JsonV {
    get_key(get_key(get_index(get_key(get_key(body, "query"@), "queries"@), 0), "Query"@), "steps"@)
}

/// The steps of a request body with parameters are the steps it was built from.
pub proof fn lemma_query_steps()
    ensures
        forall|request_type: Seq<char>, name: Seq<char>, steps: Seq<JsonV>, params: JsonV, types: JsonV|
            #[trigger] query_steps(request_params_v(request_type, name, steps, params, types))
                == JsonV::Arr(steps),
{
    reveal_strlit("request_type");
    reveal_strlit("query_name");
    reveal_strlit("query");
    reveal_strlit("queries");
    reveal_strlit("name");
    reveal_strlit("steps");
    assert forall|request_type: Seq<char>, name: Seq<char>, steps: Seq<JsonV>, params: JsonV, types: JsonV|
        #[trigger] query_steps(request_params_v(request_type, name, steps, params, types))
            == JsonV::Arr(steps) by {
        let ents = request_params_v(request_type, name, steps, params, types)->Obj_0;
        assert(ents[0].0.len() != "query"@.len());
        assert(ents[1].0.len() != "query"@.len());
        lemma_entry_value_at(ents, "query"@, 2);
        let q = query_v(name, steps)->Obj_0;
        lemma_entry_value_at(q, "queries"@, 0);
        lemma_entry_value_at(q[0].1->Arr_0[0]->Obj_0, "Query"@, 0);
        let qe = q[0].1->Arr_0[0]->Obj_0[0].1->Obj_0;
        assert(qe[0].0.len() != "steps"@.len());
        lemma_entry_value_at(qe, "steps"@, 1);
    }
}

/// The edge body creates an edge labelled `label` from the node `from_id` to
/// the node `to_id`, each id passed under its own name; memories are chained
/// with `NEXT` edges.
pub proof fn lemma_edge_params(from_id: int, to_id: int, label: Seq<char>)
    ensures
        get_key(params_of(add_edge_request_v(from_id, to_id, label)), "from_id"@) == JsonV::Int(
            from_id,
        ),
        get_key(params_of(add_edge_request_v(from_id, to_id, label)), "to_id"@) == JsonV::Int(
            to_id,
        ),
        get_key(get_index(query_steps(add_edge_request_v(from_id, to_id, label)), 0), "N"@)
            == param_v("from_id"@),
        get_key(
            get_key(get_index(query_steps(add_edge_request_v(from_id, to_id, label)), 1), "AddE"@),
            "label"@,
        ) == JsonV::Str(label),
        get_key(
            get_key(get_index(query_steps(add_edge_request_v(from_id, to_id, label)), 1), "AddE"@),
            "to"@,
        ) == param_v("to_id"@),
        get_key(
            get_key(
                get_index(query_steps(add_edge_request_v(from_id, to_id, next_label())), 1),
                "AddE"@,
            ),
            "label"@,
        ) == JsonV::Str("NEXT"@),
{
    let body = add_edge_request_v(from_id, to_id, label);
    lemma_params_entry(body->Obj_0);
    let p = body->Obj_0[3].1->Obj_0;
    reveal_strlit("from_id");
    reveal_strlit("to_id");
    reveal_strlit("label");
    reveal_strlit("to");
    assert(p[0].0.len() != "to_id"@.len());
    lemma_entry_value_at(p, "from_id"@, 0);
    lemma_entry_value_at(p, "to_id"@, 1);
    lemma_query_steps();
    let e = get_key(get_index(query_steps(body), 1), "AddE"@)->Obj_0;
    assert(e[0].0.len() != "to"@.len());
    lemma_entry_value_at(e, "to"@, 1);
}

/// The entity bodies look up, insert and read the facts of the entity named
/// exactly `name`, passed under `name`; facts are the statements the entity
/// has `HAS` edges to.
pub proof fn lemma_entity_params(name: Seq<char>)
    ensures
        get_key(params_of(find_entity_request_v(name)), "name"@) == JsonV::Str(name),
        get_key(params_of(add_entity_request_v(name)), "name"@) == JsonV::Str(name),
        get_key(params_of(facts_request_v(name)), "name"@) == JsonV::Str(name),
        get_key(get_index(query_steps(facts_request_v(name)), 2), "Out"@) == JsonV::Str("HAS"@),
{
    lemma_params_entry(find_entity_request_v(name)->Obj_0);
    lemma_params_entry(add_entity_request_v(name)->Obj_0);
    lemma_params_entry(facts_request_v(name)->Obj_0);
    lemma_query_steps();
}

/// The statement body stores the predicate and the object it is given, each
/// under its own name.
pub proof fn lemma_statement_params(predicate: Seq<char>, object: Seq<char>)
    ensures
        get_key(params_of(add_statement_request_v(predicate, object)), "predicate"@)
            == JsonV::Str(predicate),
        get_key(params_of(add_statement_request_v(predicate, object)), "object"@) == JsonV::Str(
            object,
        ),
{
    let ents = add_statement_request_v(predicate, object)->Obj_0;
    lemma_params_entry(ents);
    let p = ents[3].1->Obj_0;
    reveal_strlit("predicate");
    reveal_strlit("object");
    assert(p[0].0.len() != "object"@.len());
    lemma_entry_value_at(p, "object"@, 1);
}

/// The next-memory body follows the `NEXT` edges out of the memory `id`.
pub proof fn lemma_next_params(id: int)
    ensures
        get_key(params_of(next_request_v(id)), "id"@) == JsonV::Int(id),
        get_key(get_index(query_steps(next_request_v(id)), 0), "N"@) == param_v("id"@),
        get_key(get_index(query_steps(next_request_v(id)), 1), "Out"@) == JsonV::Str("NEXT"@),
{
    lemma_params_entry(next_request_v(id)->Obj_0);
    lemma_query_steps();
}

// ---- Reading answers ----------------------------------------------------------

/// Why a query's answer could not be used.
pub enum DbError {
    /// HelixDB answered with a status outside 200..=299; the answer's text.
    Status { status: u16, body: String },
}

/// Checks the status of HelixDB's answer: with a status in 200..=299 the
/// answer's text is to be parsed as JSON, otherwise it is an error that
/// carries the status and the text.
pub fn check_status(status: u16, body: String) -> (r: Result<String, DbError>)
    ensures
        is_success(status) ==> (r matches Ok(text) && text@ == body@),
        !is_success(status) ==> (r matches Err(DbError::Status { status: s, body: text }) && s
            == status && text@ == body@),
{
    if 200 <= status && status <= 299 {
        Ok(body)
    } else {
        Err(DbError::Status { status, body })
    }
}

/// The id that the query named `name` returned: `resp[name]["properties"][0]["id"]`
/// when it is an `i64`.
pub open spec fn returned_id_v(resp: JsonV, name: Seq<char>) -> Option<int> {
    as_i64(get_key(get_index(get_key(get_key(resp, name), "properties"@), 0), "id"@))
}

/// An answer `{name: {"properties": [{"id": id}]}}` returns `id` for the
/// query `name`; an answer `{"c": {"count": n}}` counts `n`, and an answer
/// without a count counts 0.
pub proof fn lemma_returned_values(name: Seq<char>, id: int, n: int)
    ensures
        returned_id_v(
            JsonV::Obj(
                seq![
                    (name, JsonV::Obj(
                        seq![("properties"@, JsonV::Arr(seq![JsonV::Obj(seq![("id"@, JsonV::Int(id))])]))],
                    )),
                ],
            ),
            name,
        ) == Some(id),
        returned_count_v(JsonV::Obj(seq![("c"@, JsonV::Obj(seq![("count"@, JsonV::Int(n))]))])) == n,
        returned_count_v(JsonV::Null) == 0,
{
}

/// The id that the query named `name` returned, if the answer holds one.
pub fn returned_id(resp: &Json, name: &str) -> (r: Option<i64>)
    ensures
        (match r {
            Some(i) => Some(i as int),
            None => None,
        }) == returned_id_v(resp.model(), name@),
{
    let v = at_opt(get_opt(resp.get(name), "properties"), 0);
    match get_opt(v, "id") {
        Some(j) => j.as_i64(),
        None => None,
    }
}

/// The count that the count query returned: `resp["c"]["count"]`, 0 when absent.
pub open spec fn returned_count_v(resp: JsonV) -> int {
    match as_i64(get_key(get_key(resp, "c"@), "count"@)) {
        Some(n) => n,
        None => 0,
    }
}

/// The count that the count query returned.
pub fn returned_count(resp: &Json) -> (r: i64)
    ensures
        r as int == returned_count_v(resp.model()),
{
    match get_opt(resp.get("c"), "count") {
        Some(j) => match j.as_i64() {
            Some(n) => n,
            None => 0,
        },
        None => 0,
    }
}

impl HelixClient {
    /// Body of the query that creates the HNSW vector index on
    /// `Memory.embedding` (idempotent).
    pub fn vector_index_request(&self) -> (r: Json)
        ensures
            r.model() == vector_index_request_v(),
    {
        let spec = Json::obj1(
            "NodeVector",
            Json::obj2("label", Json::str("Memory"), "property", Json::str("embedding")),
        );
        request("write", "idx", Json::arr1(create_index(spec)))
    }

    /// Body of the query that inserts a memory node and returns its id.
    pub fn add_memory_request(&self, role: &str, text: &str, embedding: &[i128], ts: &str) -> (r:
        Json)
        ensures
            r.model() == add_memory_request_v(role@, text@, ints(embedding@), ts@),
    {
        let add = Json::obj1(
            "AddN",
            Json::obj2(
                "label",
                Json::str("Memory"),
                "properties",
                Json::arr4(prop("role"), prop("text"), prop("embedding"), prop("ts")),
            ),
        );
        let params = Json::obj4(
            "role",
            Json::str(role),
            "text",
            Json::str(text),
            "embedding",
            Json::Embedding(slice_to_vec(embedding)),
            "ts",
            Json::str(ts),
        );
        let types = Json::obj4(
            "role",
            Json::str("String"),
            "text",
            Json::str("String"),
            "embedding",
            Json::obj1("Array", Json::str("F32")),
            "ts",
            Json::str("String"),
        );
        request_params("write", "m", Json::arr2(add, project_id()), params, types)
    }

    /// Body of the k-nearest-neighbour search over stored embeddings.
    pub fn search_request(&self, query_vector: &[i128], k: i64) -> (r: Json)
        ensures
            r.model() == search_request_v(ints(query_vector@), k as int),
    {
        let search = Json::obj1(
            "VectorSearchNodes",
            Json::obj4(
                "label",
                Json::str("Memory"),
                "property",
                Json::str("embedding"),
                "query_vector",
                expr_param("query_vector"),
                "k",
                expr_param("k"),
            ),
        );
        let project = Json::obj1(
            "Project",
            Json::arr5(
                field("$id", "id"),
                field("$distance", "distance"),
                field("role", "role"),
                field("text", "text"),
                field("ts", "ts"),
            ),
        );
        let params = Json::obj2(
            "query_vector",
            Json::Embedding(slice_to_vec(query_vector)),
            "k",
            Json::Int(k),
        );
        let types = Json::obj2(
            "query_vector",
            Json::obj1("Array", Json::str("F32")),
            "k",
            Json::str("I64"),
        );
        request_params("read", "hits", Json::arr2(search, project), params, types)
    }

    /// Body of the query that creates the edge `from_id -[label]-> to_id`.
    pub fn add_edge_request(&self, from_id: i64, to_id: i64, label: &str) -> (r: Json)
        ensures
            r.model() == add_edge_request_v(from_id as int, to_id as int, label@),
    {
        let n = Json::obj1("N", param("from_id"));
        let add_e = Json::obj1(
            "AddE",
            Json::obj3(
                "label",
                Json::str(label),
                "to",
                param("to_id"),
                "properties",
                Json::arr(Vec::new()),
            ),
        );
        proof {
            assert(Json::models(Seq::<Json>::empty()) =~= Seq::<JsonV>::empty());
        }
        let params = Json::obj2("from_id", Json::Int(from_id), "to_id", Json::Int(to_id));
        let types = Json::obj2("from_id", Json::str("I64"), "to_id", Json::str("I64"));
        request_params("write", "e", Json::arr2(n, add_e), params, types)
    }

    /// Body of the query that chains one memory to the next with a `NEXT` edge.
    pub fn link_memories_request(&self, from_id: i64, to_id: i64) -> (r: Json)
        ensures
            r.model() == add_edge_request_v(from_id as int, to_id as int, next_label()),
    {
        self.add_edge_request(from_id, to_id, "NEXT")
    }

    /// Body of the query that creates the unique index on `Entity.name` (idempotent).
    pub fn entity_index_request(&self) -> (r: Json)
        ensures
            r.model() == entity_index_request_v(),
    {
        let spec = Json::obj1(
            "NodeEquality",
            Json::obj3(
                "label",
                Json::str("Entity"),
                "property",
                Json::str("name"),
                "unique",
                Json::Bool(true),
            ),
        );
        request("write", "ix", Json::arr1(create_index(spec)))
    }

    /// Body of the query that looks an entity up by name.
    pub fn find_entity_request(&self, name: &str) -> (r: Json)
        ensures
            r.model() == find_entity_request_v(name@),
    {
        request_params(
            "read",
            "e",
            Json::arr3(with_label("Entity"), name_is_param(), project_id()),
            Json::obj1("name", Json::str(name)),
            string_type("name"),
        )
    }

    /// Body of the query that inserts an entity and returns its id.
    pub fn add_entity_request(&self, name: &str) -> (r: Json)
        ensures
            r.model() == add_entity_request_v(name@),
    {
        let add = Json::obj1(
            "AddN",
            Json::obj2("label", Json::str("Entity"), "properties", Json::arr1(prop("name"))),
        );
        request_params(
            "write",
            "e",
            Json::arr2(add, project_id()),
            Json::obj1("name", Json::str(name)),
            string_type("name"),
        )
    }

    /// Body of the query that inserts a reified `Statement { predicate, object }`.
    pub fn add_statement_request(&self, predicate: &str, object: &str) -> (r: Json)
        ensures
            r.model() == add_statement_request_v(predicate@, object@),
    {
        let add = Json::obj1(
            "AddN",
            Json::obj2(
                "label",
                Json::str("Statement"),
                "properties",
                Json::arr2(prop("predicate"), prop("object")),
            ),
        );
        request_params(
            "write",
            "s",
            Json::arr2(add, project_id()),
            Json::obj2("predicate", Json::str(predicate), "object", Json::str(object)),
            Json::obj2("predicate", Json::str("String"), "object", Json::str("String")),
        )
    }

    /// Body of the query that reads all facts about an entity:
    /// `Entity(name) --HAS--> Statement`.
    pub fn facts_request(&self, name: &str) -> (r: Json)
        ensures
            r.model() == facts_request_v(name@),
    {
        request_params(
            "read",
            "f",
            Json::arr4(
                with_label("Entity"),
                name_is_param(),
                Json::obj1("Out", Json::str("HAS")),
                Json::obj1("ValueMap", Json::arr2(Json::str("predicate"), Json::str("object"))),
            ),
            Json::obj1("name", Json::str(name)),
            string_type("name"),
        )
    }

    /// Body of the query that follows the `NEXT` edges out of a memory.
    pub fn next_request(&self, id: i64) -> (r: Json)
        ensures
            r.model() == next_request_v(id as int),
    {
        request_params(
            "read",
            "nxt",
            Json::arr3(
                Json::obj1("N", param("id")),
                Json::obj1("Out", Json::str("NEXT")),
                Json::obj1(
                    "ValueMap",
                    Json::arr4(
                        Json::str("$id"),
                        Json::str("role"),
                        Json::str("text"),
                        Json::str("ts"),
                    ),
                ),
            ),
            Json::obj1("id", Json::Int(id)),
            Json::obj1("id", Json::str("I64")),
        )
    }

    /// Body of the query that counts the stored memories.
    pub fn count_request(&self) -> (r: Json)
        ensures
            r.model() == count_request_v(),
    {
        request("read", "c", Json::arr2(with_label("Memory"), Json::str("Count")))
    }
}

} // verus!
