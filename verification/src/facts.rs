//! The knowledge graph: a fact `(subject, predicate, object)` is stored as
//! `Entity(subject) --HAS--> Statement { predicate, object } --ABOUT--> Entity(object)`,
//! entities deduplicated by name.
//!
//! As with a turn, the caller talks to HelixDB: the plan says what to do
//! next and is told what came back.
use vstd::prelude::*;

verus! {

/// The label of the edge from a subject entity to its statement.
pub const HAS: &'static str = "HAS";

/// The label of the edge from a statement to its object entity.
pub const ABOUT: &'static str = "ABOUT";

/// A subject has its statements through `HAS` edges, and a statement is
/// `ABOUT` its object.
pub proof fn lemma_edge_labels()
    ensures
        HAS@ == "HAS"@,
        ABOUT@ == "ABOUT"@,
{
}

/// What came back from the last action.
pub enum FactEvent {
    /// The id of the entity looked up by name, if there is one.
    Found(Option<i64>),
    /// The id of the node just added.
    Added(i64),
    /// The edge was created.
    Linked,
}

/// What the caller is to do next.
pub enum FactAction {
    /// Look an entity up by name.
    FindEntity(String),
    /// Add an entity with this name.
    AddEntity(String),
    /// Add a statement node.
    AddStatement { predicate: String, object: String },
    /// Create the edge `from_id -[label]-> to_id`.
    AddEdge { from_id: i64, to_id: i64, label: String },
    /// The upsert is over: this is the entity's id.
    Finished(i64),
    /// The fact is stored.
    Stored,
    /// The event did not answer the last action; the plan is abandoned.
    Unexpected,
}

/// The model of an event.
pub enum FactEventV {
    Found(Option<i64>),
    Added(i64),
    Linked,
}

/// The model of an action.
pub enum FactActionV {
    FindEntity(Seq<char>),
    AddEntity(Seq<char>),
    AddStatement { predicate: Seq<char>, object: Seq<char> },
    AddEdge { from_id: i64, to_id: i64, label: Seq<char> },
    Finished(i64),
    Stored,
    Unexpected,
}

impl View for FactEvent {
    type V = FactEventV;

    open spec fn view(&self) -> FactEventV {
        match self {
            FactEvent::Found(f) => FactEventV::Found(*f),
            FactEvent::Added(id) => FactEventV::Added(*id),
            FactEvent::Linked => FactEventV::Linked,
        }
    }
}

impl View for FactAction {
    type V = FactActionV;

    open spec fn view(&self) -> FactActionV {
        match self {
            FactAction::FindEntity(n) => FactActionV::FindEntity(n@),
            FactAction::AddEntity(n) => FactActionV::AddEntity(n@),
            FactAction::AddStatement { predicate, object } => FactActionV::AddStatement {
                predicate: predicate@,
                object: object@,
            },
            FactAction::AddEdge { from_id, to_id, label } => FactActionV::AddEdge {
                from_id: *from_id,
                to_id: *to_id,
                label: label@,
            },
            FactAction::Finished(id) => FactActionV::Finished(*id),
            FactAction::Stored => FactActionV::Stored,
            FactAction::Unexpected => FactActionV::Unexpected,
        }
    }
}

// ---- Find-or-create an entity ---------------------------------------------

/// Where an upsert stands.
pub enum UpsertStage {
    Find,
    Add,
    Done,
}

/// Find-or-create an entity by name (entities deduplicate on name).
pub struct EntityUpsert {
    name: String,
    stage: UpsertStage,
}

/// The model of an upsert.
pub struct UpsertV {
    pub name: Seq<char>,
    pub stage: UpsertStage,
}

impl View for EntityUpsert {
    type V = UpsertV;

    closed spec fn view(&self) -> UpsertV {
        UpsertV { name: self.name@, stage: self.stage }
    }
}

/// One step of an upsert: a found entity is the answer; none found is added,
/// and the new one is the answer.
pub open spec fn upsert_step(u: UpsertV, e: FactEventV) -> (UpsertV, FactActionV) {
    match (u.stage, e) {
        (UpsertStage::Find, FactEventV::Found(Some(id))) => (
            UpsertV { stage: UpsertStage::Done, ..u },
            FactActionV::Finished(id),
        ),
        (UpsertStage::Find, FactEventV::Found(None)) => (
            UpsertV { stage: UpsertStage::Add, ..u },
            FactActionV::AddEntity(u.name),
        ),
        (UpsertStage::Add, FactEventV::Added(id)) => (
            UpsertV { stage: UpsertStage::Done, ..u },
            FactActionV::Finished(id),
        ),
        _ => (UpsertV { stage: UpsertStage::Done, ..u }, FactActionV::Unexpected),
    }
}

impl EntityUpsert {
    /// Starts finding or creating the entity `name`: first look it up.
    pub fn new(name: &str) -> (r: (EntityUpsert, FactAction))
        ensures
            r.0@ == (UpsertV { name: name@, stage: UpsertStage::Find }),
            r.1@ == FactActionV::FindEntity(name@),
    {
        (
            EntityUpsert { name: String::from_str(name), stage: UpsertStage::Find },
            FactAction::FindEntity(String::from_str(name)),
        )
    }

    /// Moves the upsert on by what came back from its last action.
    pub fn step(&mut self, event: FactEvent) -> (r: FactAction)
        ensures
            (final(self)@, r@) == upsert_step(old(self)@, event@),
    {
        match (&self.stage, event) {
            (UpsertStage::Find, FactEvent::Found(Some(id))) => {
                self.stage = UpsertStage::Done;
                FactAction::Finished(id)
            },
            (UpsertStage::Find, FactEvent::Found(None)) => {
                self.stage = UpsertStage::Add;
                FactAction::AddEntity(String::from_str(self.name.as_str()))
            },
            (UpsertStage::Add, FactEvent::Added(id)) => {
                self.stage = UpsertStage::Done;
                FactAction::Finished(id)
            },
            _ => {
                self.stage = UpsertStage::Done;
                FactAction::Unexpected
            },
        }
    }
}

/// Upserts deduplicate: an entity that is found is returned and nothing is
/// added; only when none is found is one added, and then its id is returned.
pub proof fn lemma_upsert_dedupes(name: Seq<char>, found: Option<i64>, added: i64)
    ensures
        ({
            let u0 = UpsertV { name, stage: UpsertStage::Find };
            let (u1, a1) = upsert_step(u0, FactEventV::Found(found));
            match found {
                Some(id) => a1 == FactActionV::Finished(id),
                None => a1 == FactActionV::AddEntity(name) && upsert_step(
                    u1,
                    FactEventV::Added(added),
                ).1 == FactActionV::Finished(added),
            }
        }),
{
}

/// Upserting a name twice gives one entity: when HelixDB's lookup for the
/// second upsert finds the entity the first one ended with (as its unique
/// index on `Entity.name` makes it do), the second adds nothing and ends
/// with the same id.
pub proof fn lemma_upsert_twice(name: Seq<char>, found1: Option<i64>, added1: i64, found2: Option<i64>)
    requires
        found2 == Some(upserted(found1, added1)),
    ensures
        ({
            let u0 = UpsertV { name, stage: UpsertStage::Find };
            let (u1, a1) = upsert_step(u0, FactEventV::Found(found1));
            let first = match found1 {
                Some(_) => a1,
                None => upsert_step(u1, FactEventV::Added(added1)).1,
            };
            &&& first == FactActionV::Finished(upserted(found1, added1))
            &&& upsert_step(u0, FactEventV::Found(found2)).1 == first
        }),
{
}

// ---- Store a fact -------------------------------------------------------------

/// Where storing a fact stands.
pub enum FactStage {
    /// Waiting for the subject's lookup.
    FindSubject,
    /// Waiting for the added subject.
    AddSubject,
    /// Waiting for the object's lookup.
    FindObject,
    /// Waiting for the added object.
    AddObject,
    /// Waiting for the added statement.
    AddStatement,
    /// Waiting for the `HAS` edge.
    LinkHas,
    /// Waiting for the `ABOUT` edge.
    LinkAbout,
    /// Over.
    Done,
}

/// Storing the fact `(subject, predicate, object)`.
pub struct FactPlan {
    subject: String,
    predicate: String,
    object: String,
    subj_id: i64,
    obj_id: i64,
    stmt_id: i64,
    stage: FactStage,
}

/// The model of a fact being stored.
pub struct FactV {
    pub subject: Seq<char>,
    pub predicate: Seq<char>,
    pub object: Seq<char>,
    pub subj_id: i64,
    pub obj_id: i64,
    pub stmt_id: i64,
    pub stage: FactStage,
}

impl View for FactPlan {
    type V = FactV;

    closed spec fn view(&self) -> FactV {
        FactV {
            subject: self.subject@,
            predicate: self.predicate@,
            object: self.object@,
            subj_id: self.subj_id,
            obj_id: self.obj_id,
            stmt_id: self.stmt_id,
            stage: self.stage,
        }
    }
}

/// A fact as its storing starts, and the first action: look the subject up.
pub open spec fn fact_start(subject: Seq<char>, predicate: Seq<char>, object: Seq<char>) -> (
    FactV,
    FactActionV,
) {
    (
        FactV {
            subject,
            predicate,
            object,
            subj_id: 0,
            obj_id: 0,
            stmt_id: 0,
            stage: FactStage::FindSubject,
        },
        FactActionV::FindEntity(subject),
    )
}

/// One step of storing a fact.
pub open spec fn fact_step(f: FactV, e: FactEventV) -> (FactV, FactActionV) {
    match (f.stage, e) {
        (FactStage::FindSubject, FactEventV::Found(Some(id))) => (
            FactV { subj_id: id, stage: FactStage::FindObject, ..f },
            FactActionV::FindEntity(f.object),
        ),
        (FactStage::FindSubject, FactEventV::Found(None)) => (
            FactV { stage: FactStage::AddSubject, ..f },
            FactActionV::AddEntity(f.subject),
        ),
        (FactStage::AddSubject, FactEventV::Added(id)) => (
            FactV { subj_id: id, stage: FactStage::FindObject, ..f },
            FactActionV::FindEntity(f.object),
        ),
        (FactStage::FindObject, FactEventV::Found(Some(id))) => (
            FactV { obj_id: id, stage: FactStage::AddStatement, ..f },
            FactActionV::AddStatement { predicate: f.predicate, object: f.object },
        ),
        (FactStage::FindObject, FactEventV::Found(None)) => (
            FactV { stage: FactStage::AddObject, ..f },
            FactActionV::AddEntity(f.object),
        ),
        (FactStage::AddObject, FactEventV::Added(id)) => (
            FactV { obj_id: id, stage: FactStage::AddStatement, ..f },
            FactActionV::AddStatement { predicate: f.predicate, object: f.object },
        ),
        (FactStage::AddStatement, FactEventV::Added(id)) => (
            FactV { stmt_id: id, stage: FactStage::LinkHas, ..f },
            FactActionV::AddEdge { from_id: f.subj_id, to_id: id, label: HAS@ },
        ),
        (FactStage::LinkHas, FactEventV::Linked) => (
            FactV { stage: FactStage::LinkAbout, ..f },
            FactActionV::AddEdge { from_id: f.stmt_id, to_id: f.obj_id, label: ABOUT@ },
        ),
        (FactStage::LinkAbout, FactEventV::Linked) => (
            FactV { stage: FactStage::Done, ..f },
            FactActionV::Stored,
        ),
        _ => (FactV { stage: FactStage::Done, ..f }, FactActionV::Unexpected),
    }
}

impl FactPlan {
    /// Starts storing the fact `(subject, predicate, object)`.
    pub fn new(subject: &str, predicate: &str, object: &str) -> (r: (FactPlan, FactAction))
        ensures
            (r.0@, r.1@) == fact_start(subject@, predicate@, object@),
    {
        (
            FactPlan {
                subject: String::from_str(subject),
                predicate: String::from_str(predicate),
                object: String::from_str(object),
                subj_id: 0,
                obj_id: 0,
                stmt_id: 0,
                stage: FactStage::FindSubject,
            },
            FactAction::FindEntity(String::from_str(subject)),
        )
    }

    /// Moves the plan on by what came back from its last action.
    pub fn step(&mut self, event: FactEvent) -> (r: FactAction)
        ensures
            (final(self)@, r@) == fact_step(old(self)@, event@),
    {
        match (&self.stage, event) {
            (FactStage::FindSubject, FactEvent::Found(Some(id))) => {
                self.subj_id = id;
                self.stage = FactStage::FindObject;
                FactAction::FindEntity(String::from_str(self.object.as_str()))
            },
            (FactStage::FindSubject, FactEvent::Found(None)) => {
                self.stage = FactStage::AddSubject;
                FactAction::AddEntity(String::from_str(self.subject.as_str()))
            },
            (FactStage::AddSubject, FactEvent::Added(id)) => {
                self.subj_id = id;
                self.stage = FactStage::FindObject;
                FactAction::FindEntity(String::from_str(self.object.as_str()))
            },
            (FactStage::FindObject, FactEvent::Found(Some(id))) => {
                self.obj_id = id;
                self.stage = FactStage::AddStatement;
                FactAction::AddStatement {
                    predicate: String::from_str(self.predicate.as_str()),
                    object: String::from_str(self.object.as_str()),
                }
            },
            (FactStage::FindObject, FactEvent::Found(None)) => {
                self.stage = FactStage::AddObject;
                FactAction::AddEntity(String::from_str(self.object.as_str()))
            },
            (FactStage::AddObject, FactEvent::Added(id)) => {
                self.obj_id = id;
                self.stage = FactStage::AddStatement;
                FactAction::AddStatement {
                    predicate: String::from_str(self.predicate.as_str()),
                    object: String::from_str(self.object.as_str()),
                }
            },
            (FactStage::AddStatement, FactEvent::Added(id)) => {
                self.stmt_id = id;
                self.stage = FactStage::LinkHas;
                FactAction::AddEdge {
                    from_id: self.subj_id,
                    to_id: id,
                    label: String::from_str(HAS),
                }
            },
            (FactStage::LinkHas, FactEvent::Linked) => {
                self.stage = FactStage::LinkAbout;
                FactAction::AddEdge {
                    from_id: self.stmt_id,
                    to_id: self.obj_id,
                    label: String::from_str(ABOUT),
                }
            },
            (FactStage::LinkAbout, FactEvent::Linked) => {
                self.stage = FactStage::Done;
                FactAction::Stored
            },
            _ => {
                self.stage = FactStage::Done;
                FactAction::Unexpected
            },
        }
    }
}

/// The actions of storing a fact fed with `events`, and where it ends.
pub open spec fn fact_run(f: FactV, events: Seq<FactEventV>) -> (FactV, Seq<FactActionV>)
    decreases events.len(),
{
    if events.len() == 0 {
        (f, Seq::empty())
    } else {
        let (f1, a) = fact_step(f, events[0]);
        let (f2, rest) = fact_run(f1, events.drop_first());
        (f2, seq![a] + rest)
    }
}

/// The events of an entity upsert: the lookup, then the addition if it found nothing.
pub open spec fn upsert_events(found: Option<i64>, added: i64) -> Seq<FactEventV> {
    match found {
        Some(_) => seq![FactEventV::Found(found)],
        None => seq![FactEventV::Found(found), FactEventV::Added(added)],
    }
}

/// The id an upsert ends with.
pub open spec fn upserted(found: Option<i64>, added: i64) -> i64 {
    match found {
        Some(id) => id,
        None => added,
    }
}

proof fn lemma_fact_run_concat(f: FactV, a: Seq<FactEventV>, b: Seq<FactEventV>)
    ensures
        fact_run(f, a + b) == ({
            let (f1, xs) = fact_run(f, a);
            let (f2, ys) = fact_run(f1, b);
            (f2, xs + ys)
        }),
    decreases a.len(),
{
    if a.len() == 0 {
        assert(a + b =~= b);
        let (f2, ys) = fact_run(f, b);
        assert(Seq::<FactActionV>::empty() + ys =~= ys);
    } else {
        assert((a + b).drop_first() =~= a.drop_first() + b);
        assert((a + b)[0] == a[0]);
        let (f1, x) = fact_step(f, a[0]);
        lemma_fact_run_concat(f1, a.drop_first(), b);
        let (g1, xs1) = fact_run(f1, a.drop_first());
        let (g2, ys) = fact_run(g1, b);
        assert(seq![x] + (xs1 + ys) =~= (seq![x] + xs1) + ys);
    }
}

/// Storing a fact finds or creates the subject, then the object, adds the
/// statement `{predicate, object}`, and links `subject --HAS--> statement`
/// and `statement --ABOUT--> object`, in that order.
pub proof fn lemma_fact_store(
    subject: Seq<char>,
    predicate: Seq<char>,
    object: Seq<char>,
    subj_found: Option<i64>,
    subj_added: i64,
    obj_found: Option<i64>,
    obj_added: i64,
    stmt_id: i64,
)
    ensures
        ({
            let s = upserted(subj_found, subj_added);
            let o = upserted(obj_found, obj_added);
            let events = upsert_events(subj_found, subj_added) + upsert_events(obj_found, obj_added)
                + seq![FactEventV::Added(stmt_id), FactEventV::Linked, FactEventV::Linked];
            let subj_adds = if subj_found is None { seq![FactActionV::AddEntity(subject)] } else { Seq::empty() };
            let obj_adds = if obj_found is None { seq![FactActionV::AddEntity(object)] } else { Seq::empty() };
            let (f, actions) = fact_run(fact_start(subject, predicate, object).0, events);
            &&& fact_start(subject, predicate, object).1 == FactActionV::FindEntity(subject)
            &&& actions == subj_adds + seq![FactActionV::FindEntity(object)] + obj_adds + seq![
                FactActionV::AddStatement { predicate, object },
                FactActionV::AddEdge { from_id: s, to_id: stmt_id, label: HAS@ },
                FactActionV::AddEdge { from_id: stmt_id, to_id: o, label: ABOUT@ },
                FactActionV::Stored,
            ]
            &&& f.stage == FactStage::Done
        }),
{
    let s = upserted(subj_found, subj_added);
    let o = upserted(obj_found, obj_added);
    let f0 = fact_start(subject, predicate, object).0;
    let e1 = upsert_events(subj_found, subj_added);
    let e2 = upsert_events(obj_found, obj_added);
    let e3 = seq![FactEventV::Added(stmt_id), FactEventV::Linked, FactEventV::Linked];
    lemma_fact_run_concat(f0, e1 + e2, e3);
    lemma_fact_run_concat(f0, e1, e2);
    reveal_with_fuel(fact_run, 4);
    let (f1, xs1) = fact_run(f0, e1);
    assert(f1.subj_id == s && f1.stage == FactStage::FindObject && f1.object == object
        && f1.predicate == predicate) by {
        if subj_found is None {
            assert(e1.drop_first() =~= seq![FactEventV::Added(subj_added)]);
            assert(e1.drop_first().drop_first() =~= Seq::<FactEventV>::empty());
        } else {
            assert(e1.drop_first() =~= Seq::<FactEventV>::empty());
        }
    }
    let (f2, xs2) = fact_run(f1, e2);
    assert(f2.obj_id == o && f2.subj_id == s && f2.stage == FactStage::AddStatement
        && f2.object == object && f2.predicate == predicate) by {
        if obj_found is None {
            assert(e2.drop_first() =~= seq![FactEventV::Added(obj_added)]);
            assert(e2.drop_first().drop_first() =~= Seq::<FactEventV>::empty());
        } else {
            assert(e2.drop_first() =~= Seq::<FactEventV>::empty());
        }
    }
    let (f3, xs3) = fact_run(f2, e3);
    assert(e3.drop_first() =~= seq![FactEventV::Linked, FactEventV::Linked]);
    assert(e3.drop_first().drop_first() =~= seq![FactEventV::Linked]);
    assert(e3.drop_first().drop_first().drop_first() =~= Seq::<FactEventV>::empty());
    let subj_adds = if subj_found is None { seq![FactActionV::AddEntity(subject)] } else { Seq::empty() };
    let obj_adds = if obj_found is None { seq![FactActionV::AddEntity(object)] } else { Seq::empty() };
    if subj_found is None {
        assert(e1.drop_first() =~= seq![FactEventV::Added(subj_added)]);
        assert(e1.drop_first().drop_first() =~= Seq::<FactEventV>::empty());
        assert(xs1 =~= subj_adds + seq![FactActionV::FindEntity(object)]);
    } else {
        assert(e1.drop_first() =~= Seq::<FactEventV>::empty());
        assert(xs1 =~= subj_adds + seq![FactActionV::FindEntity(object)]);
    }
    if obj_found is None {
        assert(e2.drop_first() =~= seq![FactEventV::Added(obj_added)]);
        assert(e2.drop_first().drop_first() =~= Seq::<FactEventV>::empty());
        assert(xs2 =~= obj_adds + seq![FactActionV::AddStatement { predicate, object }]);
    } else {
        assert(e2.drop_first() =~= Seq::<FactEventV>::empty());
        assert(xs2 =~= obj_adds + seq![FactActionV::AddStatement { predicate, object }]);
    }
    let (f, actions) = fact_run(f0, e1 + e2 + e3);
    assert(actions =~= subj_adds + seq![FactActionV::FindEntity(object)] + obj_adds + seq![
        FactActionV::AddStatement { predicate, object },
        FactActionV::AddEdge { from_id: s, to_id: stmt_id, label: HAS@ },
        FactActionV::AddEdge { from_id: stmt_id, to_id: o, label: ABOUT@ },
        FactActionV::Stored,
    ]);
}

} // verus!
