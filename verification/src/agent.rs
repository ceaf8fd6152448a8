//! The agent: recall → respond → remember.
//!
//! For each user turn the agent embeds the message, vector-searches HelixDB
//! for the most relevant past memories, asks the chat model to respond using
//! them as context, then stores both the message and the reply as new
//! memories (each with its own embedding) and chains them onto the
//! conversation with `NEXT` edges.
//!
//! The talking to HelixDB and to the chat model is done by the caller: the
//! agent says what to do next (`TurnAction`) and is told what came back
//! (`TurnEvent`).
use vstd::prelude::*;
use crate::db::{HelixClient, MemoryHit, MemoryRow, HitV, hits_view};
use crate::embed::{embed_counts, text_counts, ints};
use crate::llm::Llm;
use vstd::slice::slice_to_vec;

verus! {

/// How many memories to recall per turn.
pub const RECALL_K: i64 = 5;

/// How many `NEXT` edges a thread walk follows at most (a guard against cycles).
pub const THREAD_LIMIT: usize = 1000;

pub struct Agent {
    db: HelixClient,
    llm: Llm,
    /// Id of the most recently stored memory, so each new turn can be chained
    /// onto it with a `NEXT` edge.
    last_id: Option<i64>,
}

impl Agent {
    pub closed spec fn db_spec(&self) -> HelixClient {
        self.db
    }

    pub closed spec fn llm_spec(&self) -> Llm {
        self.llm
    }

    /// The id of the most recently stored memory, if any.
    pub closed spec fn last(&self) -> Option<i64> {
        self.last_id
    }

    /// An agent that has not stored anything yet.
    pub fn new(db: HelixClient, llm: Llm) -> (r: Agent)
        ensures
            r.db_spec() == db,
            r.llm_spec() == llm,
            r.last() is None,
    {
        Agent { db, llm, last_id: None }
    }

    /// The HelixDB client.
    pub fn db(&self) -> (r: &HelixClient)
        ensures
            *r == self.db_spec(),
    {
        &self.db
    }

    /// The chat model settings.
    pub fn llm(&self) -> (r: &Llm)
        ensures
            *r == self.llm_spec(),
    {
        &self.llm
    }

    /// The id of the most recently stored memory, if any.
    pub fn last_id(&self) -> (r: Option<i64>)
        ensures
            r == self.last(),
    {
        self.last_id
    }
}

// ---- One turn -------------------------------------------------------------

/// Where a turn stands.
pub enum TurnStage {
    /// Waiting for the recalled memories.
    Recall,
    /// Waiting for the reply.
    Respond,
    /// Waiting for the id of the stored user message.
    StoreUser,
    /// Waiting for the id of the stored reply.
    StoreReply,
    /// Waiting for the edge from the previous memory to the user message.
    LinkPrev,
    /// Waiting for the edge from the user message to the reply.
    LinkPair,
    /// The turn is over.
    Done,
}

/// A turn in progress.
pub struct Turn {
    msg: String,
    query: Vec<i128>,
    reply: String,
    reply_vec: Vec<i128>,
    user_id: i64,
    bot_id: i64,
    stage: TurnStage,
}

/// What came back from the last action.
pub enum TurnEvent {
    /// The memories the search found, nearest first.
    Recalled(Vec<MemoryHit>),
    /// The reply.
    Replied(String),
    /// The id of the stored memory.
    Stored(i64),
    /// The edge was created.
    Linked,
}

/// What the caller is to do next.
pub enum TurnAction {
    /// Search the `k` memories nearest to the embedding with these counts.
    Search { query: Vec<i128>, k: i64 },
    /// Get the reply to `user_msg` given the recalled memories.
    Respond { user_msg: String, recalled: Vec<MemoryHit> },
    /// Store a memory, with the current timestamp.
    Store { role: String, text: String, embedding: Vec<i128> },
    /// Chain `from_id` to `to_id` with a `NEXT` edge.
    Link { from_id: i64, to_id: i64 },
    /// The turn is over; this is its reply.
    Finish { reply: String },
    /// The event did not answer the last action; the turn is abandoned.
    Unexpected,
}

/// The model of a turn in progress.
pub struct TurnV {
    pub msg: Seq<char>,
    pub query: Seq<int>,
    pub reply: Seq<char>,
    pub reply_vec: Seq<int>,
    pub user_id: i64,
    pub bot_id: i64,
    pub stage: TurnStage,
}

/// The model of an event.
pub enum EventV {
    Recalled(Seq<HitV>),
    Replied(Seq<char>),
    Stored(i64),
    Linked,
}

/// The model of an action.
pub enum ActionV {
    Search { query: Seq<int>, k: i64 },
    Respond { user_msg: Seq<char>, recalled: Seq<HitV> },
    Store { role: Seq<char>, text: Seq<char>, embedding: Seq<int> },
    Link { from_id: i64, to_id: i64 },
    Finish { reply: Seq<char> },
    Unexpected,
}

impl View for Turn {
    type V = TurnV;

    closed spec fn view(&self) -> TurnV {
        TurnV {
            msg: self.msg@,
            query: ints(self.query@),
            reply: self.reply@,
            reply_vec: ints(self.reply_vec@),
            user_id: self.user_id,
            bot_id: self.bot_id,
            stage: self.stage,
        }
    }
}

impl View for TurnEvent {
    type V = EventV;

    open spec fn view(&self) -> EventV {
        match self {
            TurnEvent::Recalled(h) => EventV::Recalled(hits_view(h@)),
            TurnEvent::Replied(r) => EventV::Replied(r@),
            TurnEvent::Stored(id) => EventV::Stored(*id),
            TurnEvent::Linked => EventV::Linked,
        }
    }
}

impl View for TurnAction {
    type V = ActionV;

    open spec fn view(&self) -> ActionV {
        match self {
            TurnAction::Search { query, k } => ActionV::Search { query: ints(query@), k: *k },
            TurnAction::Respond { user_msg, recalled } => ActionV::Respond {
                user_msg: user_msg@,
                recalled: hits_view(recalled@),
            },
            TurnAction::Store { role, text, embedding } => ActionV::Store {
                role: role@,
                text: text@,
                embedding: ints(embedding@),
            },
            TurnAction::Link { from_id, to_id } => ActionV::Link { from_id: *from_id, to_id: *to_id },
            TurnAction::Finish { reply } => ActionV::Finish { reply: reply@ },
            TurnAction::Unexpected => ActionV::Unexpected,
        }
    }
}

/// A turn on `msg` as it starts, and its first action: search with the
/// message's embedding.
pub open spec fn turn_start(msg: Seq<char>) -> (TurnV, ActionV) {
    (
        TurnV {
            msg,
            query: text_counts(msg),
            reply: Seq::empty(),
            reply_vec: Seq::empty(),
            user_id: 0,
            bot_id: 0,
            stage: TurnStage::Recall,
        },
        ActionV::Search { query: text_counts(msg), k: RECALL_K },
    )
}

/// One step of a turn: from the turn, the agent's last memory id and the
/// event, the next turn, the next last memory id, and the next action.
pub open spec fn turn_step(t: TurnV, last: Option<i64>, e: EventV) -> (TurnV, Option<i64>, ActionV) {
    match (t.stage, e) {
        (TurnStage::Recall, EventV::Recalled(hits)) => (
            TurnV { stage: TurnStage::Respond, ..t },
            last,
            ActionV::Respond { user_msg: t.msg, recalled: hits },
        ),
        (TurnStage::Respond, EventV::Replied(reply)) => (
            TurnV { reply, reply_vec: text_counts(reply), stage: TurnStage::StoreUser, ..t },
            last,
            ActionV::Store { role: "user"@, text: t.msg, embedding: t.query },
        ),
        (TurnStage::StoreUser, EventV::Stored(id)) => (
            TurnV { user_id: id, stage: TurnStage::StoreReply, ..t },
            last,
            ActionV::Store { role: "assistant"@, text: t.reply, embedding: t.reply_vec },
        ),
        (TurnStage::StoreReply, EventV::Stored(id)) => match last {
            Some(prev) => (
                TurnV { bot_id: id, stage: TurnStage::LinkPrev, ..t },
                last,
                ActionV::Link { from_id: prev, to_id: t.user_id },
            ),
            None => (
                TurnV { bot_id: id, stage: TurnStage::LinkPair, ..t },
                last,
                ActionV::Link { from_id: t.user_id, to_id: id },
            ),
        },
        (TurnStage::LinkPrev, EventV::Linked) => (
            TurnV { stage: TurnStage::LinkPair, ..t },
            last,
            ActionV::Link { from_id: t.user_id, to_id: t.bot_id },
        ),
        (TurnStage::LinkPair, EventV::Linked) => (
            TurnV { stage: TurnStage::Done, ..t },
            Some(t.bot_id),
            ActionV::Finish { reply: t.reply },
        ),
        _ => (TurnV { stage: TurnStage::Done, ..t }, last, ActionV::Unexpected),
    }
}

fn copy_string(s: &String) -> (r: String)
    ensures
        r@ == s@,
{
    String::from_str(s.as_str())
}

impl Agent {
    /// Starts a turn on `user_msg`.
    pub fn start_turn(&self, user_msg: &str) -> (r: (Turn, TurnAction))
        ensures
            (r.0@, r.1@) == turn_start(user_msg@),
    {
        let query = embed_counts(user_msg);
        let turn = Turn {
            msg: String::from_str(user_msg),
            query: slice_to_vec(query.as_slice()),
            reply: String::new(),
            reply_vec: Vec::new(),
            user_id: 0,
            bot_id: 0,
            stage: TurnStage::Recall,
        };
        proof {
            assert(ints(Seq::<i128>::empty()) =~= Seq::<int>::empty());
        }
        (turn, TurnAction::Search { query, k: RECALL_K })
    }

    /// Moves `turn` on by what came back from its last action, and says what to do next.
    pub fn step_turn(&mut self, turn: &mut Turn, event: TurnEvent) -> (r: TurnAction)
        ensures
            (final(turn)@, final(self).last(), r@) == turn_step(old(turn)@, old(self).last(), event@),
            final(self).db_spec() == old(self).db_spec(),
            final(self).llm_spec() == old(self).llm_spec(),
    {
        match (&turn.stage, event) {
            (TurnStage::Recall, TurnEvent::Recalled(hits)) => {
                turn.stage = TurnStage::Respond;
                TurnAction::Respond { user_msg: copy_string(&turn.msg), recalled: hits }
            },
            (TurnStage::Respond, TurnEvent::Replied(reply)) => {
                let reply_vec = embed_counts(reply.as_str());
                turn.reply = reply;
                turn.reply_vec = reply_vec;
                turn.stage = TurnStage::StoreUser;
                TurnAction::Store {
                    role: String::from_str("user"),
                    text: copy_string(&turn.msg),
                    embedding: slice_to_vec(turn.query.as_slice()),
                }
            },
            (TurnStage::StoreUser, TurnEvent::Stored(id)) => {
                turn.user_id = id;
                turn.stage = TurnStage::StoreReply;
                TurnAction::Store {
                    role: String::from_str("assistant"),
                    text: copy_string(&turn.reply),
                    embedding: slice_to_vec(turn.reply_vec.as_slice()),
                }
            },
            (TurnStage::StoreReply, TurnEvent::Stored(id)) => {
                turn.bot_id = id;
                match self.last_id {
                    Some(prev) => {
                        turn.stage = TurnStage::LinkPrev;
                        TurnAction::Link { from_id: prev, to_id: turn.user_id }
                    },
                    None => {
                        turn.stage = TurnStage::LinkPair;
                        TurnAction::Link { from_id: turn.user_id, to_id: id }
                    },
                }
            },
            (TurnStage::LinkPrev, TurnEvent::Linked) => {
                turn.stage = TurnStage::LinkPair;
                TurnAction::Link { from_id: turn.user_id, to_id: turn.bot_id }
            },
            (TurnStage::LinkPair, TurnEvent::Linked) => {
                turn.stage = TurnStage::Done;
                self.last_id = Some(turn.bot_id);
                TurnAction::Finish { reply: copy_string(&turn.reply) }
            },
            _ => {
                turn.stage = TurnStage::Done;
                TurnAction::Unexpected
            },
        }
    }
}

/// The actions of a turn fed with `events` from turn `t`, and where it ends.
pub open spec fn turn_run(t: TurnV, last: Option<i64>, events: Seq<EventV>) -> (
    TurnV,
    Option<i64>,
    Seq<ActionV>,
)
    decreases events.len(),
{
    if events.len() == 0 {
        (t, last, Seq::empty())
    } else {
        let (t1, last1, a) = turn_step(t, last, events[0]);
        let (t2, last2, rest) = turn_run(t1, last1, events.drop_first());
        (t2, last2, seq![a] + rest)
    }
}

/// The events of a turn that goes as planned: the search finds `hits`, the
/// reply is `reply`, the message and the reply are stored as `user_id` and
/// `bot_id`, and every edge is created.
pub open spec fn turn_events(
    last: Option<i64>,
    hits: Seq<HitV>,
    reply: Seq<char>,
    user_id: i64,
    bot_id: i64,
) -> Seq<EventV> {
    let head = seq![
        EventV::Recalled(hits),
        EventV::Replied(reply),
        EventV::Stored(user_id),
        EventV::Stored(bot_id),
    ];
    if last is Some {
        head + seq![EventV::Linked, EventV::Linked]
    } else {
        head + seq![EventV::Linked]
    }
}

/// The actions of such a turn on `msg`, after its first (the search).
pub open spec fn turn_plan(
    msg: Seq<char>,
    last: Option<i64>,
    hits: Seq<HitV>,
    reply: Seq<char>,
    user_id: i64,
    bot_id: i64,
) -> Seq<ActionV> {
    let head = seq![
        ActionV::Respond { user_msg: msg, recalled: hits },
        ActionV::Store { role: "user"@, text: msg, embedding: text_counts(msg) },
        ActionV::Store { role: "assistant"@, text: reply, embedding: text_counts(reply) },
    ];
    let links = match last {
        Some(prev) => seq![
            ActionV::Link { from_id: prev, to_id: user_id },
            ActionV::Link { from_id: user_id, to_id: bot_id },
        ],
        None => seq![ActionV::Link { from_id: user_id, to_id: bot_id }],
    };
    head + links + seq![ActionV::Finish { reply }]
}

/// A turn does what the agent promises: it searches with the message's
/// embedding for `RECALL_K` memories, asks for a reply given what was
/// recalled, stores the message and then the reply (each with its own
/// embedding), chains the previous memory (if any) to the message and the
/// message to the reply, and returns the reply; the reply's memory becomes
/// the one the next turn chains onto.
pub proof fn lemma_turn_chain(
    msg: Seq<char>,
    last: Option<i64>,
    hits: Seq<HitV>,
    reply: Seq<char>,
    user_id: i64,
    bot_id: i64,
)
    ensures
        turn_start(msg).1 == (ActionV::Search { query: text_counts(msg), k: RECALL_K }),
        ({
            let (t, l, actions) = turn_run(
                turn_start(msg).0,
                last,
                turn_events(last, hits, reply, user_id, bot_id),
            );
            &&& actions == turn_plan(msg, last, hits, reply, user_id, bot_id)
            &&& l == Some(bot_id)
            &&& t.stage == TurnStage::Done
        }),
{
    let events = turn_events(last, hits, reply, user_id, bot_id);
    reveal_with_fuel(turn_run, 7);
    let t0 = turn_start(msg).0;
    let (t1, l1, a1) = turn_step(t0, last, events[0]);
    let (t2, l2, a2) = turn_step(t1, l1, events[1]);
    let (t3, l3, a3) = turn_step(t2, l2, events[2]);
    let (t4, l4, a4) = turn_step(t3, l3, events[3]);
    assert(events.drop_first()[0] == events[1]);
    assert(events.drop_first().drop_first()[0] == events[2]);
    assert(events.drop_first().drop_first().drop_first()[0] == events[3]);
    let e4 = events.drop_first().drop_first().drop_first().drop_first();
    if last is Some {
        assert(e4 =~= seq![EventV::Linked, EventV::Linked]);
        assert(e4.drop_first() =~= seq![EventV::Linked]);
        assert(e4.drop_first().drop_first() =~= Seq::<EventV>::empty());
    } else {
        assert(e4 =~= seq![EventV::Linked]);
        assert(e4.drop_first() =~= Seq::<EventV>::empty());
    }
    let (t, l, actions) = turn_run(t0, last, events);
    assert(actions =~= turn_plan(msg, last, hits, reply, user_id, bot_id));
}

/// The actions of a turn, one by one: search for the 5 memories nearest to the
/// message's embedding; ask for the reply to the message given the memories
/// found; store the message as `user` with its own embedding; store the reply
/// as `assistant` with its own embedding; chain the previous memory (if any)
/// to the message, then the message to the reply; finish with the reply.
pub proof fn lemma_turn_actions(
    msg: Seq<char>,
    last: Option<i64>,
    hits: Seq<HitV>,
    reply: Seq<char>,
    user_id: i64,
    bot_id: i64,
)
    ensures
        turn_start(msg).1 == (ActionV::Search { query: text_counts(msg), k: 5 }),
        ({
            let a = turn_run(turn_start(msg).0, last, turn_events(last, hits, reply, user_id, bot_id)).2;
            &&& a[0] == (ActionV::Respond { user_msg: msg, recalled: hits })
            &&& a[1] == (ActionV::Store { role: "user"@, text: msg, embedding: text_counts(msg) })
            &&& a[2] == (ActionV::Store {
                role: "assistant"@,
                text: reply,
                embedding: text_counts(reply),
            })
            &&& (match last {
                Some(prev) => a.len() == 6 && a[3] == (ActionV::Link { from_id: prev, to_id: user_id })
                    && a[4] == (ActionV::Link { from_id: user_id, to_id: bot_id }),
                None => a.len() == 5 && a[3] == (ActionV::Link { from_id: user_id, to_id: bot_id }),
            })
            &&& a.last() == (ActionV::Finish { reply })
        }),
{
    lemma_turn_chain(msg, last, hits, reply, user_id, bot_id);
}

/// The edges, in order, that a sequence of actions creates.
pub open spec fn links_of(actions: Seq<ActionV>) -> Seq<(i64, i64)>
    decreases actions.len(),
{
    if actions.len() == 0 {
        Seq::empty()
    } else {
        let rest = links_of(actions.drop_first());
        match actions[0] {
            ActionV::Link { from_id, to_id } => seq![(from_id, to_id)] + rest,
            _ => rest,
        }
    }
}

proof fn lemma_links_of_concat(a: Seq<ActionV>, b: Seq<ActionV>)
    ensures
        links_of(a + b) == links_of(a) + links_of(b),
    decreases a.len(),
{
    if a.len() == 0 {
        assert(a + b =~= b);
        assert(links_of(a) + links_of(b) =~= links_of(b));
    } else {
        lemma_links_of_concat(a.drop_first(), b);
        assert((a + b).drop_first() =~= a.drop_first() + b);
        assert((a + b)[0] == a[0]);
        match a[0] {
            ActionV::Link { from_id, to_id } => {
                assert(seq![(from_id, to_id)] + (links_of(a.drop_first()) + links_of(b)) =~= (seq![
                    (from_id, to_id),
                ] + links_of(a.drop_first())) + links_of(b));
            },
            _ => {},
        }
    }
}

/// Two turns on a fresh agent chain the conversation: the first turn stores
/// the message `u1` and reply `b1` and creates `u1 -> b1`; the second stores
/// `u2` and `b2` and creates `b1 -> u2` and `u2 -> b2`; those are all the
/// edges, in that order, and `b2` is the agent's last memory.
pub proof fn lemma_two_turns(
    m1: Seq<char>,
    hits1: Seq<HitV>,
    r1: Seq<char>,
    u1: i64,
    b1: i64,
    m2: Seq<char>,
    hits2: Seq<HitV>,
    r2: Seq<char>,
    u2: i64,
    b2: i64,
)
    ensures
        ({
            let (t1, l1, a1) = turn_run(turn_start(m1).0, None, turn_events(None, hits1, r1, u1, b1));
            let (t2, l2, a2) = turn_run(turn_start(m2).0, l1, turn_events(l1, hits2, r2, u2, b2));
            &&& l1 == Some(b1)
            &&& l2 == Some(b2)
            &&& links_of(a1 + a2) == seq![(u1, b1), (b1, u2), (u2, b2)]
        }),
{
    lemma_turn_chain(m1, None, hits1, r1, u1, b1);
    lemma_turn_chain(m2, Some(b1), hits2, r2, u2, b2);
    let a1 = turn_plan(m1, None, hits1, r1, u1, b1);
    let a2 = turn_plan(m2, Some(b1), hits2, r2, u2, b2);
    lemma_links_of_concat(a1, a2);
    reveal_with_fuel(links_of, 8);
    assert(links_of(a1) =~= seq![(u1, b1)]);
    assert(links_of(a2) =~= seq![(b1, u2), (u2, b2)]);
    assert(links_of(a1) + links_of(a2) =~= seq![(u1, b1), (b1, u2), (u2, b2)]);
}

/// Reading the conversation back: when HelixDB answers the `NEXT` query of
/// each memory of those two turns with the memory linked from it (as stored:
/// role and text) and nothing after `b2`, the thread walked from `u1` reads
/// the first reply, the second message and the second reply, in order.
pub proof fn lemma_two_turns_read_back(
    r1: Seq<char>,
    m2: Seq<char>,
    r2: Seq<char>,
    u1: i64,
    b1: i64,
    u2: i64,
    b2: i64,
    next: spec_fn(i64) -> Seq<RowV>,
)
    requires
        next(u1) == seq![RowV { id: b1, role: "assistant"@, text: r1 }],
        next(b1) == seq![RowV { id: u2, role: "user"@, text: m2 }],
        next(u2) == seq![RowV { id: b2, role: "assistant"@, text: r2 }],
        next(b2).len() == 0,
    ensures
        walk_run(walk_start(u1), next, (THREAD_LIMIT + 1) as nat).lines == seq![
            ("assistant"@, r1),
            ("user"@, m2),
            ("assistant"@, r2),
        ],
{
    lemma_thread_walk(u1, next);
    reveal_with_fuel(chain, 5);
    assert(chain(next, b2, (THREAD_LIMIT - 3) as nat) =~= Seq::empty());
    assert(chain(next, u1, THREAD_LIMIT as nat) =~= seq![
        ("assistant"@, r1),
        ("user"@, m2),
        ("assistant"@, r2),
    ]);
}

/// An event that does not answer the last action ends the turn and leaves the
/// agent's last memory as it was; so does any event after the turn is over.
pub proof fn lemma_turn_unexpected(t: TurnV, last: Option<i64>, e: EventV)
    requires
        turn_step(t, last, e).2 == ActionV::Unexpected,
    ensures
        turn_step(t, last, e).1 == last,
        turn_step(t, last, e).0.stage == TurnStage::Done,
{
}

/// The agent's last memory changes only when a turn completes, and then it
/// becomes the stored reply.
pub proof fn lemma_turn_last(t: TurnV, last: Option<i64>, e: EventV)
    ensures
        turn_step(t, last, e).1 != last ==> (turn_step(t, last, e).1 == Some(t.bot_id)
            && turn_step(t, last, e).2 == (ActionV::Finish { reply: t.reply })),
{
}

// ---- Walking a conversation thread ---------------------------------------------

/// The model of a memory row: its id, role and text.
pub struct RowV {
    pub id: i64,
    pub role: Seq<char>,
    pub text: Seq<char>,
}

/// The models of the rows a `NEXT` query returned.
pub open spec fn rows_view(rows: Seq<MemoryRow>) -> Seq<RowV> {
    rows.map_values(|r: MemoryRow| RowV { id: r.id, role: r.role@, text: r.text@ })
}

/// A walk along the `NEXT` chain, collecting (role, text) in order.
pub struct ThreadWalk {
    next_id: i64,
    steps: usize,
    lines: Vec<(String, String)>,
    done: bool,
}

/// The model of a walk.
pub struct WalkV {
    pub next_id: i64,
    pub steps: nat,
    pub lines: Seq<(Seq<char>, Seq<char>)>,
    pub done: bool,
}

/// The model of collected lines.
pub open spec fn lines_view(lines: Seq<(String, String)>) -> Seq<(Seq<char>, Seq<char>)> {
    lines.map_values(|l: (String, String)| (l.0@, l.1@))
}

impl View for ThreadWalk {
    type V = WalkV;

    closed spec fn view(&self) -> WalkV {
        WalkV {
            next_id: self.next_id,
            steps: self.steps as nat,
            lines: lines_view(self.lines@),
            done: self.done,
        }
    }
}

/// A walk from `start_id` as it starts.
pub open spec fn walk_start(start_id: i64) -> WalkV {
    WalkV { next_id: start_id, steps: 0, lines: Seq::empty(), done: false }
}

/// Whether the walk still asks for the rows after its current memory.
pub open spec fn walk_open(w: WalkV) -> bool {
    !w.done && w.steps < THREAD_LIMIT
}

/// One step of a walk given the rows the `NEXT` query of its current memory
/// returned: the first row, if any, is collected and becomes the current
/// memory; no row ends the walk. A finished walk does not move.
pub open spec fn walk_step(w: WalkV, rows: Seq<RowV>) -> WalkV {
    if !walk_open(w) {
        w
    } else if rows.len() == 0 {
        WalkV { done: true, ..w }
    } else {
        WalkV {
            next_id: rows[0].id,
            steps: w.steps + 1,
            lines: w.lines.push((rows[0].role, rows[0].text)),
            done: false,
        }
    }
}

impl ThreadWalk {
    /// A walk along the `NEXT` chain from the memory `start_id`.
    pub fn new(start_id: i64) -> (r: ThreadWalk)
        ensures
            r@ == walk_start(start_id),
    {
        let r = ThreadWalk { next_id: start_id, steps: 0, lines: Vec::new(), done: false };
        assert(lines_view(r.lines@) =~= Seq::empty());
        r
    }

    /// The memory whose `NEXT` rows the walk needs next, or `None` once it is over.
    pub fn next_query(&self) -> (r: Option<i64>)
        ensures
            r == (if walk_open(self@) { Some(self@.next_id) } else { None }),
    {
        if !self.done && self.steps < THREAD_LIMIT {
            Some(self.next_id)
        } else {
            None
        }
    }

    /// Moves the walk on by the rows the `NEXT` query of its current memory returned.
    pub fn advance(&mut self, rows: Vec<MemoryRow>)
        ensures
            final(self)@ == walk_step(old(self)@, rows_view(rows@)),
    {
        if self.done || self.steps >= THREAD_LIMIT {
            return;
        }
        if rows.len() == 0 {
            self.done = true;
        } else {
            let row = &rows[0];
            let ghost before = self.lines@;
            self.lines.push((copy_string(&row.role), copy_string(&row.text)));
            assert(lines_view(self.lines@) =~= lines_view(before).push((row.role@, row.text@)));
            self.next_id = row.id;
            self.steps = self.steps + 1;
        }
    }

    /// The (role, text) of the memories walked, in order.
    pub fn into_lines(self) -> (r: Vec<(String, String)>)
        ensures
            lines_view(r@) == self@.lines,
    {
        self.lines
    }
}

impl Agent {
    /// Starts walking the `NEXT` chain from `start_id`.
    pub fn start_thread(&self, start_id: i64) -> (r: ThreadWalk)
        ensures
            r@ == walk_start(start_id),
    {
        ThreadWalk::new(start_id)
    }
}

/// The (role, text) of the memories reached by following the first `NEXT`
/// row from `id`, at most `fuel` of them; `next(id)` stands for the rows the
/// `NEXT` query of `id` returns.
pub open spec fn chain(next: spec_fn(i64) -> Seq<RowV>, id: i64, fuel: nat) -> Seq<(Seq<char>, Seq<char>)>
    decreases fuel,
{
    if fuel == 0 || next(id).len() == 0 {
        Seq::empty()
    } else {
        seq![(next(id)[0].role, next(id)[0].text)] + chain(next, next(id)[0].id, (fuel - 1) as nat)
    }
}

/// `n` rounds of a walk against a graph whose `NEXT` queries answer `next`.
pub open spec fn walk_run(w: WalkV, next: spec_fn(i64) -> Seq<RowV>, n: nat) -> WalkV
    decreases n,
{
    if n == 0 {
        w
    } else {
        walk_run(walk_step(w, next(w.next_id)), next, (n - 1) as nat)
    }
}

proof fn lemma_walk_closed(w: WalkV, next: spec_fn(i64) -> Seq<RowV>, n: nat)
    requires
        !walk_open(w),
    ensures
        walk_run(w, next, n) == w,
    decreases n,
{
    if n > 0 {
        lemma_walk_closed(w, next, (n - 1) as nat);
    }
}

proof fn lemma_walk_run(w: WalkV, next: spec_fn(i64) -> Seq<RowV>, n: nat)
    requires
        !w.done,
        w.steps <= THREAD_LIMIT,
    ensures
        walk_run(w, next, n).lines == w.lines + chain(
            next,
            w.next_id,
            if n < THREAD_LIMIT - w.steps { n } else { (THREAD_LIMIT - w.steps) as nat },
        ),
        walk_run(w, next, n).steps <= THREAD_LIMIT,
    decreases n,
{
    let fuel: nat = if n < THREAD_LIMIT - w.steps { n } else { (THREAD_LIMIT - w.steps) as nat };
    if n == 0 {
        assert(w.lines + chain(next, w.next_id, 0) =~= w.lines);
    } else if w.steps == THREAD_LIMIT {
        lemma_walk_closed(w, next, n);
        assert(w.lines + chain(next, w.next_id, 0) =~= w.lines);
    } else {
        let rows = next(w.next_id);
        let w1 = walk_step(w, rows);
        if rows.len() == 0 {
            lemma_walk_closed(w1, next, (n - 1) as nat);
            assert(w.lines + chain(next, w.next_id, fuel) =~= w.lines);
        } else {
            lemma_walk_run(w1, next, (n - 1) as nat);
            let fuel1: nat = if n - 1 < THREAD_LIMIT - w1.steps {
                (n - 1) as nat
            } else {
                (THREAD_LIMIT - w1.steps) as nat
            };
            assert(fuel1 == fuel - 1);
            assert(w1.lines + chain(next, w1.next_id, fuel1) =~= w.lines + chain(
                next,
                w.next_id,
                fuel,
            ));
        }
    }
}

/// Walking a thread from `start_id` yields the conversation chain that
/// follows the first `NEXT` row from memory to memory, in order, stopping
/// where there is none and after `THREAD_LIMIT` memories at most (so a cycle
/// cannot make it run away); after `THREAD_LIMIT + 1` rounds the walk has
/// stopped asking.
pub proof fn lemma_thread_walk(start_id: i64, next: spec_fn(i64) -> Seq<RowV>)
    ensures
        walk_run(walk_start(start_id), next, (THREAD_LIMIT + 1) as nat).lines == chain(
            next,
            start_id,
            THREAD_LIMIT as nat,
        ),
        !walk_open(walk_run(walk_start(start_id), next, (THREAD_LIMIT + 1) as nat)),
        chain(next, start_id, THREAD_LIMIT as nat).len() <= THREAD_LIMIT,
{
    let w0 = walk_start(start_id);
    lemma_walk_run(w0, next, (THREAD_LIMIT + 1) as nat);
    assert(w0.lines + chain(next, start_id, THREAD_LIMIT as nat) =~= chain(
        next,
        start_id,
        THREAD_LIMIT as nat,
    ));
    lemma_walk_closes(w0, next, (THREAD_LIMIT + 1) as nat);
    lemma_chain_len(next, start_id, THREAD_LIMIT as nat);
}

proof fn lemma_chain_len(next: spec_fn(i64) -> Seq<RowV>, id: i64, fuel: nat)
    ensures
        chain(next, id, fuel).len() <= fuel,
    decreases fuel,
{
    if fuel > 0 && next(id).len() > 0 {
        lemma_chain_len(next, next(id)[0].id, (fuel - 1) as nat);
    }
}

/// After `k` rounds, an open walk has taken `k` steps; a walk that has taken
/// more rounds than it has steps left is closed.
proof fn lemma_walk_closes(w: WalkV, next: spec_fn(i64) -> Seq<RowV>, n: nat)
    requires
        w.steps <= THREAD_LIMIT,
        n > THREAD_LIMIT - w.steps,
    ensures
        !walk_open(walk_run(w, next, n)),
    decreases n,
{
    if !walk_open(w) {
        lemma_walk_closed(w, next, n);
    } else {
        let w1 = walk_step(w, next(w.next_id));
        if !walk_open(w1) {
            lemma_walk_closed(w1, next, (n - 1) as nat);
        } else {
            lemma_walk_closes(w1, next, (n - 1) as nat);
        }
    }
}

} // verus!
