//! The chat model: how a reply is asked for (the prompt and the request body
//! of the OpenAI-compatible Chat Completions API), how its answer is read, and
//! the offline stand-in used when no API key is set.
use vstd::prelude::*;
use crate::db::{MemoryHit, HitV, hits_view};
use crate::json::{Json, JsonV, as_str, get_index, get_key, get_opt, at_opt, lemma_entry_value_at};
use crate::numbers::{decimal, decimal_string};
use crate::text::{is_ws, lemma_all_ws, str_trim, trimmed};

verus! {

/// The Chat Completions endpoint.
pub const API_URL: &'static str = "https://api.groq.com/openai/v1/chat/completions";

/// The model used when none is configured.
pub const DEFAULT_MODEL: &'static str = "llama-3.3-70b-versatile";

/// The reply length limit sent with every request.
pub const MAX_TOKENS: i64 = 1024;

/// The chat model's settings.
pub struct Llm {
    api_key: Option<String>,
    model: String,
}

/// Why a reply could not be had.
pub enum LlmError {
    /// The API answered with a status outside 200..=299 and this message.
    Api { status: u16, message: String },
}

/// How to get the reply to a message.
pub enum ReplyPlan {
    /// No API key is set: this is the reply.
    Offline(String),
    /// Post `body` to `API_URL` with the header `authorization: <authorization>`
    /// (and `content-type: application/json`), then read the answer with
    /// `Llm::read_reply`.
    Request { authorization: String, body: Json },
}

/// The opening of the system prompt.
pub open spec fn preamble() -> Seq<char> {
    "You are a helpful assistant with long-term memory backed by HelixDB. Below are notes recalled from past conversations, most relevant first. Use them when relevant; do not mention them unless useful.\n\n"@
}

/// One line per recalled memory: `- (<role>) <text>`.
pub open spec fn recall_lines(hits: Seq<HitV>) -> Seq<char>
    decreases hits.len(),
{
    if hits.len() == 0 {
        Seq::empty()
    } else {
        recall_lines(hits.drop_last()) + "- ("@ + hits.last().role + ") "@ + hits.last().text
            + "\n"@
    }
}

/// The system prompt: the preamble, then the recalled memories as grounding
/// context, most relevant first.
pub open spec fn system_prompt_v(hits: Seq<HitV>) -> Seq<char> {
    if hits.len() == 0 {
        preamble() + "(no relevant past memories)\n"@
    } else {
        preamble() + recall_lines(hits)
    }
}

/// The offline reply's heading.
pub open spec fn offline_head(user_msg: Seq<char>) -> Seq<char> {
    "[offline mode — set GROQ_API_KEY for real replies]\nYou said: "@ + user_msg + "\n"@
}

/// One line per recalled memory: `  • (<role>, dist <distance>) <text>`.
pub open spec fn offline_lines(hits: Seq<HitV>) -> Seq<char>
    decreases hits.len(),
{
    if hits.len() == 0 {
        Seq::empty()
    } else {
        offline_lines(hits.drop_last()) + "  • ("@ + hits.last().role + ", dist "@
            + hits.last().distance + ") "@ + hits.last().text + "\n"@
    }
}

/// The offline stand-in reply: it echoes the message and reports what was recalled.
pub open spec fn offline_reply_v(user_msg: Seq<char>, hits: Seq<HitV>) -> Seq<char> {
    if hits.len() == 0 {
        offline_head(user_msg) + "I have no related memories yet."@
    } else {
        offline_head(user_msg) + "HelixDB recalled "@ + decimal(hits.len()) + " related memo"@ + (
        if hits.len() == 1 {
            "ry:\n"@
        } else {
            "ries:\n"@
        }) + offline_lines(hits)
    }
}

/// The Chat Completions request body.
pub open spec fn request_body_v(model: Seq<char>, system: Seq<char>, user_msg: Seq<char>) -> JsonV {
    JsonV::Obj(
        seq![
            ("model"@, JsonV::Str(model)),
            ("max_tokens"@, JsonV::Int(MAX_TOKENS as int)),
            ("messages"@, JsonV::Arr(
                seq![
                    JsonV::Obj(
                        seq![("role"@, JsonV::Str("system"@)), ("content"@, JsonV::Str(system))],
                    ),
                    JsonV::Obj(
                        seq![("role"@, JsonV::Str("user"@)), ("content"@, JsonV::Str(user_msg))],
                    ),
                ],
            )),
        ],
    )
}

/// Whether an HTTP status means success (`StatusCode::is_success`: 200..=299).
pub open spec fn is_success(status: u16) -> bool {
    200 <= status <= 299
}

/// The reply read from an answer: the content trimmed, or `[empty response]`
/// when nothing is left.
pub open spec fn reply_text_v(content: Seq<char>) -> Seq<char> {
    if trimmed(content).len() == 0 {
        "[empty response]"@
    } else {
        trimmed(content)
    }
}

/// The answer's `error.message`, when it is a string.
pub open spec fn error_message_v(answer: JsonV) -> Option<Seq<char>> {
    as_str(get_key(get_key(answer, "error"@), "message"@))
}

/// The answer's `choices[0].message.content`, when it is a string.
pub open spec fn content_v(answer: JsonV) -> Option<Seq<char>> {
    as_str(get_key(get_key(get_index(get_key(answer, "choices"@), 0), "message"@), "content"@))
}

/// Every recalled memory becomes one line of the system prompt, in order:
/// with none, the prompt is the preamble and a note that nothing was
/// recalled; with one, the preamble and its line; and one more memory adds
/// exactly its line `- (<role>) <text>` at the end.
pub proof fn lemma_system_prompt_lines(hits: Seq<HitV>, h: HitV)
    ensures
        system_prompt_v(Seq::empty())
            == "You are a helpful assistant with long-term memory backed by HelixDB. Below are notes recalled from past conversations, most relevant first. Use them when relevant; do not mention them unless useful.\n\n(no relevant past memories)\n"@,
        system_prompt_v(seq![h])
            == "You are a helpful assistant with long-term memory backed by HelixDB. Below are notes recalled from past conversations, most relevant first. Use them when relevant; do not mention them unless useful.\n\n"@
            + "- ("@ + h.role + ") "@ + h.text + "\n"@,
        hits.len() > 0 ==> system_prompt_v(hits.push(h)) == system_prompt_v(hits) + "- ("@ + h.role
            + ") "@ + h.text + "\n"@,
{
    reveal_strlit("You are a helpful assistant with long-term memory backed by HelixDB. Below are notes recalled from past conversations, most relevant first. Use them when relevant; do not mention them unless useful.\n\n(no relevant past memories)\n");
    reveal_strlit("You are a helpful assistant with long-term memory backed by HelixDB. Below are notes recalled from past conversations, most relevant first. Use them when relevant; do not mention them unless useful.\n\n");
    reveal_strlit("(no relevant past memories)\n");
    assert(seq![h].drop_last() =~= Seq::<HitV>::empty());
    assert(recall_lines(Seq::<HitV>::empty()) =~= Seq::<char>::empty());
    let pre = preamble();
    let e = "(no relevant past memories)\n"@;
    assert(pre + e =~= "You are a helpful assistant with long-term memory backed by HelixDB. Below are notes recalled from past conversations, most relevant first. Use them when relevant; do not mention them unless useful.\n\n(no relevant past memories)\n"@);
    let line = "- ("@ + h.role + ") "@ + h.text + "\n"@;
    assert(recall_lines(seq![h]) =~= Seq::<char>::empty() + "- ("@ + h.role + ") "@ + h.text
        + "\n"@);
    assert(pre + recall_lines(seq![h]) =~= pre + line);
    if hits.len() > 0 {
        assert(hits.push(h).drop_last() =~= hits);
        assert(hits.push(h).last() == h);
        assert(recall_lines(hits.push(h)) =~= recall_lines(hits) + line);
        assert(pre + recall_lines(hits.push(h)) =~= (pre + recall_lines(hits)) + line);
    }
}

/// The request asks the configured model for at most 1024 tokens, with two
/// messages in this order: the system prompt given, then the user's message.
pub proof fn lemma_request_body_fields(model: Seq<char>, system: Seq<char>, user_msg: Seq<char>)
    ensures
        get_key(request_body_v(model, system, user_msg), "model"@) == JsonV::Str(model),
        get_key(request_body_v(model, system, user_msg), "max_tokens"@) == JsonV::Int(1024),
        get_key(get_index(get_key(request_body_v(model, system, user_msg), "messages"@), 0), "role"@)
            == JsonV::Str("system"@),
        get_key(get_index(get_key(request_body_v(model, system, user_msg), "messages"@), 0), "content"@)
            == JsonV::Str(system),
        get_key(get_index(get_key(request_body_v(model, system, user_msg), "messages"@), 1), "role"@)
            == JsonV::Str("user"@),
        get_key(get_index(get_key(request_body_v(model, system, user_msg), "messages"@), 1), "content"@)
            == JsonV::Str(user_msg),
        get_key(request_body_v(model, system, user_msg), "messages"@)->Arr_0.len() == 2,
{
    reveal_strlit("model");
    reveal_strlit("max_tokens");
    reveal_strlit("messages");
    reveal_strlit("role");
    reveal_strlit("content");
    let ents = request_body_v(model, system, user_msg)->Obj_0;
    assert(ents[0].0.len() != "max_tokens"@.len());
    lemma_entry_value_at(ents, "max_tokens"@, 1);
    assert forall|j: int| 0 <= j < 2 implies #[trigger] ents[j].0 != "messages"@ by {
        assert(ents[j].0.len() != "messages"@.len());
    }
    lemma_entry_value_at(ents, "messages"@, 2);
    let m = ents[2].1->Arr_0;
    assert(m[0]->Obj_0[0].0.len() != "content"@.len());
    lemma_entry_value_at(m[0]->Obj_0, "content"@, 1);
    assert(m[1]->Obj_0[0].0.len() != "content"@.len());
    lemma_entry_value_at(m[1]->Obj_0, "content"@, 1);
}

/// The offline reply echoes the message; with no memories it says so, and
/// otherwise it says how many were recalled and lists every one of them, in
/// order, on a line `  • (<role>, dist <distance>) <text>`.
pub proof fn lemma_offline_reply_lines(user_msg: Seq<char>, hits: Seq<HitV>, h: HitV)
    ensures
        offline_reply_v(user_msg, Seq::empty()) == "[offline mode — set GROQ_API_KEY for real replies]\nYou said: "@ + user_msg
            + "\nI have no related memories yet."@,
        offline_reply_v(user_msg, seq![h]) == "[offline mode — set GROQ_API_KEY for real replies]\nYou said: "@ + user_msg
            + "\nHelixDB recalled 1 related memory:\n"@ + "  • ("@ + h.role + ", dist "@
            + h.distance + ") "@ + h.text + "\n"@,
        hits.len() > 0 ==> offline_reply_v(user_msg, hits.push(h)) == "[offline mode — set GROQ_API_KEY for real replies]\nYou said: "@ + user_msg
            + "\nHelixDB recalled "@ + decimal(hits.len() + 1) + " related memories:\n"@
            + offline_lines(hits) + "  • ("@ + h.role + ", dist "@ + h.distance + ") "@ + h.text
            + "\n"@,
        offline_lines(Seq::empty()) == Seq::<char>::empty(),
        offline_lines(hits.push(h)) == offline_lines(hits) + "  • ("@ + h.role + ", dist "@
            + h.distance + ") "@ + h.text + "\n"@,
{
    reveal_strlit("[offline mode — set GROQ_API_KEY for real replies]\nYou said: ");
    reveal_strlit("\n");
    reveal_strlit("I have no related memories yet.");
    reveal_strlit("\nI have no related memories yet.");
    reveal_strlit("HelixDB recalled ");
    reveal_strlit(" related memo");
    reveal_strlit("ry:\n");
    reveal_strlit("ries:\n");
    reveal_strlit("\nHelixDB recalled 1 related memory:\n");
    reveal_strlit("\nHelixDB recalled ");
    reveal_strlit(" related memories:\n");
    let head = "[offline mode — set GROQ_API_KEY for real replies]\nYou said: "@;
    let line = "  • ("@ + h.role + ", dist "@ + h.distance + ") "@ + h.text + "\n"@;
    assert(offline_lines(Seq::<HitV>::empty()) =~= Seq::<char>::empty());
    assert(hits.push(h).drop_last() =~= hits);
    assert(offline_lines(hits.push(h)) =~= offline_lines(hits) + line);
    assert(offline_head(user_msg) =~= head + user_msg + "\n"@);
    assert(offline_head(user_msg) + "I have no related memories yet."@ =~= head + user_msg
        + "\nI have no related memories yet."@);
    assert(seq![h].drop_last() =~= Seq::<HitV>::empty());
    assert(offline_lines(seq![h]) =~= Seq::<char>::empty() + line);
    assert(decimal(1) =~= seq!['1']);
    assert(offline_reply_v(user_msg, seq![h]) =~= head + user_msg
        + "\nHelixDB recalled 1 related memory:\n"@ + line);
    if hits.len() > 0 {
        assert(offline_reply_v(user_msg, hits.push(h)) =~= head + user_msg + "\nHelixDB recalled "@
            + decimal(hits.len() + 1) + " related memories:\n"@ + offline_lines(hits) + line);
    }
}

/// A status counts as success exactly when it is in 200..=299, and the reply
/// read from an answer is its content with the surrounding whitespace removed,
/// or `[empty response]` when nothing is left.
pub proof fn lemma_reply_text(status: u16, content: Seq<char>)
    ensures
        is_success(status) <==> (200 <= status && status <= 299),
        trimmed(content).len() > 0 ==> reply_text_v(content) == trimmed(content),
        trimmed(content).len() == 0 ==> reply_text_v(content) == "[empty response]"@,
{
}

/// Replies are asked of Groq's Chat Completions endpoint, with the model
/// `llama-3.3-70b-versatile` unless another is configured.
pub proof fn lemma_llm_defaults()
    ensures
        API_URL@ == "https://api.groq.com/openai/v1/chat/completions"@,
        DEFAULT_MODEL@ == "llama-3.3-70b-versatile"@,
{
}

/// An answer whose content is nothing but whitespace reads as `[empty response]`.
pub proof fn lemma_blank_reply(content: Seq<char>)
    requires
        forall|i: int| 0 <= i < content.len() ==> is_ws(#[trigger] content[i]),
    ensures
        reply_text_v(content) == "[empty response]"@,
{
    lemma_all_ws(content);
}

/// The system prompt for a reply given the recalled memories.
pub fn system_prompt(recalled: &[MemoryHit]) -> (r: String)
    ensures
        r@ == system_prompt_v(hits_view(recalled@)),
{
    let mut system = String::from_str(
        "You are a helpful assistant with long-term memory backed by HelixDB. Below are notes recalled from past conversations, most relevant first. Use them when relevant; do not mention them unless useful.\n\n",
    );
    if recalled.len() == 0 {
        system.append("(no relevant past memories)\n");
    } else {
        let ghost hits = hits_view(recalled@);
        let mut i: usize = 0;
        while i < recalled.len()
            invariant
                i <= recalled@.len(),
                hits == hits_view(recalled@),
                system@ == preamble() + recall_lines(hits.take(i as int)),
            decreases recalled@.len() - i,
        {
            proof {
                assert(hits.take(i + 1).drop_last() =~= hits.take(i as int));
            }
            let m = &recalled[i];
            system.append("- (");
            system.append(m.role.as_str());
            system.append(") ");
            system.append(m.text.as_str());
            system.append("\n");
            i = i + 1;
            assert(system@ =~= preamble() + recall_lines(hits.take(i as int)));
        }
        assert(hits.take(i as int) =~= hits);
    }
    system
}

/// The deterministic stand-in reply when no API key is set: it still shows
/// what HelixDB recalled, so the memory loop is visible offline.
pub fn offline_reply(user_msg: &str, recalled: &[MemoryHit]) -> (r: String)
    ensures
        r@ == offline_reply_v(user_msg@, hits_view(recalled@)),
{
    let mut out = String::from_str("[offline mode — set GROQ_API_KEY for real replies]\nYou said: ");
    out.append(user_msg);
    out.append("\n");
    if recalled.len() == 0 {
        out.append("I have no related memories yet.");
    } else {
        out.append("HelixDB recalled ");
        let n = decimal_string(recalled.len() as u128);
        out.append(n.as_str());
        out.append(" related memo");
        out.append(if recalled.len() == 1 { "ry:\n" } else { "ries:\n" });
        let ghost hits = hits_view(recalled@);
        let ghost head = out@;
        let mut i: usize = 0;
        while i < recalled.len()
            invariant
                i <= recalled@.len(),
                hits == hits_view(recalled@),
                out@ == head + offline_lines(hits.take(i as int)),
            decreases recalled@.len() - i,
        {
            proof {
                assert(hits.take(i + 1).drop_last() =~= hits.take(i as int));
            }
            let m = &recalled[i];
            out.append("  • (");
            out.append(m.role.as_str());
            out.append(", dist ");
            out.append(m.distance.as_str());
            out.append(") ");
            out.append(m.text.as_str());
            out.append("\n");
            i = i + 1;
            assert(out@ =~= head + offline_lines(hits.take(i as int)));
        }
        assert(hits.take(i as int) =~= hits);
    }
    out
}

impl Llm {
    pub closed spec fn key_view(&self) -> Option<Seq<char>> {
        match &self.api_key {
            Some(k) => Some(k@),
            None => None,
        }
    }

    pub closed spec fn model_view(&self) -> Seq<char> {
        self.model@
    }

    /// The settings from what the environment holds: the API key counts only
    /// when set and non-empty; the model defaults to `DEFAULT_MODEL` when unset.
    pub fn new(api_key: Option<String>, model: Option<String>) -> (r: Llm)
        ensures
            r.key_view() == (match api_key {
                Some(k) => if k@.len() > 0 { Some(k@) } else { None },
                None => None,
            }),
            r.model_view() == (match model {
                Some(m) => m@,
                None => DEFAULT_MODEL@,
            }),
    {
        let api_key = match api_key {
            Some(k) => if k.as_str().is_empty() { None } else { Some(k) },
            None => None,
        };
        let model = match model {
            Some(m) => m,
            None => String::from_str(DEFAULT_MODEL),
        };
        Llm { api_key, model }
    }

    /// Whether replies come from the API (an API key is set).
    pub fn online(&self) -> (b: bool)
        ensures
            b == self.key_view().is_some(),
    {
        self.api_key.is_some()
    }

    /// The configured model.
    pub fn model(&self) -> (r: &str)
        ensures
            r@ == self.model_view(),
    {
        self.model.as_str()
    }

    /// The Chat Completions request body for `user_msg` with `system` as the system prompt.
    pub fn request_body(&self, system: &str, user_msg: &str) -> (r: Json)
        ensures
            r.model() == request_body_v(self.model_view(), system@, user_msg@),
    {
        Json::obj3(
            "model",
            Json::str(self.model.as_str()),
            "max_tokens",
            Json::Int(MAX_TOKENS),
            "messages",
            Json::arr2(
                Json::obj2("role", Json::str("system"), "content", Json::str(system)),
                Json::obj2("role", Json::str("user"), "content", Json::str(user_msg)),
            ),
        )
    }

    /// How to get the reply to `user_msg` given the recalled memories: the
    /// offline reply when no key is set, else the API request, with the
    /// recalled memories as grounding context in the system prompt.
    pub fn plan_reply(&self, user_msg: &str, recalled: &[MemoryHit]) -> (r: ReplyPlan)
        ensures
            match r {
                ReplyPlan::Offline(text) => self.key_view() is None && text@ == offline_reply_v(
                    user_msg@,
                    hits_view(recalled@),
                ),
                ReplyPlan::Request { authorization, body } => self.key_view() matches Some(k)
                    && authorization@ == "Bearer "@ + k && body.model() == request_body_v(
                    self.model_view(),
                    system_prompt_v(hits_view(recalled@)),
                    user_msg@,
                ),
            },
    {
        match &self.api_key {
            None => ReplyPlan::Offline(offline_reply(user_msg, recalled)),
            Some(key) => {
                let system = system_prompt(recalled);
                let mut authorization = String::from_str("Bearer ");
                authorization.append(key.as_str());
                let body = self.request_body(system.as_str(), user_msg);
                ReplyPlan::Request { authorization, body }
            },
        }
    }

    /// Reads the API's answer: with a status outside 200..=299 it is an error
    /// carrying the answer's `error.message` (or `unknown error`); otherwise the
    /// reply is `choices[0].message.content` trimmed (absent counts as empty),
    /// and `[empty response]` when that leaves nothing.
    pub fn read_reply(status: u16, error_message: Option<&str>, content: Option<&str>) -> (r:
        Result<String, LlmError>)
        ensures
            !is_success(status) ==> (r matches Err(LlmError::Api { status: s, message }) && s
                == status && message@ == (match error_message {
                Some(m) => m@,
                None => "unknown error"@,
            })),
            is_success(status) ==> (r matches Ok(text) && text@ == reply_text_v(
                match content {
                    Some(c) => c@,
                    None => Seq::empty(),
                },
            )),
    {
        if !(200 <= status && status <= 299) {
            let message = match error_message {
                Some(m) => String::from_str(m),
                None => String::from_str("unknown error"),
            };
            return Err(LlmError::Api { status, message });
        }
        let raw = match content {
            Some(c) => c,
            None => "",
        };
        proof {
            if content is None {
                reveal_strlit("");
            }
        }
        let text = str_trim(raw);
        if text.is_empty() {
            Ok(String::from_str("[empty response]"))
        } else {
            Ok(String::from_str(text))
        }
    }

    /// Reads the API's answer, given its status and its JSON body (see `read_reply`).
    pub fn read_answer(status: u16, answer: &Json) -> (r: Result<String, LlmError>)
        ensures
            !is_success(status) ==> (r matches Err(LlmError::Api { status: s, message }) && s
                == status && message@ == (match error_message_v(answer.model()) {
                Some(m) => m,
                None => "unknown error"@,
            })),
            is_success(status) ==> (r matches Ok(text) && text@ == reply_text_v(
                match content_v(answer.model()) {
                    Some(c) => c,
                    None => Seq::empty(),
                },
            )),
    {
        let error_message = match get_opt(answer.get("error"), "message") {
            Some(j) => j.as_str(),
            None => None,
        };
        let content = match get_opt(get_opt(at_opt(answer.get("choices"), 0), "message"), "content") {
            Some(j) => j.as_str(),
            None => None,
        };
        Llm::read_reply(status, error_message, content)
    }
}

} // verus!
