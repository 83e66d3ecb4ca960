//! The chat task's checks and the events that report its progress.
use vstd::prelude::*;
use vstd::string::*;
use crate::llm::chat::{ChatCompletionResponse, ChatMessage};
use crate::text::{
    decimal, is_blank, lemma_decimal_injective, opt_view, owned, push_decimal, str_is_blank,
};

verus! {

broadcast use vstd::string::group_string_axioms;

/// A chat request from the front end: the whole conversation so far.
pub struct ChatRequest {
    pub messages: Vec<ChatMessage>,
}

/// One progress event of an agent task, as the front end's task bar reads it.
pub struct AgentStreamEvent {
    pub task_id: String,
    pub agent_id: String,
    pub kind: String,
    pub content: Option<String>,
    pub detail: Option<String>,
}

pub open spec fn empty_task_id_error() -> Seq<char> {
    "任务标识不能为空"@
}

pub open spec fn no_messages_error() -> Seq<char> {
    "聊天消息不能为空"@
}

pub open spec fn system_message_error() -> Seq<char> {
    "前端不能提交 system 消息"@
}

/// Ends the front end's wait for a chat task: the task identifier must not
/// be blank.
pub fn cancel_chat_task(task_id: String) -> (r: Result<(), String>)
    ensures
        is_blank(task_id@) ==> (r matches Err(m) && m@ == empty_task_id_error()),
        !is_blank(task_id@) ==> r is Ok,
{
    if str_is_blank(task_id.as_str()) {
        return Err(owned("任务标识不能为空"));
    }
    Ok(())
}

/// Some message of the conversation has the system role.
pub open spec fn has_system_message(messages: Seq<ChatMessage>) -> bool {
    exists|i: int| 0 <= i < messages.len() && (#[trigger] messages[i]).role@ == "system"@
}

/// A chat request must carry messages, none of them a system message.
pub fn help_validate_request(request: &ChatRequest) -> (r: Result<(), String>)
    ensures
        request.messages.len() == 0 ==> (r matches Err(m) && m@ == no_messages_error()),
        request.messages.len() > 0 && has_system_message(request.messages@) ==> (r matches Err(m)
            && m@ == system_message_error()),
        request.messages.len() > 0 && !has_system_message(request.messages@) ==> r is Ok,
{
    if request.messages.len() == 0 {
        return Err(owned("聊天消息不能为空"));
    }
    let system = owned("system");
    for i in 0..request.messages.len()
        invariant
            system@ == "system"@,
            forall|k: int| 0 <= k < i ==> (#[trigger] request.messages@[k]).role@ != "system"@,
    {
        if request.messages[i].role == system {
            return Err(owned("前端不能提交 system 消息"));
        }
    }
    Ok(())
}

/// Hands out the stamps of chat task identifiers. A stamp is the task's
/// start time in milliseconds since the Unix epoch; only when that reading
/// was already handed out (two tasks in one millisecond, or a clock set
/// back onto a used reading) does the task get the stamp after the greatest
/// one handed out, so that no two tasks share an identifier.
pub struct TaskIdGenerator {
    issued: Vec<u128>,
    greatest: Option<u128>,
}

/// The stamps handed out so far, and the greatest of them.
pub struct TaskStamps {
    pub stamps: Set<u128>,
    pub greatest: Option<u128>,
}

impl View for TaskIdGenerator {
    type V = TaskStamps;

    closed spec fn view(&self) -> TaskStamps {
        TaskStamps {
            stamps: Set::new(|s: u128| self.issued@.contains(s)),
            greatest: self.greatest,
        }
    }
}

impl TaskIdGenerator {
    #[verifier::type_invariant]
    spec fn greatest_bounds_issued(&self) -> bool {
        forall|i: int|
            0 <= i < self.issued.len() ==> (self.greatest matches Some(g) && #[trigger] self.issued@[i]
                <= g)
    }

    /// A generator that has handed out nothing yet.
    pub fn new() -> (r: Self)
        ensures
            r@.stamps == Set::<u128>::empty(),
            r@.greatest is None,
            stamps_well_formed(r@),
    {
        let r = TaskIdGenerator { issued: Vec::new(), greatest: None };
        assert(r@.stamps =~= Set::<u128>::empty());
        r
    }

    /// Whether a stamp can be handed out for a task started at `now`.
    pub fn can_issue(&self, now: u128) -> (b: bool)
        ensures
            b == can_issue_after(self@, now),
    {
        let used = self.has_issued(now);
        match self.greatest {
            Some(g) => !used || g < u128::MAX,
            None => !used,
        }
    }

    fn has_issued(&self, stamp: u128) -> (b: bool)
        ensures
            b == self@.stamps.contains(stamp),
    {
        let mut i: usize = 0;
        while i < self.issued.len()
            invariant
                i <= self.issued.len(),
                forall|k: int| 0 <= k < i ==> self.issued@[k] != stamp,
            decreases self.issued.len() - i,
        {
            if self.issued[i] == stamp {
                assert(self.issued@.contains(stamp));
                return true;
            }
            i = i + 1;
        }
        false
    }
}

/// Every stamp handed out is at most the greatest one recorded.
pub open spec fn stamps_well_formed(v: TaskStamps) -> bool {
    forall|s: u128| #[trigger] v.stamps.contains(s) ==> (v.greatest matches Some(g) && s <= g)
}

/// A stamp can be handed out at `now`: the reading is unused, or the stamp
/// after the greatest one fits in `u128`.
pub open spec fn can_issue_after(v: TaskStamps, now: u128) -> bool {
    !v.stamps.contains(now) || (v.greatest matches Some(g) && g < u128::MAX)
}

/// The stamp handed out at time `now`: the reading itself when it was not
/// handed out before, else the stamp after the greatest one.
pub open spec fn issued_stamp(v: TaskStamps, now: u128) -> int {
    if !v.stamps.contains(now) {
        now as int
    } else {
        match v.greatest {
            Some(g) => g + 1,
            None => now as int,
        }
    }
}

/// The generator's record after handing out the stamp for `now`.
pub open spec fn after_issue(v: TaskStamps, now: u128) -> TaskStamps {
    let s = issued_stamp(v, now);
    TaskStamps {
        stamps: v.stamps.insert(s as u128),
        greatest: Some(
            match v.greatest {
                Some(g) => if g >= s {
                    g
                } else {
                    s as u128
                },
                None => s as u128,
            },
        ),
    }
}

/// The identifier for a stamp.
pub open spec fn task_id_for(stamp: int) -> Seq<char> {
    "chat-task-"@ + decimal(stamp as nat)
}

/// The identifier of a chat task started at the given time, in
/// milliseconds since the Unix epoch: `chat-task-` and the task's stamp,
/// which is the reading unless the reading was handed out before.
pub fn help_create_task_id(generator: &mut TaskIdGenerator, timestamp_millis: u128) -> (r: String)
    requires
        can_issue_after(old(generator)@, timestamp_millis),
    ensures
        final(generator)@ == after_issue(old(generator)@, timestamp_millis),
        r@ == task_id_for(issued_stamp(old(generator)@, timestamp_millis)),
        !old(generator)@.stamps.contains(issued_stamp(old(generator)@, timestamp_millis) as u128),
        stamps_well_formed(final(generator)@),
{
    proof {
        use_type_invariant(&*generator);
    }
    let ghost before = generator@;
    let ghost before_issued = generator.issued@;
    let used = generator.has_issued(timestamp_millis);
    let stamp = if !used {
        timestamp_millis
    } else {
        match generator.greatest {
            Some(g) => g + 1,
            None => timestamp_millis,
        }
    };
    assert(!before.stamps.contains(stamp)) by {
        if used {
            if generator.issued@.contains(stamp) {
                let k = choose|k: int| 0 <= k < generator.issued.len() && generator.issued@[k] == stamp;
                assert(generator.issued@[k] <= generator.greatest->0);
            }
        }
    }
    let new_greatest = match generator.greatest {
        Some(g) => if g >= stamp {
            g
        } else {
            stamp
        },
        None => stamp,
    };
    let mut issued: Vec<u128> = Vec::new();
    std::mem::swap(&mut issued, &mut generator.issued);
    generator.greatest = Some(new_greatest);
    let ghost old_issued = issued@;
    issued.push(stamp);
    assert forall|i: int| 0 <= i < issued.len() implies issued@[i] <= new_greatest by {
        if i < old_issued.len() {
            assert(old_issued[i] == issued@[i]);
        }
    }
    assert(old_issued == before_issued);
    assert(issued@ == before_issued.push(stamp));
    generator.issued = issued;
    assert forall|t: u128| #[trigger] generator@.stamps.contains(t) == before.stamps.insert(stamp).contains(t) by {
        if before_issued.contains(t) {
            let k = choose|k: int| 0 <= k < before_issued.len() && before_issued[k] == t;
            assert(generator.issued@[k] == t);
        }
        if t == stamp {
            assert(generator.issued@[before_issued.len() as int] == t);
        }
        if generator.issued@.contains(t) {
            let k = choose|k: int| 0 <= k < generator.issued.len() && generator.issued@[k] == t;
            if k < before_issued.len() {
                assert(before_issued[k] == t);
            }
        }
    }
    assert(generator@.stamps =~= before.stamps.insert(stamp));
    assert(stamps_well_formed(generator@)) by {
        assert forall|s: u128| #[trigger] generator@.stamps.contains(s) implies (
        generator@.greatest matches Some(g) && s <= g) by {
            let k = choose|k: int| 0 <= k < generator.issued.len() && generator.issued@[k] == s;
            assert(generator.issued@[k] <= new_greatest);
        }
    }
    let mut id = owned("chat-task-");
    push_decimal(&mut id, stamp);
    id
}

/// A progress event of the chat agent.
pub fn help_build_event(
    task_id: &str,
    kind: &str,
    content: Option<String>,
    detail: Option<&str>,
) -> (r: AgentStreamEvent)
    ensures
        r.task_id@ == task_id@,
        r.agent_id@ == "chat"@,
        r.kind@ == kind@,
        r.content == content,
        opt_view(r.detail) == (match detail {
            Some(d) => Some(d@),
            None => None::<Seq<char>>,
        }),
{
    AgentStreamEvent {
        task_id: owned(task_id),
        agent_id: owned("chat"),
        kind: owned(kind),
        content,
        detail: match detail {
            Some(d) => Some(owned(d)),
            None => None,
        },
    }
}

/// The text of the first answer of a reply, if it has one.
pub open spec fn first_answer(response: ChatCompletionResponse) -> Option<Seq<char>> {
    if response.choices.len() > 0 {
        opt_view(response.choices@[0].message.content)
    } else {
        None
    }
}

/// The assistant's text in the first answer of a reply.
pub fn help_extract_response(response: &ChatCompletionResponse) -> (r: Option<String>)
    ensures
        opt_view(r) == first_answer(*response),
{
    if response.choices.len() == 0 {
        return None;
    }
    match &response.choices[0].message.content {
        Some(c) => Some(c.clone()),
        None => None,
    }
}

/// The event sent when a chat task has been accepted.
pub fn help_started_event(task_id: &str) -> (r: AgentStreamEvent)
    ensures
        r.task_id@ == task_id@,
        r.agent_id@ == "chat"@,
        r.kind@ == "started"@,
        r.content is None,
        opt_view(r.detail) == Some("正在准备聊天 Agent"@),
{
    help_build_event(task_id, "started", None, Some("正在准备聊天 Agent"))
}

/// The event sent when the chat agent has its configuration and starts
/// working on the answer.
pub fn help_thinking_event(task_id: &str) -> (r: AgentStreamEvent)
    ensures
        r.task_id@ == task_id@,
        r.agent_id@ == "chat"@,
        r.kind@ == "thinking"@,
        r.content is None,
        opt_view(r.detail) == Some("聊天 Agent 正在思考"@),
{
    help_build_event(task_id, "thinking", None, Some("聊天 Agent 正在思考"))
}

/// The event that closes a chat task: the first answer's text when the
/// agent answered, the error when it failed.
pub fn help_finish_event(task_id: &str, result: Result<ChatCompletionResponse, String>) -> (r:
    AgentStreamEvent)
    ensures
        r.task_id@ == task_id@,
        r.agent_id@ == "chat"@,
        r.detail is None,
        match result {
            Ok(response) => r.kind@ == "completed"@ && opt_view(r.content) == first_answer(
                response,
            ),
            Err(e) => r.kind@ == "error"@ && r.content == Some(e),
        },
{
    match result {
        Ok(response) => help_build_event(task_id, "completed", help_extract_response(&response), None),
        Err(error) => help_build_event(task_id, "error", Some(error), None),
    }
}

/// Where a chat task stands: accepted (its started event sent), thinking
/// (its configuration read and the model asked), or finished (its closing
/// event sent).
#[derive(Clone, Copy)]
pub enum ChatTaskPhase {
    Started,
    Thinking,
    Finished,
}

/// What the task's worker reports: the configuration was read, the model
/// answered, or a step failed with this message.
pub enum ChatTaskOutcome {
    ConfigLoaded,
    Answered(ChatCompletionResponse),
    Failed(String),
}

/// The phase after an outcome. An outcome that does not fit the phase (an
/// answer before the configuration, anything after the end) changes nothing.
pub open spec fn next_phase(phase: ChatTaskPhase, outcome: ChatTaskOutcome) -> ChatTaskPhase {
    match (phase, outcome) {
        (ChatTaskPhase::Started, ChatTaskOutcome::ConfigLoaded) => ChatTaskPhase::Thinking,
        (ChatTaskPhase::Started, ChatTaskOutcome::Failed(_)) => ChatTaskPhase::Finished,
        (ChatTaskPhase::Thinking, ChatTaskOutcome::Answered(_)) => ChatTaskPhase::Finished,
        (ChatTaskPhase::Thinking, ChatTaskOutcome::Failed(_)) => ChatTaskPhase::Finished,
        _ => phase,
    }
}

/// The kind of the event that an outcome sends in a phase, if any.
pub open spec fn event_kind(phase: ChatTaskPhase, outcome: ChatTaskOutcome) -> Option<Seq<char>> {
    match (phase, outcome) {
        (ChatTaskPhase::Started, ChatTaskOutcome::ConfigLoaded) => Some("thinking"@),
        (ChatTaskPhase::Started, ChatTaskOutcome::Failed(_)) => Some("error"@),
        (ChatTaskPhase::Thinking, ChatTaskOutcome::Answered(_)) => Some("completed"@),
        (ChatTaskPhase::Thinking, ChatTaskOutcome::Failed(_)) => Some("error"@),
        _ => None,
    }
}

/// The event that an outcome sends, in full.
pub open spec fn step_event(
    task_id: Seq<char>,
    phase: ChatTaskPhase,
    outcome: ChatTaskOutcome,
    event: AgentStreamEvent,
) -> bool {
    &&& event_kind(phase, outcome) == Some(event.kind@)
    &&& event.task_id@ == task_id
    &&& event.agent_id@ == "chat"@
    &&& match outcome {
        ChatTaskOutcome::ConfigLoaded => event.content is None && opt_view(event.detail) == Some(
            "聊天 Agent 正在思考"@,
        ),
        ChatTaskOutcome::Answered(response) => opt_view(event.content) == first_answer(response)
            && event.detail is None,
        ChatTaskOutcome::Failed(e) => event.content == Some(e) && event.detail is None,
    }
}

/// One step of a chat task: the phase after the outcome, and the event to
/// send for it.
pub fn help_chat_task_step(task_id: &str, phase: ChatTaskPhase, outcome: ChatTaskOutcome) -> (r: (
    ChatTaskPhase,
    Option<AgentStreamEvent>,
))
    ensures
        r.0 == next_phase(phase, outcome),
        match event_kind(phase, outcome) {
            None => r.1 is None,
            Some(_) => r.1 matches Some(e) && step_event(task_id@, phase, outcome, e),
        },
{
    match (phase, outcome) {
        (ChatTaskPhase::Started, ChatTaskOutcome::ConfigLoaded) => (
            ChatTaskPhase::Thinking,
            Some(help_thinking_event(task_id)),
        ),
        (ChatTaskPhase::Started, ChatTaskOutcome::Failed(e)) => (
            ChatTaskPhase::Finished,
            Some(help_finish_event(task_id, Err(e))),
        ),
        (ChatTaskPhase::Thinking, ChatTaskOutcome::Answered(response)) => (
            ChatTaskPhase::Finished,
            Some(help_finish_event(task_id, Ok(response))),
        ),
        (ChatTaskPhase::Thinking, ChatTaskOutcome::Failed(e)) => (
            ChatTaskPhase::Finished,
            Some(help_finish_event(task_id, Err(e))),
        ),
        (p, _) => (p, None),
    }
}

/// A chat task that was accepted: its identifier, its phase and the event
/// that announces it.
pub struct StartedChatTask {
    pub task_id: String,
    pub phase: ChatTaskPhase,
    pub event: AgentStreamEvent,
}

/// Accepts a chat request: checks it, hands out the task's identifier and
/// makes the started event. A refused request takes no identifier.
pub fn help_start_chat_task(
    generator: &mut TaskIdGenerator,
    request: &ChatRequest,
    timestamp_millis: u128,
) -> (r: Result<StartedChatTask, String>)
    requires
        can_issue_after(old(generator)@, timestamp_millis),
    ensures
        request.messages.len() == 0 ==> (r matches Err(m) && m@ == no_messages_error()),
        request.messages.len() > 0 && has_system_message(request.messages@) ==> (r matches Err(m)
            && m@ == system_message_error()),
        r is Err ==> final(generator)@ == old(generator)@,
        request.messages.len() > 0 && !has_system_message(request.messages@) ==> (r matches Ok(t)
            && final(generator)@ == after_issue(old(generator)@, timestamp_millis)
            && t.task_id@ == task_id_for(issued_stamp(old(generator)@, timestamp_millis))
            && t.phase == ChatTaskPhase::Started && t.event.task_id@ == t.task_id@
            && t.event.agent_id@ == "chat"@ && t.event.kind@ == "started"@
            && t.event.content is None && opt_view(t.event.detail) == Some(
            "正在准备聊天 Agent"@,
        )),
{
    help_validate_request(request)?;
    let task_id = help_create_task_id(generator, timestamp_millis);
    let event = help_started_event(task_id.as_str());
    Ok(StartedChatTask { task_id, phase: ChatTaskPhase::Started, event })
}

/// The kinds of the events that a series of outcomes sends from a phase.
pub open spec fn task_events(phase: ChatTaskPhase, outcomes: Seq<ChatTaskOutcome>) -> Seq<Seq<char>>
    decreases outcomes.len(),
{
    if outcomes.len() == 0 {
        seq![]
    } else {
        let rest = task_events(next_phase(phase, outcomes[0]), outcomes.drop_first());
        match event_kind(phase, outcomes[0]) {
            Some(k) => seq![k] + rest,
            None => rest,
        }
    }
}

/// A closing event: the answer or the error.
pub open spec fn is_closing(kind: Seq<char>) -> bool {
    kind == "completed"@ || kind == "error"@
}

/// A finished task sends nothing more.
pub proof fn lemma_finished_task_is_silent(outcomes: Seq<ChatTaskOutcome>)
    ensures
        task_events(ChatTaskPhase::Finished, outcomes) == Seq::<Seq<char>>::empty(),
    decreases outcomes.len(),
{
    if outcomes.len() > 0 {
        lemma_finished_task_is_silent(outcomes.drop_first());
    }
}

/// A thinking task sends at most one more event, and that one closes it.
pub proof fn lemma_thinking_task_closes_once(outcomes: Seq<ChatTaskOutcome>)
    ensures
        task_events(ChatTaskPhase::Thinking, outcomes).len() <= 1,
        task_events(ChatTaskPhase::Thinking, outcomes).len() == 1 ==> is_closing(
            task_events(ChatTaskPhase::Thinking, outcomes)[0],
        ),
    decreases outcomes.len(),
{
    if outcomes.len() > 0 {
        let o = outcomes[0];
        let rest = outcomes.drop_first();
        match o {
            ChatTaskOutcome::ConfigLoaded => lemma_thinking_task_closes_once(rest),
            _ => {
                lemma_finished_task_is_silent(rest);
                assert(task_events(ChatTaskPhase::Thinking, outcomes) =~= seq![
                    event_kind(ChatTaskPhase::Thinking, o)->0,
                ]);
            },
        }
    }
}

/// After its started event, a chat task sends at most two events: at most
/// one thinking event, then at most one closing event (the answer or the
/// error), and nothing after the closing event.
pub proof fn lemma_chat_task_event_order(outcomes: Seq<ChatTaskOutcome>)
    ensures
        ({
            let events = task_events(ChatTaskPhase::Started, outcomes);
            &&& events.len() <= 2
            &&& events.len() == 2 ==> events[0] == "thinking"@ && is_closing(events[1])
            &&& events.len() == 1 ==> events[0] == "thinking"@ || is_closing(events[0])
        }),
    decreases outcomes.len(),
{
    if outcomes.len() > 0 {
        let o = outcomes[0];
        let rest = outcomes.drop_first();
        match o {
            ChatTaskOutcome::ConfigLoaded => {
                lemma_thinking_task_closes_once(rest);
                let t = task_events(ChatTaskPhase::Thinking, rest);
                assert(task_events(ChatTaskPhase::Started, outcomes) =~= seq!["thinking"@] + t);
            },
            ChatTaskOutcome::Failed(_) => {
                lemma_finished_task_is_silent(rest);
                assert(task_events(ChatTaskPhase::Started, outcomes) =~= seq!["error"@]);
            },
            ChatTaskOutcome::Answered(_) => {
                lemma_chat_task_event_order(rest);
            },
        }
    }
}

/// The stamps handed out, in order, for tasks started at the given times,
/// from the record `v`.
pub open spec fn issued_stamps(v: TaskStamps, times: Seq<u128>) -> Seq<int>
    decreases times.len(),
{
    if times.len() == 0 {
        seq![]
    } else {
        seq![issued_stamp(v, times[0])] + issued_stamps(after_issue(v, times[0]), times.drop_first())
    }
}

/// Every stamp of the series can be handed out in turn.
pub open spec fn all_can_issue(v: TaskStamps, times: Seq<u128>) -> bool
    decreases times.len(),
{
    times.len() == 0 || (can_issue_after(v, times[0]) && all_can_issue(
        after_issue(v, times[0]),
        times.drop_first(),
    ))
}

/// A reading that was not handed out before is the task's own stamp: the
/// identifier carries the clock reading.
pub proof fn lemma_fresh_reading_is_kept(v: TaskStamps, now: u128)
    requires
        !v.stamps.contains(now),
    ensures
        issued_stamp(v, now) == now,
        task_id_for(issued_stamp(v, now)) == "chat-task-"@ + decimal(now as nat),
{
}

/// The stamp handed out was not handed out before.
pub proof fn lemma_issued_stamp_is_fresh(v: TaskStamps, now: u128)
    requires
        stamps_well_formed(v),
        can_issue_after(v, now),
    ensures
        !v.stamps.contains(issued_stamp(v, now) as u128),
        0 <= issued_stamp(v, now) <= u128::MAX,
        stamps_well_formed(after_issue(v, now)),
{
    let s = issued_stamp(v, now);
    if v.stamps.contains(now) {
        let g = v.greatest->0;
        assert(s == g + 1);
        if v.stamps.contains(s as u128) {
            assert(s as u128 <= g);
        }
    }
    let w = after_issue(v, now);
    assert forall|t: u128| #[trigger] w.stamps.contains(t) implies (w.greatest matches Some(g)
        && t <= g) by {
        if t != s as u128 {
            assert(v.stamps.contains(t));
        }
    }
}

/// Along any series of tasks, each stamp is new: none was handed out
/// before the series, and no two of the series are equal.
pub proof fn lemma_issued_stamps_distinct(v: TaskStamps, times: Seq<u128>)
    requires
        stamps_well_formed(v),
        all_can_issue(v, times),
    ensures
        issued_stamps(v, times).len() == times.len(),
        forall|k: int|
            0 <= k < times.len() ==> 0 <= #[trigger] issued_stamps(v, times)[k] <= u128::MAX
                && !v.stamps.contains(issued_stamps(v, times)[k] as u128),
        forall|i: int, j: int|
            0 <= i < j < times.len() ==> #[trigger] issued_stamps(v, times)[i]
                != #[trigger] issued_stamps(v, times)[j],
    decreases times.len(),
{
    if times.len() > 0 {
        let now = times[0];
        let w = after_issue(v, now);
        let rest = times.drop_first();
        let s = issued_stamp(v, now);
        lemma_issued_stamp_is_fresh(v, now);
        lemma_issued_stamps_distinct(w, rest);
        let all = issued_stamps(v, times);
        let tail = issued_stamps(w, rest);
        assert(all == seq![s] + tail);
        assert forall|k: int| 0 <= k < times.len() implies 0 <= #[trigger] all[k] <= u128::MAX
            && !v.stamps.contains(all[k] as u128) by {
            if k > 0 {
                assert(all[k] == tail[k - 1]);
                assert(!w.stamps.contains(tail[k - 1] as u128));
            }
        }
        assert forall|i: int, j: int| 0 <= i < j < times.len() implies #[trigger] all[i]
            != #[trigger] all[j] by {
            assert(all[j] == tail[j - 1]);
            if i == 0 {
                assert(!w.stamps.contains(tail[j - 1] as u128));
                assert(w.stamps.contains(s as u128));
            } else {
                assert(all[i] == tail[i - 1]);
            }
        }
    }
}

/// Chat tasks with different stamps get different identifiers.
pub proof fn lemma_task_ids_differ(a: u128, b: u128)
    requires
        a != b,
    ensures
        task_id_for(a as int) != task_id_for(b as int),
{
    let p = "chat-task-"@;
    let x = p + decimal(a as nat);
    let y = p + decimal(b as nat);
    if x == y {
        assert(x.subrange(p.len() as int, x.len() as int) =~= decimal(a as nat));
        assert(y.subrange(p.len() as int, y.len() as int) =~= decimal(b as nat));
        lemma_decimal_injective(a as nat, b as nat);
    }
}

/// No two chat tasks get the same identifier: the identifiers of any
/// series of tasks differ pairwise, whatever the clock reads.
pub proof fn lemma_task_ids_unique(v: TaskStamps, times: Seq<u128>, i: int, j: int)
    requires
        stamps_well_formed(v),
        all_can_issue(v, times),
        0 <= i < j < times.len(),
    ensures
        task_id_for(issued_stamps(v, times)[i]) != task_id_for(issued_stamps(v, times)[j]),
{
    lemma_issued_stamps_distinct(v, times);
    let a = issued_stamps(v, times)[i];
    let b = issued_stamps(v, times)[j];
    lemma_task_ids_differ(a as u128, b as u128);
}

/// A system message anywhere in the conversation, first, last or in
/// between, makes it a conversation with a system message, and only such a
/// message does.
pub proof fn lemma_system_message_anywhere(messages: Seq<ChatMessage>, i: int)
    requires
        0 <= i < messages.len(),
        messages[i].role@ == "system"@,
    ensures
        has_system_message(messages),
{
}

/// A conversation without a system message has none at any position.
pub proof fn lemma_no_system_message(messages: Seq<ChatMessage>)
    requires
        !has_system_message(messages),
    ensures
        forall|i: int| 0 <= i < messages.len() ==> (#[trigger] messages[i]).role@ != "system"@,
{
}

/// Adding messages before or after a conversation with a system message
/// never makes it acceptable; adding messages without one never makes an
/// acceptable conversation refused.
pub proof fn lemma_system_message_extension(
    before: Seq<ChatMessage>,
    messages: Seq<ChatMessage>,
    after: Seq<ChatMessage>,
)
    ensures
        has_system_message(messages) ==> has_system_message(before + messages + after),
        !has_system_message(before) && !has_system_message(messages) && !has_system_message(after)
            ==> !has_system_message(before + messages + after),
{
    let all = before + messages + after;
    if has_system_message(messages) {
        let i = choose|i: int| 0 <= i < messages.len() && (#[trigger] messages[i]).role@ == "system"@;
        assert(all[before.len() + i] == messages[i]);
    }
    if !has_system_message(before) && !has_system_message(messages) && !has_system_message(after) {
        assert forall|k: int| 0 <= k < all.len() implies (#[trigger] all[k]).role@ != "system"@ by {
            if k < before.len() {
                assert(all[k] == before[k]);
            } else if k < before.len() + messages.len() {
                assert(all[k] == messages[k - before.len()]);
            } else {
                assert(all[k] == after[k - before.len() - messages.len()]);
            }
        }
    }
}

} // verus!
