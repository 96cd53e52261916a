//! A chat answer: the retrieval settings of a message, the answer stored
//! for it, and the server-sent events of a streamed answer.
use vstd::prelude::*;
use crate::rag::{chunk_references_replaced, replace_chunk_references, RetrievedDocument};
use crate::text::{
    append_chars, append_str, chars_to_string, decimal_i64_chars, decimal_int, replace_all,
    replace_str, str_to_chars,
};

verus! {

/// The number of documents retrieved for a message: the requested number,
/// at least 1, or the default.
pub fn rag_max_documents(requested: Option<i32>, default: usize) -> (r: usize)
    ensures
        r == match requested {
            Some(n) => if n >= 1 {
                n as usize
            } else {
                1
            },
            None => default,
        },
{
    match requested {
        Some(n) => if n >= 1 {
            n as usize
        } else {
            1
        },
        None => default,
    }
}

/// The text of an answer before its chunk references are replaced: the
/// model's reply, or the error it failed with.
pub open spec fn raw_answer(reply: Result<String, String>) -> Seq<char> {
    match reply {
        Ok(a) => a@,
        Err(e) => "Error generating response: "@ + e@,
    }
}

/// The answer stored for a message: the model's reply (or the error it
/// failed with) with "Chunk N" references replaced by document titles.
pub fn answer_content(reply: Result<String, String>, documents: &[RetrievedDocument]) -> (r: String)
    ensures
        r@ == chunk_references_replaced(raw_answer(reply), documents@),
{
    let raw = match reply {
        Ok(a) => a,
        Err(e) => {
            let mut out: Vec<char> = Vec::new();
            append_str(&mut out, "Error generating response: ");
            append_str(&mut out, e.as_str());
            chars_to_string(out.as_slice())
        },
    };
    replace_chunk_references(raw.as_str(), documents)
}

/// The comment that keeps a stream alive.
pub open spec fn heartbeat_text() -> Seq<char> {
    ": heartbeat\n\n"@
}

/// The event that ends a stream with an error; double quotes of the error
/// are escaped with a backslash.
pub open spec fn error_event_text(message_id: i32, error: Seq<char>) -> Seq<char> {
    sse_event(
        "error"@,
        "{\"message_id\":"@ + decimal_int(message_id as int) + ",\"error\":\""@ + replace_all(
            error,
            "\""@,
            "\\\""@,
        ) + "\"}"@,
    )
}

/// The event sent when the answer could not be saved.
pub open spec fn save_failed_event_text(message_id: i32) -> Seq<char> {
    sse_event(
        "error"@,
        "{\"message_id\":"@ + decimal_int(message_id as int) + ",\"error\":\"failed to save message\"}"@,
    )
}

/// The event sent when the answer took too long.
pub open spec fn timeout_event_text(message_id: i32) -> Seq<char> {
    sse_event("timeout"@, "{\"message_id\":"@ + decimal_int(message_id as int) + "}"@)
}

/// The event that opens a stream.
pub fn connected_event() -> (r: String)
    ensures
        r@ == "event: connected\ndata: {\"status\":\"connected\"}\n\n"@,
{
    "event: connected\ndata: {\"status\":\"connected\"}\n\n".to_string()
}

/// The comment sent to keep a stream alive.
pub fn heartbeat_event() -> (r: String)
    ensures
        r@ == heartbeat_text(),
{
    ": heartbeat\n\n".to_string()
}

/// An event with JSON data.
pub open spec fn sse_event(event: Seq<char>, data: Seq<char>) -> Seq<char> {
    "event: "@ + event + "\ndata: "@ + data + "\n\n"@
}

/// Frames an event with its JSON data.
pub fn event_frame(event: &str, data: &str) -> (r: String)
    ensures
        r@ == sse_event(event@, data@),
{
    let mut out: Vec<char> = Vec::new();
    append_str(&mut out, "event: ");
    append_str(&mut out, event);
    append_str(&mut out, "\ndata: ");
    append_str(&mut out, data);
    append_str(&mut out, "\n\n");
    chars_to_string(out.as_slice())
}

/// The event that announces the retrieved documents (given as JSON).
pub fn retrieval_complete_event(message_id: i32, documents_json: &str) -> (r: String)
    ensures
        r@ == sse_event(
            "retrieval_complete"@,
            "{\"message_id\":"@ + decimal_int(message_id as int) + ",\"documents\":"@ + documents_json@
                + "}"@,
        ),
{
    let mut d: Vec<char> = Vec::new();
    append_str(&mut d, "{\"message_id\":");
    append_chars(&mut d, decimal_i64_chars(message_id as i64).as_slice());
    append_str(&mut d, ",\"documents\":");
    append_str(&mut d, documents_json);
    append_str(&mut d, "}");
    let data = chars_to_string(d.as_slice());
    event_frame("retrieval_complete", data.as_str())
}

/// The event that ends a stream with an error; double quotes of the error
/// are escaped with a backslash.
pub fn error_event(message_id: i32, error: &str) -> (r: String)
    ensures
        r@ == error_event_text(message_id, error@),
{
    proof {
        reveal_strlit("\"");
    }
    let e = str_to_chars(error);
    let escaped = replace_str(e.as_slice(), "\"", "\\\"");
    let mut d: Vec<char> = Vec::new();
    append_str(&mut d, "{\"message_id\":");
    append_chars(&mut d, decimal_i64_chars(message_id as i64).as_slice());
    append_str(&mut d, ",\"error\":\"");
    append_chars(&mut d, escaped.as_slice());
    append_str(&mut d, "\"}");
    let data = chars_to_string(d.as_slice());
    event_frame("error", data.as_str())
}

/// The event sent when the answer could not be saved.
pub fn save_failed_event(message_id: i32) -> (r: String)
    ensures
        r@ == save_failed_event_text(message_id),
{
    let mut d: Vec<char> = Vec::new();
    append_str(&mut d, "{\"message_id\":");
    append_chars(&mut d, decimal_i64_chars(message_id as i64).as_slice());
    append_str(&mut d, ",\"error\":\"failed to save message\"}");
    let data = chars_to_string(d.as_slice());
    event_frame("error", data.as_str())
}

/// The event sent when the answer took too long.
pub fn timeout_event(message_id: i32) -> (r: String)
    ensures
        r@ == timeout_event_text(message_id),
{
    let mut d: Vec<char> = Vec::new();
    append_str(&mut d, "{\"message_id\":");
    append_chars(&mut d, decimal_i64_chars(message_id as i64).as_slice());
    append_str(&mut d, "}");
    let data = chars_to_string(d.as_slice());
    event_frame("timeout", data.as_str())
}

/// A streamed answer in progress: the text received so far and its length
/// in bytes.
pub struct AnswerStream {
    accumulated: Vec<char>,
    byte_count: usize,
}

impl AnswerStream {
    /// The text received so far.
    pub closed spec fn text(&self) -> Seq<char> {
        self.accumulated@
    }

    /// The number of bytes received so far.
    pub closed spec fn bytes(&self) -> nat {
        self.byte_count as nat
    }

    /// A stream that has received nothing.
    pub fn new() -> (r: Self)
        ensures
            r.text() == Seq::<char>::empty(),
            r.bytes() == 0,
    {
        AnswerStream { accumulated: Vec::new(), byte_count: 0 }
    }

    /// The number of bytes received so far.
    pub fn byte_count(&self) -> (r: usize)
        ensures
            r == self.bytes(),
    {
        self.byte_count
    }

    /// Receives a piece of the answer; returns whether a progress event is
    /// due: one is sent every 100 bytes, so whenever the count reaches or
    /// passes a multiple of 100.
    pub fn on_chunk(&mut self, chunk: &str) -> (progress: bool)
        requires
            old(self).bytes() + vstd::utf8::encode_utf8(chunk@).len() <= usize::MAX,
        ensures
            final(self).text() == old(self).text() + chunk@,
            final(self).bytes() == old(self).bytes() + vstd::utf8::encode_utf8(chunk@).len(),
            progress == (final(self).bytes() / 100 > old(self).bytes() / 100),
    {
        append_str(&mut self.accumulated, chunk);
        let before = self.byte_count;
        let n = chunk.len();
        self.byte_count = self.byte_count + n;
        self.byte_count / 100 > before / 100
    }

    /// The answer saved and sent when the stream ends: the received text
    /// with its chunk references replaced by document titles.
    pub fn finish(&self, documents: &[RetrievedDocument]) -> (r: String)
        ensures
            r@ == chunk_references_replaced(self.text(), documents@),
    {
        let raw = chars_to_string(self.accumulated.as_slice());
        replace_chunk_references(raw.as_str(), documents)
    }
}

/// Where a streamed answer stands.
#[derive(PartialEq, Eq, Structural, Clone, Copy)]
pub enum ChatPhase {
    /// Receiving the model's reply.
    Streaming,
    /// The reply ended; its answer is being saved.
    Saving,
    /// The stream is over.
    Done,
}

/// What happens to a streamed answer.
pub enum ChatStreamEvent {
    /// The model sent a piece of the answer.
    Chunk(String),
    /// The model's reply could not be started or failed, with the error.
    Failed(String),
    /// The model's reply ended.
    Ended,
    /// Saving the answer succeeded (`true`) or failed.
    Saved(bool),
    /// The heartbeat interval passed.
    Heartbeat,
    /// The answer took too long.
    Timeout,
}

/// `ChatStreamEvent` in terms of character sequences.
pub enum ChatStreamEventView {
    Chunk(Seq<char>),
    Failed(Seq<char>),
    Ended,
    Saved(bool),
    Heartbeat,
    Timeout,
}

/// What the server does in answer to an event.
pub enum ChatStreamAction {
    /// Send a content event carrying this piece of the answer.
    SendContent(String),
    /// Send a progress event with the number of bytes received so far.
    SendProgress(usize),
    /// Send this event text.
    Send(String),
    /// Mark the answer message as failed.
    MarkFailed,
    /// Save this answer as the complete message.
    Save(String),
    /// Send the complete event carrying this saved answer.
    SendComplete(String),
}

/// `ChatStreamAction` in terms of character sequences.
pub enum ChatStreamActionView {
    SendContent(Seq<char>),
    SendProgress(nat),
    Send(Seq<char>),
    MarkFailed,
    Save(Seq<char>),
    SendComplete(Seq<char>),
}

/// The view of an event.
pub open spec fn event_view(e: ChatStreamEvent) -> ChatStreamEventView {
    match e {
        ChatStreamEvent::Chunk(c) => ChatStreamEventView::Chunk(c@),
        ChatStreamEvent::Failed(m) => ChatStreamEventView::Failed(m@),
        ChatStreamEvent::Ended => ChatStreamEventView::Ended,
        ChatStreamEvent::Saved(ok) => ChatStreamEventView::Saved(ok),
        ChatStreamEvent::Heartbeat => ChatStreamEventView::Heartbeat,
        ChatStreamEvent::Timeout => ChatStreamEventView::Timeout,
    }
}

/// The view of an action.
pub open spec fn action_view(a: ChatStreamAction) -> ChatStreamActionView {
    match a {
        ChatStreamAction::SendContent(c) => ChatStreamActionView::SendContent(c@),
        ChatStreamAction::SendProgress(n) => ChatStreamActionView::SendProgress(n as nat),
        ChatStreamAction::Send(t) => ChatStreamActionView::Send(t@),
        ChatStreamAction::MarkFailed => ChatStreamActionView::MarkFailed,
        ChatStreamAction::Save(c) => ChatStreamActionView::Save(c@),
        ChatStreamAction::SendComplete(c) => ChatStreamActionView::SendComplete(c@),
    }
}

/// The views of actions.
pub open spec fn action_views(v: Seq<ChatStreamAction>) -> Seq<ChatStreamActionView> {
    v.map_values(|a: ChatStreamAction| action_view(a))
}

/// A streamed answer: its phase, its message, the text and bytes received,
/// the documents its references point to, and the answer being saved.
pub struct ChatStreamView {
    pub phase: ChatPhase,
    pub message_id: i32,
    pub text: Seq<char>,
    pub bytes: nat,
    pub documents: Seq<RetrievedDocument>,
    pub content: Seq<char>,
}

/// The state after an event.
pub open spec fn chat_stream_next(s: ChatStreamView, e: ChatStreamEventView) -> ChatStreamView {
    match s.phase {
        ChatPhase::Streaming => match e {
            ChatStreamEventView::Chunk(c) => ChatStreamView {
                phase: s.phase,
                message_id: s.message_id,
                text: s.text + c,
                bytes: s.bytes + vstd::utf8::encode_utf8(c).len(),
                documents: s.documents,
                content: s.content,
            },
            ChatStreamEventView::Failed(_) | ChatStreamEventView::Timeout => ChatStreamView {
                phase: ChatPhase::Done,
                ..s
            },
            ChatStreamEventView::Ended => ChatStreamView {
                phase: ChatPhase::Saving,
                content: chunk_references_replaced(s.text, s.documents),
                ..s
            },
            _ => s,
        },
        ChatPhase::Saving => match e {
            ChatStreamEventView::Saved(_) => ChatStreamView { phase: ChatPhase::Done, ..s },
            _ => s,
        },
        ChatPhase::Done => s,
    }
}

/// What the server does in answer to an event. While streaming: a piece is
/// sent on, followed by a progress event whenever the byte count reaches or
/// passes a multiple of 100; a failure or a timeout marks the message failed
/// and ends the stream with its event; a heartbeat is sent on; the end of
/// the reply saves the answer with its chunk references replaced. While
/// saving: success sends the complete event, failure the save error.
/// Anything else is ignored.
pub open spec fn chat_stream_actions(s: ChatStreamView, e: ChatStreamEventView) -> Seq<ChatStreamActionView> {
    match s.phase {
        ChatPhase::Streaming => match e {
            ChatStreamEventView::Chunk(c) => {
                let total = s.bytes + vstd::utf8::encode_utf8(c).len();
                if total / 100 > s.bytes / 100 {
                    seq![ChatStreamActionView::SendContent(c), ChatStreamActionView::SendProgress(total)]
                } else {
                    seq![ChatStreamActionView::SendContent(c)]
                }
            },
            ChatStreamEventView::Failed(m) => seq![
                ChatStreamActionView::MarkFailed,
                ChatStreamActionView::Send(error_event_text(s.message_id, m)),
            ],
            ChatStreamEventView::Timeout => seq![
                ChatStreamActionView::MarkFailed,
                ChatStreamActionView::Send(timeout_event_text(s.message_id)),
            ],
            ChatStreamEventView::Heartbeat => seq![ChatStreamActionView::Send(heartbeat_text())],
            ChatStreamEventView::Ended => seq![
                ChatStreamActionView::Save(chunk_references_replaced(s.text, s.documents)),
            ],
            ChatStreamEventView::Saved(_) => seq![],
        },
        ChatPhase::Saving => match e {
            ChatStreamEventView::Saved(ok) => if ok {
                seq![ChatStreamActionView::SendComplete(s.content)]
            } else {
                seq![ChatStreamActionView::Send(save_failed_event_text(s.message_id))]
            },
            _ => seq![],
        },
        ChatPhase::Done => seq![],
    }
}

/// The state of a streamed answer.
pub struct ChatStreamState {
    phase: ChatPhase,
    message_id: i32,
    answer: AnswerStream,
    documents: Vec<RetrievedDocument>,
    content: String,
}

impl View for ChatStreamState {
    type V = ChatStreamView;

    closed spec fn view(&self) -> ChatStreamView {
        ChatStreamView {
            phase: self.phase,
            message_id: self.message_id,
            text: self.answer.text(),
            bytes: self.answer.bytes(),
            documents: self.documents@,
            content: self.content@,
        }
    }
}

impl ChatStreamState {
    /// While the answer is being saved, it is the received text with its
    /// chunk references replaced.
    pub closed spec fn wf(&self) -> bool {
        self.phase == ChatPhase::Saving ==> self.content@ == chunk_references_replaced(
            self.answer.text(),
            self.documents@,
        )
    }

    /// A stream for message `message_id` whose answer may refer to
    /// `documents`, before anything was received.
    pub fn new(message_id: i32, documents: Vec<RetrievedDocument>) -> (r: Self)
        ensures
            r.wf(),
            r@ == (ChatStreamView {
                phase: ChatPhase::Streaming,
                message_id,
                text: Seq::empty(),
                bytes: 0,
                documents: documents@,
                content: Seq::empty(),
            }),
    {
        ChatStreamState {
            phase: ChatPhase::Streaming,
            message_id,
            answer: AnswerStream::new(),
            documents,
            content: String::new(),
        }
    }
}

/// Takes one event of a streamed answer: updates the state and returns what
/// the server does.
pub fn chat_stream_step(state: &mut ChatStreamState, event: ChatStreamEvent) -> (actions: Vec<ChatStreamAction>)
    requires
        old(state).wf(),
        event matches ChatStreamEvent::Chunk(c) ==> old(state)@.bytes + vstd::utf8::encode_utf8(c@).len()
            <= usize::MAX,
    ensures
        final(state).wf(),
        final(state)@ == chat_stream_next(old(state)@, event_view(event)),
        action_views(actions@) == chat_stream_actions(old(state)@, event_view(event)),
{
    let mut actions: Vec<ChatStreamAction> = Vec::new();
    match state.phase {
        ChatPhase::Streaming => match event {
            ChatStreamEvent::Chunk(c) => {
                let progress = state.answer.on_chunk(c.as_str());
                let total = state.answer.byte_count();
                actions.push(ChatStreamAction::SendContent(c));
                if progress {
                    actions.push(ChatStreamAction::SendProgress(total));
                }
            },
            ChatStreamEvent::Failed(m) => {
                state.phase = ChatPhase::Done;
                actions.push(ChatStreamAction::MarkFailed);
                actions.push(ChatStreamAction::Send(error_event(state.message_id, m.as_str())));
            },
            ChatStreamEvent::Timeout => {
                state.phase = ChatPhase::Done;
                actions.push(ChatStreamAction::MarkFailed);
                actions.push(ChatStreamAction::Send(timeout_event(state.message_id)));
            },
            ChatStreamEvent::Heartbeat => {
                actions.push(ChatStreamAction::Send(heartbeat_event()));
            },
            ChatStreamEvent::Ended => {
                let content = state.answer.finish(state.documents.as_slice());
                state.content = content.clone();
                state.phase = ChatPhase::Saving;
                actions.push(ChatStreamAction::Save(content));
            },
            ChatStreamEvent::Saved(_) => {},
        },
        ChatPhase::Saving => match event {
            ChatStreamEvent::Saved(ok) => {
                state.phase = ChatPhase::Done;
                if ok {
                    actions.push(ChatStreamAction::SendComplete(state.content.clone()));
                } else {
                    actions.push(ChatStreamAction::Send(save_failed_event(state.message_id)));
                }
            },
            _ => {},
        },
        ChatPhase::Done => {},
    }
    assert(action_views(actions@) =~= chat_stream_actions(old(state)@, event_view(event)));
    actions
}

/// A finished stream ignores every further event.
pub proof fn lemma_finished_stream_is_silent(s: ChatStreamView, e: ChatStreamEventView)
    requires
        s.phase == ChatPhase::Done,
    ensures
        chat_stream_next(s, e) == s,
        chat_stream_actions(s, e) == Seq::<ChatStreamActionView>::empty(),
{
}

/// A message of a chat session.
pub struct SessionMessage {
    pub message_id: i32,
    pub role: String,
    pub content: String,
}

/// How many messages of a session come before the first one with
/// `message_id` (all of them when none has it).
pub open spec fn messages_before(msgs: Seq<SessionMessage>, message_id: i32) -> nat
    decreases msgs.len(),
{
    if msgs.len() == 0 || msgs[0].message_id == message_id {
        0
    } else {
        1 + messages_before(msgs.drop_first(), message_id)
    }
}

proof fn lemma_messages_before(msgs: Seq<SessionMessage>, message_id: i32, k: int)
    requires
        0 <= k <= msgs.len(),
        forall|j: int| 0 <= j < k ==> (#[trigger] msgs[j]).message_id != message_id,
        k == msgs.len() || msgs[k].message_id == message_id,
    ensures
        messages_before(msgs, message_id) == k,
    decreases k,
{
    if k > 0 {
        let rest = msgs.drop_first();
        assert forall|j: int| 0 <= j < k - 1 implies (#[trigger] rest[j]).message_id != message_id by {
            assert(rest[j] == msgs[j + 1]);
        }
        if k < msgs.len() {
            assert(rest[k - 1] == msgs[k]);
        }
        lemma_messages_before(rest, message_id, k - 1);
    }
}

/// The message a regenerated answer answers: the last user message among
/// those before the answer's message, if any.
pub fn last_user_message_before(messages: &[SessionMessage], message_id: i32) -> (r: Option<usize>)
    ensures
        r matches Some(i) ==> {
            &&& i < messages_before(messages@, message_id)
            &&& messages@[i as int].role@ == "user"@
            &&& forall|j: int|
                i < j < messages_before(messages@, message_id) ==> (#[trigger] messages@[j]).role@ != "user"@
        },
        r is None ==> forall|j: int|
            0 <= j < messages_before(messages@, message_id) ==> (#[trigger] messages@[j]).role@ != "user"@,
{
    let mut k: usize = 0;
    while k < messages.len() && messages[k].message_id != message_id
        invariant
            k <= messages.len(),
            forall|j: int| 0 <= j < k ==> (#[trigger] messages@[j]).message_id != message_id,
        decreases messages.len() - k,
    {
        k = k + 1;
    }
    proof {
        lemma_messages_before(messages@, message_id, k as int);
    }
    let user = "user".to_string();
    let mut i: usize = k;
    while i > 0
        invariant
            i <= k,
            k == messages_before(messages@, message_id),
            k <= messages.len(),
            user@ == "user"@,
            forall|j: int| i <= j < k ==> (#[trigger] messages@[j]).role@ != "user"@,
        decreases i,
    {
        if messages[i - 1].role == user {
            return Some(i - 1);
        }
        i = i - 1;
    }
    None
}

/// Why an answer cannot be regenerated, as a status and message.
pub open spec fn regenerate_error(
    role: Seq<char>,
    has_user_message: bool,
    stream: bool,
) -> Option<(u16, Seq<char>)> {
    if role != "assistant"@ {
        Some((400, "can only regenerate assistant messages"@))
    } else if !has_user_message {
        Some((400, "no user message found before assistant message"@))
    } else if stream {
        Some((501, "streaming regeneration not yet implemented - use non-streaming for now"@))
    } else {
        None
    }
}

/// Checks that a message can be regenerated at all: only answers can.
pub fn regenerate_role_check(role: &str) -> (r: Result<(), (u16, String)>)
    ensures
        role@ == "assistant"@ ==> r is Ok,
        role@ != "assistant"@ ==> (r matches Err(e) && e.0 == 400 && e.1@
            == "can only regenerate assistant messages"@),
{
    let c = str_to_chars(role);
    if crate::text::chars_eq_str(c.as_slice(), "assistant") {
        Ok(())
    } else {
        Err((400, "can only regenerate assistant messages".to_string()))
    }
}

/// Chooses the question a regenerated answer answers, from the answer's
/// role, the session's messages and whether streaming was asked for:
/// the index of the last user message before the answer, or the error.
pub fn regenerate_question(
    role: &str,
    messages: &[SessionMessage],
    message_id: i32,
    stream: bool,
) -> (r: Result<usize, (u16, String)>)
    ensures
        match regenerate_error(
            role@,
            exists|j: int|
                0 <= j < messages_before(messages@, message_id) && (#[trigger] messages@[j]).role@
                    == "user"@,
            stream,
        ) {
            Some(e) => r matches Err(x) && x.0 == e.0 && x.1@ == e.1,
            None => r matches Ok(i) && i < messages_before(messages@, message_id)
                && messages@[i as int].role@ == "user"@ && forall|j: int|
                i < j < messages_before(messages@, message_id) ==> (#[trigger] messages@[j]).role@
                    != "user"@,
        },
{
    match regenerate_role_check(role) {
        Err(e) => return Err(e),
        Ok(()) => {},
    }
    let found = last_user_message_before(messages, message_id);
    match found {
        None => Err((400, "no user message found before assistant message".to_string())),
        Some(i) => {
            if stream {
                Err((501, "streaming regeneration not yet implemented - use non-streaming for now".to_string()))
            } else {
                Ok(i)
            }
        },
    }
}

} // verus!
