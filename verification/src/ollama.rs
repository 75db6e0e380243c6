//! The chat backend: its messages and requests, the address of its chat
//! endpoint, and how its answers are read.

use crate::json::{absent_at, bool_at, object_at, parsed_nodes, text_at, JsonDocument, Nodes};
use crate::text::{str_eq, trim, trim_end_char, trimmed, without_trailing};
use vstd::prelude::*;
use vstd::string::*;

verus! {

/// Who speaks in a message sent to the backend.
#[derive(Debug, Clone, Copy, PartialEq, Eq, Structural)]
pub enum OllamaRole {
    System,
    User,
    Assistant,
}

/// One message of a request or an answer.
#[derive(Debug)]
pub struct OllamaMessage {
    pub role: OllamaRole,
    pub content: String,
}

/// `OllamaMessage` with its content as a sequence of characters.
pub ghost struct OllamaMessageView {
    pub role: OllamaRole,
    pub content: Seq<char>,
}

impl View for OllamaMessage {
    type V = OllamaMessageView;

    open spec fn view(&self) -> OllamaMessageView {
        OllamaMessageView { role: self.role, content: self.content@ }
    }
}

impl DeepView for OllamaMessage {
    type V = OllamaMessageView;

    open spec fn deep_view(&self) -> OllamaMessageView {
        self@
    }
}

impl Clone for OllamaMessage {
    fn clone(&self) -> (r: Self)
        ensures
            r == *self,
    {
        OllamaMessage { role: self.role, content: self.content.clone() }
    }
}

/// A copy of a list of messages.
pub fn clone_messages(messages: &Vec<OllamaMessage>) -> (r: Vec<OllamaMessage>)
    ensures
        r.deep_view() == messages.deep_view(),
{
    let mut out: Vec<OllamaMessage> = Vec::new();
    let n = messages.len();
    let mut i: usize = 0;
    while i < n
        invariant
            n == messages@.len(),
            i <= n,
            out.deep_view() == messages.deep_view().subrange(0, i as int),
        decreases n - i,
    {
        let ghost before = out.deep_view();
        let m = messages[i].clone();
        out.push(m);
        assert(out.deep_view() =~= before.push(m@));
        i = i + 1;
    }
    out
}

/// A chat request.
#[derive(Debug)]
pub struct OllamaChatReq {
    pub model: String,
    pub messages: Vec<OllamaMessage>,
    pub stream: bool,
}

/// `OllamaChatReq` as a mathematical value.
pub ghost struct OllamaChatReqView {
    pub model: Seq<char>,
    pub messages: Seq<OllamaMessageView>,
    pub stream: bool,
}

impl View for OllamaChatReq {
    type V = OllamaChatReqView;

    open spec fn view(&self) -> OllamaChatReqView {
        OllamaChatReqView {
            model: self.model@,
            messages: self.messages.deep_view(),
            stream: self.stream,
        }
    }
}

/// The answer to a request that does not stream.
#[derive(Debug)]
pub struct OllamaChatResp {
    pub message: OllamaMessage,
}

/// One line of a streamed answer.
#[derive(Debug)]
pub struct OllamaChatStreamResp {
    pub message: Option<OllamaMessage>,
    pub done: Option<bool>,
}

/// `OllamaChatStreamResp` as a mathematical value.
pub ghost struct OllamaChatStreamRespView {
    pub message: Option<OllamaMessageView>,
    pub done: Option<bool>,
}

impl View for OllamaChatStreamResp {
    type V = OllamaChatStreamRespView;

    open spec fn view(&self) -> OllamaChatStreamRespView {
        OllamaChatStreamRespView { message: self.message.deep_view(), done: self.done }
    }
}

/// The address of the chat endpoint under a base address: the base
/// without trailing slashes, then `/api/chat`.
pub open spec fn chat_endpoint(base_url: Seq<char>) -> Seq<char> {
    without_trailing(base_url, '/') + "/api/chat"@
}

/// The address of the chat endpoint under a base address.
pub fn chat_url(base_url: &str) -> (r: String)
    ensures
        r@ == chat_endpoint(base_url@),
{
    let mut url = trim_end_char(base_url, '/');
    url.append("/api/chat");
    url
}

/// The member `message` of a document: an object whose member `role` is
/// one of `system`, `user` and `assistant`, and whose member `content` is
/// a text.
pub open spec fn top_message_in(nodes: Nodes) -> Option<OllamaMessageView> {
    if object_at(nodes, "/message"@) {
        match (text_at(nodes, "/message/role"@), text_at(nodes, "/message/content"@)) {
            (Some(role), Some(content)) => if role == "system"@ {
                Some(OllamaMessageView { role: OllamaRole::System, content })
            } else if role == "user"@ {
                Some(OllamaMessageView { role: OllamaRole::User, content })
            } else if role == "assistant"@ {
                Some(OllamaMessageView { role: OllamaRole::Assistant, content })
            } else {
                None
            },
            _ => None,
        }
    } else {
        None
    }
}

/// Reads the member `message` of a document.
fn message_from_document(doc: &JsonDocument) -> (r: Option<OllamaMessage>)
    ensures
        r.deep_view() == top_message_in(doc@),
{
    if !doc.is_object("/message") {
        return None;
    }
    let role_name = match doc.text("/message/role") {
        Some(t) => t,
        None => { return None; },
    };
    let content = match doc.text("/message/content") {
        Some(t) => t,
        None => { return None; },
    };
    if str_eq(role_name.as_str(), "system") {
        Some(OllamaMessage { role: OllamaRole::System, content })
    } else if str_eq(role_name.as_str(), "user") {
        Some(OllamaMessage { role: OllamaRole::User, content })
    } else if str_eq(role_name.as_str(), "assistant") {
        Some(OllamaMessage { role: OllamaRole::Assistant, content })
    } else {
        None
    }
}

/// Why an answer of the backend could not be used.
#[derive(Debug)]
pub enum OllamaError {
    /// The backend answered with a status that is no success.
    Status { status: String, body: String },
    /// The answer is not the document that was expected.
    BadResponse,
    /// A line of a streamed answer is not the document that was expected.
    BadStreamLine,
}

/// `OllamaError` with its texts as sequences of characters.
pub ghost enum OllamaErrorView {
    Status { status: Seq<char>, body: Seq<char> },
    BadResponse,
    BadStreamLine,
}

impl View for OllamaError {
    type V = OllamaErrorView;

    open spec fn view(&self) -> OllamaErrorView {
        match self {
            OllamaError::Status { status, body } => OllamaErrorView::Status {
                status: status@,
                body: body@,
            },
            OllamaError::BadResponse => OllamaErrorView::BadResponse,
            OllamaError::BadStreamLine => OllamaErrorView::BadStreamLine,
        }
    }
}

impl OllamaErrorView {
    /// The message shown for the error.
    pub open spec fn message(self) -> Seq<char> {
        match self {
            OllamaErrorView::Status { status, body } => "ollama error "@ + status + ": "@ + body,
            OllamaErrorView::BadResponse => "failed to parse ollama response"@,
            OllamaErrorView::BadStreamLine => "failed to parse ollama stream json"@,
        }
    }
}

impl OllamaError {
    /// The message shown for the error.
    pub fn message(&self) -> (r: String)
        ensures
            r@ == self@.message(),
    {
        match self {
            OllamaError::Status { status, body } => {
                let mut s = String::from_str("ollama error ");
                s.append(status.as_str());
                s.append(": ");
                s.append(body.as_str());
                s
            },
            OllamaError::BadResponse => String::from_str("failed to parse ollama response"),
            OllamaError::BadStreamLine => String::from_str("failed to parse ollama stream json"),
        }
    }
}

/// What the body of an answer that does not stream holds: the message of
/// a document that has one.
pub open spec fn chat_reply_of(body: Seq<char>) -> Option<OllamaMessageView> {
    match parsed_nodes(body) {
        Some(nodes) => if object_at(nodes, Seq::empty()) {
            top_message_in(nodes)
        } else {
            None
        },
        None => None,
    }
}

/// What an answer that does not stream comes to.
pub open spec fn chat_outcome(success: bool, status: Seq<char>, body: Seq<char>) -> Result<
    OllamaMessageView,
    OllamaErrorView,
> {
    if !success {
        Err(OllamaErrorView::Status { status, body })
    } else {
        match chat_reply_of(body) {
            Some(m) => Ok(m),
            None => Err(OllamaErrorView::BadResponse),
        }
    }
}

/// The view of the result of `chat`.
pub open spec fn chat_result_view(r: Result<OllamaChatResp, OllamaError>) -> Result<
    OllamaMessageView,
    OllamaErrorView,
> {
    match r {
        Ok(resp) => Ok(resp.message@),
        Err(e) => Err(e@),
    }
}

/// Reads the message out of the parsed body of an answer.
pub fn chat_reply_from_document(doc: &JsonDocument) -> (r: Option<OllamaMessage>)
    ensures
        r.deep_view() == (if object_at(doc@, Seq::empty()) {
            top_message_in(doc@)
        } else {
            None
        }),
{
    if !doc.is_object("") {
        proof {
            reveal_strlit("");
            assert(""@ =~= Seq::<char>::empty());
        }
        return None;
    }
    proof {
        reveal_strlit("");
        assert(""@ =~= Seq::<char>::empty());
    }
    message_from_document(doc)
}

/// Judges the answer to a request that does not stream: `success` and
/// `status` are the HTTP status as the transport reports it, `body` the
/// text that came with it.
pub fn chat(success: bool, status: &str, body: &str) -> (r: Result<OllamaChatResp, OllamaError>)
    ensures
        chat_result_view(r) == chat_outcome(success, status@, body@),
{
    if !success {
        return Err(
            OllamaError::Status { status: String::from_str(status), body: String::from_str(body) },
        );
    }
    match JsonDocument::parse(body) {
        Some(doc) => match chat_reply_from_document(&doc) {
            Some(message) => Ok(OllamaChatResp { message }),
            None => Err(OllamaError::BadResponse),
        },
        None => Err(OllamaError::BadResponse),
    }
}

/// What one line of a streamed answer holds, where it is an object whose
/// member `message`, if there is one, is a message, and whose member
/// `done`, if there is one, is a truth value.
pub open spec fn stream_resp_in(nodes: Nodes) -> Option<OllamaChatStreamRespView> {
    if !object_at(nodes, Seq::empty()) {
        None
    } else if !absent_at(nodes, "/message"@) && top_message_in(nodes) is None {
        None
    } else if !absent_at(nodes, "/done"@) && bool_at(nodes, "/done"@) is None {
        None
    } else {
        Some(
            OllamaChatStreamRespView {
                message: if absent_at(nodes, "/message"@) {
                    None
                } else {
                    top_message_in(nodes)
                },
                done: bool_at(nodes, "/done"@),
            },
        )
    }
}

/// Reads one parsed line of a streamed answer.
pub fn stream_resp_from_document(doc: &JsonDocument) -> (r: Option<OllamaChatStreamResp>)
    ensures
        match r {
            Some(resp) => stream_resp_in(doc@) == Some(resp@),
            None => stream_resp_in(doc@) is None,
        },
{
    proof {
        reveal_strlit("");
        assert(""@ =~= Seq::<char>::empty());
    }
    if !doc.is_object("") {
        return None;
    }
    let message = if doc.is_absent("/message") {
        None
    } else {
        match message_from_document(doc) {
            Some(m) => Some(m),
            None => { return None; },
        }
    };
    let done = if doc.is_absent("/done") {
        None
    } else {
        match doc.boolean("/done") {
            Some(b) => Some(b),
            None => { return None; },
        }
    };
    Some(OllamaChatStreamResp { message, done })
}

/// What a line of a streamed answer asks of the reader.
#[derive(Debug)]
pub enum StreamLine {
    /// Nothing: the line is blank, or carries neither text nor the end.
    Skip,
    /// A piece of the answer, and whether the answer ends with it.
    Chunk { delta: String, done: bool },
    /// The line is no line of a streamed answer.
    Invalid,
}

/// `StreamLine` with its text as a sequence of characters.
pub ghost enum StreamLineView {
    Skip,
    Chunk { delta: Seq<char>, done: bool },
    Invalid,
}

impl View for StreamLine {
    type V = StreamLineView;

    open spec fn view(&self) -> StreamLineView {
        match self {
            StreamLine::Skip => StreamLineView::Skip,
            StreamLine::Chunk { delta, done } => StreamLineView::Chunk {
                delta: delta@,
                done: *done,
            },
            StreamLine::Invalid => StreamLineView::Invalid,
        }
    }
}

/// What a decoded line asks of the reader: its text, empty where it has
/// no message, and its end mark, false where it has none; nothing where
/// the text is empty and the end mark false.
pub open spec fn chunk_of(resp: OllamaChatStreamRespView) -> StreamLineView {
    let delta = match resp.message {
        Some(m) => m.content,
        None => Seq::<char>::empty(),
    };
    let done = match resp.done {
        Some(b) => b,
        None => false,
    };
    if delta.len() > 0 || done {
        StreamLineView::Chunk { delta, done }
    } else {
        StreamLineView::Skip
    }
}

/// What a line of a streamed answer asks of the reader.
pub open spec fn stream_line_of(line: Seq<char>) -> StreamLineView {
    if trimmed(line).len() == 0 {
        StreamLineView::Skip
    } else {
        match parsed_nodes(trimmed(line)) {
            Some(nodes) => match stream_resp_in(nodes) {
                Some(resp) => chunk_of(resp),
                None => StreamLineView::Invalid,
            },
            None => StreamLineView::Invalid,
        }
    }
}

/// Turns a decoded line into what it asks of the reader.
pub fn stream_chunk(resp: OllamaChatStreamResp) -> (r: StreamLine)
    ensures
        r@ == chunk_of(resp@),
{
    let delta = match resp.message {
        Some(m) => m.content,
        None => String::new(),
    };
    let done = match resp.done {
        Some(b) => b,
        None => false,
    };
    if delta.as_str().unicode_len() > 0 || done {
        StreamLine::Chunk { delta, done }
    } else {
        StreamLine::Skip
    }
}

/// Reads one line of a streamed answer.
pub fn stream_line(line: &str) -> (r: StreamLine)
    ensures
        r@ == stream_line_of(line@),
{
    let t = trim(line);
    if t.as_str().unicode_len() == 0 {
        return StreamLine::Skip;
    }
    match JsonDocument::parse(t.as_str()) {
        Some(doc) => match stream_resp_from_document(&doc) {
            Some(resp) => stream_chunk(resp),
            None => StreamLine::Invalid,
        },
        None => StreamLine::Invalid,
    }
}

/// What the reader of a streamed answer does with a line.
#[derive(Debug)]
pub enum ReadStep {
    /// Nothing: the line is blank, or carries neither text nor the end.
    Skip,
    /// Deliver a piece of the answer, and with `done` the end of it.
    Deliver { delta: String, done: bool },
    /// The read has failed on this line.
    Fail { error: OllamaError },
    /// Nothing, and no line is read any more: the answer has ended, or
    /// the read has failed, before this line.
    Stop,
}

/// `ReadStep` with its text as a sequence of characters.
pub ghost enum ReadStepView {
    Skip,
    Deliver { delta: Seq<char>, done: bool },
    Fail { error: OllamaErrorView },
    Stop,
}

impl View for ReadStep {
    type V = ReadStepView;

    open spec fn view(&self) -> ReadStepView {
        match self {
            ReadStep::Skip => ReadStepView::Skip,
            ReadStep::Deliver { delta, done } => ReadStepView::Deliver {
                delta: delta@,
                done: *done,
            },
            ReadStep::Fail { error } => ReadStepView::Fail { error: error@ },
            ReadStep::Stop => ReadStepView::Stop,
        }
    }
}

impl ReadStepView {
    /// Whether the step ends the read: it delivers the end mark, or fails.
    pub open spec fn ends(self) -> bool {
        self is Fail || (self matches ReadStepView::Deliver { delta, done } && done)
    }
}

/// The state of a reader as a mathematical value.
pub ghost struct StreamReaderView {
    /// Whether the end mark, or a line that cannot be read, has come.
    pub ended: bool,
}

impl StreamReaderView {
    /// The reader before the first line.
    pub open spec fn initial() -> StreamReaderView {
        StreamReaderView { ended: false }
    }

    /// The step on a line. Once the read has ended, every line is left
    /// unread. Before that, a blank line and a line with neither text nor
    /// end mark are skipped, a line that cannot be read fails the read
    /// and ends it, and any other line is delivered, with its text, empty
    /// where it has none, and its end mark, which ends the read.
    pub open spec fn on_line(self, line: Seq<char>) -> (StreamReaderView, ReadStepView) {
        if self.ended {
            (self, ReadStepView::Stop)
        } else {
            match stream_line_of(line) {
                StreamLineView::Skip => (self, ReadStepView::Skip),
                StreamLineView::Invalid => (
                    StreamReaderView { ended: true },
                    ReadStepView::Fail { error: OllamaErrorView::BadStreamLine },
                ),
                StreamLineView::Chunk { delta, done } => (
                    StreamReaderView { ended: done },
                    ReadStepView::Deliver { delta, done },
                ),
            }
        }
    }

    /// The reader after the lines of a body came in their order, with the
    /// step of each line.
    pub open spec fn on_lines(self, lines: Seq<Seq<char>>) -> (StreamReaderView, Seq<ReadStepView>)
        decreases lines.len(),
    {
        if lines.len() == 0 {
            (self, Seq::empty())
        } else {
            let before = self.on_lines(lines.drop_last());
            let step = before.0.on_line(lines.last());
            (step.0, before.1.push(step.1))
        }
    }
}

/// The reader of a streamed answer: it takes the lines of the body one by
/// one and says what is delivered, and when no line is read any more.
#[derive(Debug)]
pub struct StreamReader {
    ended: bool,
}

impl View for StreamReader {
    type V = StreamReaderView;

    closed spec fn view(&self) -> StreamReaderView {
        StreamReaderView { ended: self.ended }
    }
}

impl StreamReader {
    /// Whether no line is read any more.
    pub fn is_ended(&self) -> (r: bool)
        ensures
            r == self@.ended,
    {
        self.ended
    }

    /// Takes the next line of the body.
    pub fn line(&mut self, line: &str) -> (r: ReadStep)
        ensures
            (final(self)@, r@) == old(self)@.on_line(line@),
    {
        if self.ended {
            return ReadStep::Stop;
        }
        match stream_line(line) {
            StreamLine::Skip => ReadStep::Skip,
            StreamLine::Invalid => {
                self.ended = true;
                ReadStep::Fail { error: OllamaError::BadStreamLine }
            },
            StreamLine::Chunk { delta, done } => {
                self.ended = done;
                ReadStep::Deliver { delta, done }
            },
        }
    }
}

/// Opens the read of a streamed answer: `success` and `status` are the
/// HTTP status as the transport reports it. A status that is no success
/// fails the request with the status and the body that came with it, and
/// no line is read. Else the reader for the lines of the body is
/// returned, and what is delivered of them is what its steps say.
pub fn chat_stream(success: bool, status: &str, body: String) -> (r: Result<
    StreamReader,
    OllamaError,
>)
    ensures
        r is Ok == success,
        r matches Ok(reader) ==> reader@ == StreamReaderView::initial(),
        r matches Err(e) ==> e@ == (OllamaErrorView::Status { status: status@, body: body@ }),
{
    if success {
        Ok(StreamReader { ended: false })
    } else {
        Err(OllamaError::Status { status: String::from_str(status), body })
    }
}

/// Once the read has ended, no line is read: every further line is left
/// as it is and the reader stays ended.
pub proof fn law_nothing_is_read_after_the_end(s: StreamReaderView, line: Seq<char>)
    requires
        s.ended,
    ensures
        s.on_line(line) == (s, ReadStepView::Stop),
{
}

/// Whatever the lines of a body are, every line has its step; after the
/// step that delivers the end mark, and after the step that fails, every
/// step is `Stop`. So at most one delivery has the end mark, it is the
/// last delivery, and nothing is delivered after a line that cannot be
/// read. The reader has ended exactly when such a step has come.
pub proof fn law_end_mark_is_last(lines: Seq<Seq<char>>)
    ensures
        ({
            let read = StreamReaderView::initial().on_lines(lines);
            &&& read.1.len() == lines.len()
            &&& forall|i: int, j: int|
                0 <= i < j < lines.len() && (#[trigger] read.1[i]).ends() ==> #[trigger] read.1[j]
                    is Stop
            &&& forall|i: int, j: int|
                0 <= i < j < lines.len() && (#[trigger] read.1[i]).ends() ==> !(
                #[trigger] read.1[j] is Deliver)
            &&& forall|j: int|
                0 <= j < lines.len() && #[trigger] read.1[j] is Stop ==> exists|i: int|
                    0 <= i < j && (#[trigger] read.1[i]).ends()
            &&& read.0.ended <==> exists|i: int|
                0 <= i < lines.len() && (#[trigger] read.1[i]).ends()
        }),
    decreases lines.len(),
{
    if lines.len() > 0 {
        let front = lines.drop_last();
        law_end_mark_is_last(front);
        let before = StreamReaderView::initial().on_lines(front);
        let read = StreamReaderView::initial().on_lines(lines);
        let n = front.len() as int;
        assert forall|i: int| 0 <= i < n implies read.1[i] == before.1[i] by {}
        if before.0.ended {
            assert(read.1[n] is Stop);
        }
    }
}

} // verus!
