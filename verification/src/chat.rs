//! Chat data model: roles, tools, actions, the action packet carried as a
//! message's content, and the request/response shapes exchanged with the
//! inference service.
//!
//! A message's content is an `ActionPacket`: structured data, never free
//! text, so that it can be serialized back into a wire request unchanged.

use vstd::prelude::*;

verus! {

/// Who a chat entry speaks for. `Other` stands for any role outside the
/// recognized set; it is surfaced as an error, never a crash.
#[derive(Clone, Copy, PartialEq, Eq, Structural, Debug)]
pub enum MessageRoles {
    System,
    Tool,
    User,
    Assistant,
    Other,
}

/// The capabilities a response may ask for. `InvalidTool` stands for a tool
/// request outside the executable set.
#[derive(Clone, Copy, PartialEq, Eq, Structural, Debug)]
pub enum AssistantTool {
    WikiSearch,
    WebSearch,
    GetDateTime,
    GetDirectoryTree,
    GetFileContents,
    InvalidTool,
}

/// What a packet asks for: a direct conversational reply, or a tool run.
#[derive(Clone, Copy, PartialEq, Eq, Structural, Debug)]
pub enum Action {
    Chat,
    Tool(AssistantTool),
}

/// The error taxonomy of the core. Every failure is recovered and surfaced;
/// none is fatal to the session.
#[derive(Clone, Copy, PartialEq, Eq, Structural, Debug)]
pub enum ChatError {
    /// Transport or connection failure while calling the service.
    NetworkError,
    /// A response body that is not valid structured data.
    DecodeError,
    /// A response that names a tool outside the recognized set.
    UnrecognizedTool,
    /// A tool-call chain that exceeded the configured depth bound.
    ToolRecursionLimit,
    /// Failure to set up or restore the terminal.
    TerminalIOError,
}

/// The mathematical value of an argument list: key/value pairs of character
/// sequences.
pub open spec fn args_view(v: Seq<(String, String)>) -> Seq<(Seq<char>, Seq<char>)> {
    v.map_values(|p: (String, String)| (p.0@, p.1@))
}

/// A mapping has each key at most once.
pub open spec fn unique_keys(args: Seq<(Seq<char>, Seq<char>)>) -> bool {
    forall|i: int, j: int| 0 <= i < j < args.len() ==> args[i].0 != args[j].0
}

/// Mathematical value of an `ActionPacket`.
#[verifier::ext_equal]
pub struct PacketModel {
    pub action: Action,
    pub args: Seq<(Seq<char>, Seq<char>)>,
}

impl PacketModel {
    /// Valid structured data: the arguments form a mapping.
    pub open spec fn wf(&self) -> bool {
        unique_keys(self.args)
    }
}

/// Mathematical value of a `Message`.
#[verifier::ext_equal]
pub struct EntryModel {
    pub role: MessageRoles,
    pub packet: PacketModel,
}

impl EntryModel {
    /// A transcript-worthy entry: valid structured data under a recognized
    /// role, so it can be serialized back into a wire request unchanged. An
    /// unrecognized role is typed as `Other` and never reaches the wire.
    pub open spec fn wf(&self) -> bool {
        &&& self.packet.wf()
        &&& self.role.spec_recognized()
    }
}

/// Mathematical value of a classified chat outcome.
pub open spec fn out_view(out: Result<ActionPacket, ChatError>) -> Result<PacketModel, ChatError> {
    match out {
        Ok(p) => Ok(p@),
        Err(e) => Err(e),
    }
}

/// Structured content of one chat entry: the action taken and its arguments,
/// a mapping from string keys to string values.
#[derive(Debug, PartialEq, Eq)]
pub struct ActionPacket {
    pub action: Action,
    pub arguments: Vec<(String, String)>,
}

impl View for ActionPacket {
    type V = PacketModel;

    open spec fn view(&self) -> PacketModel {
        PacketModel { action: self.action, args: args_view(self.arguments@) }
    }
}

impl ActionPacket {
    pub fn new(action: Action, arguments: Vec<(String, String)>) -> (p: ActionPacket)
        requires
            unique_keys(args_view(arguments@)),
        ensures
            p@ == (PacketModel { action, args: args_view(arguments@) }),
            p@.wf(),
    {
        ActionPacket { action, arguments }
    }
}

/// One entry of the transcript: a role and its structured content.
/// Immutable once appended.
#[derive(Debug, PartialEq, Eq)]
pub struct Message {
    pub role: MessageRoles,
    pub content: ActionPacket,
}

impl View for Message {
    type V = EntryModel;

    open spec fn view(&self) -> EntryModel {
        EntryModel { role: self.role, packet: self.content@ }
    }
}

impl Message {
    pub fn new(role: MessageRoles, action: Action, arguments: Vec<(String, String)>) -> (m:
        Message)
        requires
            unique_keys(args_view(arguments@)),
        ensures
            m@ == (EntryModel {
                role,
                packet: PacketModel { action, args: args_view(arguments@) },
            }),
            m@.packet.wf(),
    {
        Message { role, content: ActionPacket::new(action, arguments) }
    }
}

/// Builds an entry from its parts; the caller keeps the arguments a mapping.
impl From<(MessageRoles, Action, Vec<(String, String)>)> for Message {
    fn from(parts: (MessageRoles, Action, Vec<(String, String)>)) -> (m: Message) {
        Message { role: parts.0, content: ActionPacket { action: parts.1, arguments: parts.2 } }
    }
}

impl vstd::std_specs::convert::FromSpecImpl<(MessageRoles, Action, Vec<(String, String)>)> for Message {
    open spec fn obeys_from_spec() -> bool {
        true
    }

    open spec fn from_spec(parts: (MessageRoles, Action, Vec<(String, String)>)) -> Message {
        Message { role: parts.0, content: ActionPacket { action: parts.1, arguments: parts.2 } }
    }
}

/// String equality over the character sequences, computed through owned
/// copies so that the outcome is fully specified.
pub fn str_eq(a: &str, b: &str) -> (r: bool)
    ensures
        r == (a@ == b@),
{
    let ao: String = a.to_owned();
    let bo: String = b.to_owned();
    ao == bo
}

impl MessageRoles {
    /// The role's wire name.
    pub open spec fn spec_name(&self) -> Seq<char> {
        match self {
            MessageRoles::System => "system"@,
            MessageRoles::Tool => "tool"@,
            MessageRoles::User => "user"@,
            MessageRoles::Assistant => "assistant"@,
            MessageRoles::Other => "other"@,
        }
    }

    /// The role's name, for display. `Other` renders as `other` here and
    /// nowhere else: the session invariant keeps it out of the transcript,
    /// so it never reaches a wire request.
    pub fn name(&self) -> (r: &str)
        ensures
            r@ == self.spec_name(),
    {
        match self {
            MessageRoles::System => "system",
            MessageRoles::Tool => "tool",
            MessageRoles::User => "user",
            MessageRoles::Assistant => "assistant",
            MessageRoles::Other => "other",
        }
    }

    /// Which role a wire name denotes. A name outside the recognized set —
    /// a model may hallucinate one — is typed as `Other`, never a crash.
    pub open spec fn spec_from_name(s: Seq<char>) -> MessageRoles {
        if s == "system"@ {
            MessageRoles::System
        } else if s == "tool"@ {
            MessageRoles::Tool
        } else if s == "user"@ {
            MessageRoles::User
        } else if s == "assistant"@ {
            MessageRoles::Assistant
        } else {
            MessageRoles::Other
        }
    }

    /// Which role a wire name denotes; an unrecognized name is typed as
    /// `Other`.
    pub fn from_name(s: &str) -> (r: MessageRoles)
        ensures
            r == Self::spec_from_name(s@),
    {
        if str_eq(s, "system") {
            MessageRoles::System
        } else if str_eq(s, "tool") {
            MessageRoles::Tool
        } else if str_eq(s, "user") {
            MessageRoles::User
        } else if str_eq(s, "assistant") {
            MessageRoles::Assistant
        } else {
            MessageRoles::Other
        }
    }

    /// Whether the role is in the recognized set — everything but `Other`.
    pub open spec fn spec_recognized(&self) -> bool {
        !(self is Other)
    }

    /// Whether the role is in the recognized set — everything but `Other`.
    pub fn recognized(&self) -> (r: bool)
        ensures
            r == self.spec_recognized(),
    {
        !matches!(self, MessageRoles::Other)
    }
}

impl AssistantTool {
    /// The tool's wire name.
    pub open spec fn spec_name(&self) -> Seq<char> {
        match self {
            AssistantTool::WikiSearch => "wiki_search"@,
            AssistantTool::WebSearch => "web_search"@,
            AssistantTool::GetDateTime => "get_date_time"@,
            AssistantTool::GetDirectoryTree => "get_dir_tree"@,
            AssistantTool::GetFileContents => "get_file_contents"@,
            AssistantTool::InvalidTool => "invalid_tool"@,
        }
    }

    /// The tool's wire name.
    pub fn name(&self) -> (r: &str)
        ensures
            r@ == self.spec_name(),
    {
        match self {
            AssistantTool::WikiSearch => "wiki_search",
            AssistantTool::WebSearch => "web_search",
            AssistantTool::GetDateTime => "get_date_time",
            AssistantTool::GetDirectoryTree => "get_dir_tree",
            AssistantTool::GetFileContents => "get_file_contents",
            AssistantTool::InvalidTool => "invalid_tool",
        }
    }

    /// Which tool a wire name denotes, if any.
    pub open spec fn spec_from_name(s: Seq<char>) -> Option<AssistantTool> {
        if s == "wiki_search"@ {
            Some(AssistantTool::WikiSearch)
        } else if s == "web_search"@ {
            Some(AssistantTool::WebSearch)
        } else if s == "get_date_time"@ {
            Some(AssistantTool::GetDateTime)
        } else if s == "get_dir_tree"@ {
            Some(AssistantTool::GetDirectoryTree)
        } else if s == "get_file_contents"@ {
            Some(AssistantTool::GetFileContents)
        } else if s == "invalid_tool"@ {
            Some(AssistantTool::InvalidTool)
        } else {
            None
        }
    }

    /// Which tool a wire name denotes, if any.
    pub fn from_name(s: &str) -> (r: Option<AssistantTool>)
        ensures
            r == Self::spec_from_name(s@),
    {
        if str_eq(s, "wiki_search") {
            Some(AssistantTool::WikiSearch)
        } else if str_eq(s, "web_search") {
            Some(AssistantTool::WebSearch)
        } else if str_eq(s, "get_date_time") {
            Some(AssistantTool::GetDateTime)
        } else if str_eq(s, "get_dir_tree") {
            Some(AssistantTool::GetDirectoryTree)
        } else if str_eq(s, "get_file_contents") {
            Some(AssistantTool::GetFileContents)
        } else if str_eq(s, "invalid_tool") {
            Some(AssistantTool::InvalidTool)
        } else {
            None
        }
    }

    /// Whether the core may actually run this tool. `InvalidTool` names the
    /// unrecognized case and is never executable.
    pub open spec fn spec_executable(&self) -> bool {
        !(self is InvalidTool)
    }

    /// Whether the core may actually run this tool.
    pub fn executable(&self) -> (r: bool)
        ensures
            r == self.spec_executable(),
    {
        !matches!(self, AssistantTool::InvalidTool)
    }
}

impl Action {
    /// Which action a wire name denotes: `chat`, a tool's name, or nothing.
    pub open spec fn spec_from_name(s: Seq<char>) -> Option<Action> {
        if s == "chat"@ {
            Some(Action::Chat)
        } else {
            match AssistantTool::spec_from_name(s) {
                Some(t) => Some(Action::Tool(t)),
                None => None,
            }
        }
    }

    /// Which action a wire name denotes: `chat`, a tool's name, or nothing.
    pub fn from_name(s: &str) -> (r: Option<Action>)
        ensures
            r == Self::spec_from_name(s@),
    {
        if str_eq(s, "chat") {
            Some(Action::Chat)
        } else {
            match AssistantTool::from_name(s) {
                Some(t) => Some(Action::Tool(t)),
                None => None,
            }
        }
    }

    /// The action's wire name: `chat`, or the tool's own name.
    pub open spec fn spec_name(&self) -> Seq<char> {
        match self {
            Action::Chat => "chat"@,
            Action::Tool(t) => t.spec_name(),
        }
    }

    /// The action's wire name: `chat`, or the tool's own name.
    pub fn name(&self) -> (r: &str)
        ensures
            r@ == self.spec_name(),
    {
        match self {
            Action::Chat => "chat",
            Action::Tool(t) => t.name(),
        }
    }
}

impl ChatError {
    /// A short, display-ready account of the failure.
    pub fn describe(&self) -> (r: &str)
        ensures
            (self is NetworkError) ==> r@ == "network error"@,
            (self is DecodeError) ==> r@ == "response was not valid structured data"@,
            (self is UnrecognizedTool) ==> r@ == "response named an unrecognized tool"@,
            (self is ToolRecursionLimit) ==> r@ == "tool-call chain exceeded the depth bound"@,
            (self is TerminalIOError) ==> r@ == "terminal could not be set up or restored"@,
    {
        match self {
            ChatError::NetworkError => "network error",
            ChatError::DecodeError => "response was not valid structured data",
            ChatError::UnrecognizedTool => "response named an unrecognized tool",
            ChatError::ToolRecursionLimit => "tool-call chain exceeded the depth bound",
            ChatError::TerminalIOError => "terminal could not be set up or restored",
        }
    }
}

/// One turn of the conversation as the wire request carries it.
pub struct Prompt {
    pub role: String,
    pub content: String,
}

impl View for Prompt {
    type V = (Seq<char>, Seq<char>);

    open spec fn view(&self) -> (Seq<char>, Seq<char>) {
        (self.role@, self.content@)
    }
}

/// Mathematical value of a `ChatRequest`: each turn is its role's name and
/// its content text.
#[verifier::ext_equal]
pub struct RequestModel {
    pub model: Seq<char>,
    pub messages: Seq<(Seq<char>, Seq<char>)>,
    pub stream: bool,
    pub format: Seq<char>,
    pub stop: Seq<Seq<char>>,
}

/// The request sent to the inference service. Tuning options and the wire
/// serialization are the caller's concern; the core fixes the conversational
/// payload.
pub struct ChatRequest {
    pub model: String,
    pub messages: Vec<Prompt>,
    pub stream: bool,
    pub format: String,
    pub stop: Vec<String>,
}

impl View for ChatRequest {
    type V = RequestModel;

    open spec fn view(&self) -> RequestModel {
        RequestModel {
            model: self.model@,
            messages: self.messages@.map_values(|p: Prompt| p@),
            stream: self.stream,
            format: self.format@,
            stop: self.stop@.map_values(|s: String| s@),
        }
    }
}

/// The response the inference service sends back, with its timing and token
/// counters.
pub struct ChatResponse {
    pub model: String,
    pub created_at: String,
    pub message: Message,
    pub done: bool,
    pub done_reason: Option<String>,
    pub total_duration: Option<u64>,
    pub eval_count: Option<u64>,
    pub eval_duration: Option<u64>,
    pub prompt_eval_count: Option<u64>,
    pub prompt_eval_duration: Option<u64>,
}

/// One chunk of a streamed response.
pub struct StreamChunk {
    pub message: StreamMessage,
}

/// The message part of a streamed chunk, still free text.
pub struct StreamMessage {
    pub role: String,
    pub content: String,
}

} // verus!
