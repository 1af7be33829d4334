//! The session loop's state machine.
//!
//! The loop owns all session state and is its only writer. Workers never
//! touch the transcript: they hand completed work back as messages, and every
//! state change happens here, as a function from state and event to next
//! state and command. The functions below are that machine; the surrounding
//! process merely performs the commands and feeds the resulting events back.

use vstd::prelude::*;

use crate::chat::{args_view, out_view, Action, ActionPacket, AssistantTool, ChatError,
    ChatRequest, EntryModel, Message, MessageRoles, PacketModel, Prompt, RequestModel};
use crate::packet::{packet_text, spec_parse_reply, string_from_chars};
use crate::queues::Queues;

verus! {

/// Default bound on the length of a tool-call chain: how many chat requests
/// one submission may spend before the chain is failed.
pub const DEFAULT_DEPTH_LIMIT: usize = 8;

/// An input event as the loop reads it, already freed of the terminal's own
/// encoding: a typed character, editing, a submit, a quit, or anything else
/// (navigation, resize, focus, paste), which never changes the session.
#[derive(Clone, Copy, PartialEq, Eq, Structural, Debug)]
pub enum InputEvent {
    Char(char),
    Backspace,
    Submit,
    Quit,
    Other,
}

/// One unit of asynchronous work the loop asks a worker to perform. Commands
/// are owned, move-only messages: once sent, the sender holds no part of
/// them.
pub enum Cmd {
    /// Carry this request to the inference service; `depth` counts the chat
    /// requests of the current chain, this one included.
    RunChat { req: ChatRequest, depth: usize },
    /// Run this tool with these arguments and hand back its payload.
    RunTool { tool: AssistantTool, arguments: Vec<(String, String)>, depth: usize },
    /// Probe the diagnostic endpoint and report its raw text.
    GetAddr,
    /// Stop accepting commands.
    Quit,
}

/// Mathematical value of a `Cmd`.
#[verifier::ext_equal]
pub enum CmdModel {
    RunChat { req: RequestModel, depth: nat },
    RunTool { tool: AssistantTool, args: Seq<(Seq<char>, Seq<char>)>, depth: nat },
    GetAddr,
    Quit,
}

impl View for Cmd {
    type V = CmdModel;

    open spec fn view(&self) -> CmdModel {
        match self {
            Cmd::RunChat { req, depth } => CmdModel::RunChat { req: req@, depth: *depth as nat },
            Cmd::RunTool { tool, arguments, depth } => CmdModel::RunTool {
                tool: *tool,
                args: args_view(arguments@),
                depth: *depth as nat,
            },
            Cmd::GetAddr => CmdModel::GetAddr,
            Cmd::Quit => CmdModel::Quit,
        }
    }
}

/// A notification arriving in the loop: raw input, a finished chat call, a
/// finished tool run, or a finished diagnostic probe. Results are immutable
/// once produced and consumed exactly once.
pub enum Msg {
    Input(InputEvent),
    /// The chat call's raw response body, or the failure that ended it.
    HttpDone(Result<String, ChatError>),
    /// The payload a tool run produced.
    ToolDone { tool: AssistantTool, payload: String },
    /// The probe's raw text, or the failure that ended it.
    ProbeDone(Result<String, ChatError>),
}

/// Mathematical value of a `Msg`.
#[verifier::ext_equal]
pub enum MsgModel {
    Input(InputEvent),
    HttpDone(Result<Seq<char>, ChatError>),
    ToolDone { tool: AssistantTool, payload: Seq<char> },
    ProbeDone(Result<Seq<char>, ChatError>),
}

/// Mathematical value of a string-or-error result.
pub open spec fn res_view(r: Result<String, ChatError>) -> Result<Seq<char>, ChatError> {
    match r {
        Ok(s) => Ok(s@),
        Err(e) => Err(e),
    }
}

impl View for Msg {
    type V = MsgModel;

    open spec fn view(&self) -> MsgModel {
        match self {
            Msg::Input(ev) => MsgModel::Input(*ev),
            Msg::HttpDone(r) => MsgModel::HttpDone(res_view(*r)),
            Msg::ToolDone { tool, payload } => MsgModel::ToolDone {
                tool: *tool,
                payload: payload@,
            },
            Msg::ProbeDone(r) => MsgModel::ProbeDone(res_view(*r)),
        }
    }
}

/// Mathematical value of the session state.
#[verifier::ext_equal]
pub struct StateModel {
    pub model: Seq<char>,
    pub stream: bool,
    pub system_prompt: Seq<char>,
    pub depth_limit: nat,
    pub transcript: Seq<EntryModel>,
    pub prompt: Seq<char>,
    pub waiting: bool,
    pub chain_depth: nat,
    pub last_error: Option<ChatError>,
    pub probe_text: Option<Seq<char>>,
}

impl StateModel {
    /// Integrity of the session: every transcript entry carries valid
    /// structured data under a recognized role — so no unrecognized role can
    /// ever be serialized into a wire request — and the chain counter agrees
    /// with the waiting flag: a chain is counted exactly while an operation
    /// is outstanding.
    pub open spec fn wf(&self) -> bool {
        &&& forall|i: int| 0 <= i < self.transcript.len() ==> (#[trigger] self.transcript[i]).wf()
        &&& (self.waiting ==> self.chain_depth >= 1)
        &&& (!self.waiting ==> self.chain_depth == 0)
    }
}

/// The transcript entry recorded for a submitted input buffer.
pub open spec fn user_entry(text: Seq<char>) -> EntryModel {
    EntryModel {
        role: MessageRoles::User,
        packet: PacketModel { action: Action::Chat, args: seq![("response"@, text)] },
    }
}

/// The synthetic transcript entry recorded for a tool run's payload.
pub open spec fn tool_entry(tool: AssistantTool, payload: Seq<char>) -> EntryModel {
    EntryModel {
        role: MessageRoles::Tool,
        packet: PacketModel { action: Action::Tool(tool), args: seq![("result"@, payload)] },
    }
}

/// One turn of a wire request: the entry's role name and its content text.
pub open spec fn turn_view(e: EntryModel) -> (Seq<char>, Seq<char>) {
    (e.role.spec_name(), packet_text(e.packet))
}

/// The request the loop builds from a session: the system prompt first, then
/// every transcript entry serialized back unchanged.
pub open spec fn request_model(s: StateModel) -> RequestModel {
    RequestModel {
        model: s.model,
        messages: seq![("system"@, s.system_prompt)] + s.transcript.map_values(
            |e: EntryModel| turn_view(e),
        ),
        stream: s.stream,
        format: "json"@,
        stop: seq!["\n\n\n\n"@],
    }
}

/// How an input event moves the session, and the command it emits.
///
/// A submit appends a `User` entry built from the buffer, clears the buffer,
/// enters Waiting, and emits exactly one `RunChat`. Editing keys change only
/// the buffer; any other event changes nothing.
pub open spec fn input_step(s: StateModel, ev: InputEvent) -> (StateModel, Option<CmdModel>) {
    match ev {
        InputEvent::Char(c) => (StateModel { prompt: s.prompt.push(c), ..s }, None),
        InputEvent::Backspace => (
            StateModel {
                prompt: if s.prompt.len() > 0 {
                    s.prompt.drop_last()
                } else {
                    s.prompt
                },
                ..s
            },
            None,
        ),
        InputEvent::Submit => {
            let s1 = StateModel {
                transcript: s.transcript.push(user_entry(s.prompt)),
                prompt: Seq::empty(),
                waiting: true,
                chain_depth: 1,
                last_error: None,
                ..s
            };
            (s1, Some(CmdModel::RunChat { req: request_model(s1), depth: 1 }))
        },
        InputEvent::Quit => (s, Some(CmdModel::Quit)),
        InputEvent::Other => (s, None),
    }
}

/// How a classified chat outcome moves the session, and the command it
/// emits.
///
/// A failure, of whatever kind, returns to Idle with the error surfaced and
/// the transcript unchanged. A conversational reply appends the `Assistant`
/// entry and returns to Idle. An executable tool request appends the
/// assistant's tool-request entry and asks for the tool run — unless the
/// chain has already spent its depth bound, which fails it with
/// `ToolRecursionLimit`; a request for an unrecognized tool fails with
/// `UnrecognizedTool`.
pub open spec fn done_step(s: StateModel, out: Result<PacketModel, ChatError>) -> (
    StateModel,
    Option<CmdModel>,
) {
    match out {
        Err(e) => (StateModel { waiting: false, chain_depth: 0, last_error: Some(e), ..s }, None),
        Ok(p) => match p.action {
            Action::Chat => (
                StateModel {
                    transcript: s.transcript.push(
                        EntryModel { role: MessageRoles::Assistant, packet: p },
                    ),
                    waiting: false,
                    chain_depth: 0,
                    last_error: None,
                    ..s
                },
                None,
            ),
            Action::Tool(t) => {
                if !t.spec_executable() {
                    (
                        StateModel {
                            waiting: false,
                            chain_depth: 0,
                            last_error: Some(ChatError::UnrecognizedTool),
                            ..s
                        },
                        None,
                    )
                } else if s.chain_depth >= s.depth_limit {
                    (
                        StateModel {
                            waiting: false,
                            chain_depth: 0,
                            last_error: Some(ChatError::ToolRecursionLimit),
                            ..s
                        },
                        None,
                    )
                } else {
                    (
                        StateModel {
                            transcript: s.transcript.push(
                                EntryModel { role: MessageRoles::Assistant, packet: p },
                            ),
                            last_error: None,
                            ..s
                        },
                        Some(
                            CmdModel::RunTool { tool: t, args: p.args, depth: s.chain_depth },
                        ),
                    )
                }
            },
        },
    }
}

/// How a finished tool run moves the session: it appends the synthetic
/// `Tool` entry and chains the next chat request, one deeper. A payload
/// arriving outside a chain with room left changes nothing.
pub open spec fn tool_done_step(s: StateModel, tool: AssistantTool, payload: Seq<char>) -> (
    StateModel,
    Option<CmdModel>,
) {
    if s.waiting && s.chain_depth < s.depth_limit {
        let s1 = StateModel {
            transcript: s.transcript.push(tool_entry(tool, payload)),
            chain_depth: (s.chain_depth + 1) as nat,
            ..s
        };
        (s1, Some(CmdModel::RunChat { req: request_model(s1), depth: s1.chain_depth }))
    } else {
        (s, None)
    }
}

/// How a finished diagnostic probe moves the session: its raw text is kept
/// for display, or its failure surfaced.
pub open spec fn probe_step(s: StateModel, r: Result<Seq<char>, ChatError>) -> StateModel {
    match r {
        Ok(t) => StateModel { probe_text: Some(t), ..s },
        Err(e) => StateModel { last_error: Some(e), ..s },
    }
}

/// The session state the loop owns: configuration, the transcript, the input
/// buffer, the waiting flag, the chain counter, and what is surfaced for
/// display.
pub struct AppState {
    pub model: String,
    pub stream: bool,
    pub system_prompt: String,
    pub depth_limit: usize,
    pub messages: Vec<Message>,
    pub prompt: Vec<char>,
    pub waiting: bool,
    pub chain_depth: usize,
    pub last_error: Option<ChatError>,
    pub probe_text: Option<String>,
}

impl View for AppState {
    type V = StateModel;

    open spec fn view(&self) -> StateModel {
        StateModel {
            model: self.model@,
            stream: self.stream,
            system_prompt: self.system_prompt@,
            depth_limit: self.depth_limit as nat,
            transcript: self.messages@.map_values(|m: Message| m@),
            prompt: self.prompt@,
            waiting: self.waiting,
            chain_depth: self.chain_depth as nat,
            last_error: self.last_error,
            probe_text: match self.probe_text {
                Some(t) => Some(t@),
                None => None,
            },
        }
    }
}

/// Mathematical value of an emitted command.
pub open spec fn opt_cmd_view(c: Option<Cmd>) -> Option<CmdModel> {
    match c {
        Some(c) => Some(c@),
        None => None,
    }
}

/// The outcome a finished chat call resolves to: a failed call carries its
/// error through; a body resolves to what its parse yields. A function of
/// the result alone.
pub open spec fn http_outcome(r: Result<Seq<char>, ChatError>) -> Result<PacketModel, ChatError> {
    match r {
        Ok(body) => spec_parse_reply(body),
        Err(e) => Err(e),
    }
}

impl AppState {
    /// A fresh Idle session: empty transcript, empty buffer, not waiting,
    /// the default chain bound.
    pub fn default(model: String, stream: bool, system_prompt: String) -> (s: AppState)
        ensures
            s@ == (StateModel {
                model: model@,
                stream,
                system_prompt: system_prompt@,
                depth_limit: DEFAULT_DEPTH_LIMIT as nat,
                transcript: Seq::empty(),
                prompt: Seq::empty(),
                waiting: false,
                chain_depth: 0,
                last_error: None,
                probe_text: None,
            }),
            s@.wf(),
    {
        let s = AppState {
            model,
            stream,
            system_prompt,
            depth_limit: DEFAULT_DEPTH_LIMIT,
            messages: Vec::new(),
            prompt: Vec::new(),
            waiting: false,
            chain_depth: 0,
            last_error: None,
            probe_text: None,
        };
        proof {
            assert(s@.transcript =~= Seq::<EntryModel>::empty());
        }
        s
    }

    /// A fresh Idle session with its chain bound chosen by the caller.
    pub fn with_depth_limit(
        model: String,
        stream: bool,
        system_prompt: String,
        depth_limit: usize,
    ) -> (s: AppState)
        ensures
            s@ == (StateModel {
                model: model@,
                stream,
                system_prompt: system_prompt@,
                depth_limit: depth_limit as nat,
                transcript: Seq::empty(),
                prompt: Seq::empty(),
                waiting: false,
                chain_depth: 0,
                last_error: None,
                probe_text: None,
            }),
            s@.wf(),
    {
        let s = AppState {
            model,
            stream,
            system_prompt,
            depth_limit,
            messages: Vec::new(),
            prompt: Vec::new(),
            waiting: false,
            chain_depth: 0,
            last_error: None,
            probe_text: None,
        };
        proof {
            assert(s@.transcript =~= Seq::<EntryModel>::empty());
        }
        s
    }

    /// The wire request for the session as it stands: the system prompt
    /// first, then every transcript entry, serialized back unchanged.
    pub fn build_request(&self) -> (req: ChatRequest)
        ensures
            req@ == request_model(self@),
    {
        let mut prompts: Vec<Prompt> = Vec::new();
        prompts.push(Prompt { role: "system".to_owned(), content: self.system_prompt.clone() });
        let n = self.messages.len();
        let mut i: usize = 0;
        while i < n
            invariant
                n == self.messages.len(),
                i <= n,
                prompts@.len() == i + 1,
                prompts@[0]@ == ("system"@, self.system_prompt@),
                forall|k: int|
                    1 <= k <= i ==> (#[trigger] prompts@[k])@ == turn_view(
                        self.messages@.map_values(|m: Message| m@)[k - 1],
                    ),
            decreases n - i,
        {
            let p = self.messages[i].to_prompt();
            prompts.push(p);
            i = i + 1;
        }
        let mut stop: Vec<String> = Vec::new();
        stop.push("\n\n\n\n".to_owned());
        let req = ChatRequest {
            model: self.model.clone(),
            messages: prompts,
            stream: self.stream,
            format: "json".to_owned(),
            stop,
        };
        proof {
            assert(req@.messages =~= request_model(self@).messages);
            assert(req@.stop =~= request_model(self@).stop);
            assert(req@ =~= request_model(self@));
        }
        req
    }

    /// Applies one input event; returns the command it emits, if any.
    pub fn handle_input(&mut self, ev: InputEvent) -> (cmd: Option<Cmd>)
        requires
            old(self)@.wf(),
        ensures
            final(self)@.wf(),
            (final(self)@, opt_cmd_view(cmd)) == input_step(old(self)@, ev),
    {
        match ev {
            InputEvent::Char(c) => {
                self.prompt.push(c);
                None
            },
            InputEvent::Backspace => {
                if self.prompt.len() > 0 {
                    let _ = self.prompt.pop();
                }
                None
            },
            InputEvent::Submit => {
                let text = string_from_chars(&self.prompt);
                let mut args: Vec<(String, String)> = Vec::new();
                args.push(("response".to_owned(), text));
                proof {
                    assert(args_view(args@) =~= seq![("response"@, old(self)@.prompt)]);
                }
                let user = Message::new(MessageRoles::User, Action::Chat, args);
                self.messages.push(user);
                self.prompt = Vec::new();
                self.waiting = true;
                self.chain_depth = 1;
                self.last_error = None;
                proof {
                    assert(self@.transcript =~= old(self)@.transcript.push(
                        user_entry(old(self)@.prompt),
                    ));
                    assert(self@ =~= input_step(old(self)@, ev).0);
                    assert forall|i: int|
                        0 <= i < self@.transcript.len() implies (
                    #[trigger] self@.transcript[i]).wf() by {
                        if i < old(self)@.transcript.len() {
                            assert(self@.transcript[i] == old(self)@.transcript[i]);
                        } else {
                            assert(self@.transcript[i] == user_entry(old(self)@.prompt));
                        }
                    }
                }
                let req = self.build_request();
                Some(Cmd::RunChat { req, depth: 1 })
            },
            InputEvent::Quit => Some(Cmd::Quit),
            InputEvent::Other => None,
        }
    }

    /// Applies one classified chat outcome; returns the command it emits, if
    /// any.
    pub fn apply_outcome(&mut self, out: Result<ActionPacket, ChatError>) -> (cmd: Option<Cmd>)
        requires
            old(self)@.wf(),
            out matches Ok(p) ==> p@.wf(),
        ensures
            final(self)@.wf(),
            (final(self)@, opt_cmd_view(cmd)) == done_step(old(self)@, out_view(out)),
    {
        match out {
            Err(e) => {
                self.waiting = false;
                self.chain_depth = 0;
                self.last_error = Some(e);
                None
            },
            Ok(p) => match p.action {
                Action::Chat => {
                    let m = Message { role: MessageRoles::Assistant, content: p };
                    self.messages.push(m);
                    self.waiting = false;
                    self.chain_depth = 0;
                    self.last_error = None;
                    proof {
                        assert(self@.transcript =~= done_step(
                            old(self)@,
                            out_view(out),
                        ).0.transcript);
                    }
                    None
                },
                Action::Tool(t) => {
                    if !t.executable() {
                        self.waiting = false;
                        self.chain_depth = 0;
                        self.last_error = Some(ChatError::UnrecognizedTool);
                        None
                    } else if self.chain_depth >= self.depth_limit {
                        self.waiting = false;
                        self.chain_depth = 0;
                        self.last_error = Some(ChatError::ToolRecursionLimit);
                        None
                    } else {
                        let arguments = clone_args(&p.arguments);
                        let depth = self.chain_depth;
                        let m = Message { role: MessageRoles::Assistant, content: p };
                        self.messages.push(m);
                        self.last_error = None;
                        proof {
                            assert(self@.transcript =~= done_step(
                                old(self)@,
                                out_view(out),
                            ).0.transcript);
                        }
                        Some(Cmd::RunTool { tool: t, arguments, depth })
                    }
                },
            },
        }
    }

    /// Applies a finished chat call: parses the response body down to its
    /// packet — the content's nested encoding makes that a second decoding
    /// pass — classifies it, and applies the outcome. The session moves by
    /// exactly `done_step` on `http_outcome` of the result: a failure
    /// carried through, the parsed packet, or the parse's own typed error.
    pub fn handle_http_done(&mut self, result: Result<String, ChatError>) -> (cmd: Option<Cmd>)
        requires
            old(self)@.wf(),
        ensures
            final(self)@.wf(),
            (final(self)@, opt_cmd_view(cmd)) == done_step(
                old(self)@,
                http_outcome(res_view(result)),
            ),
    {
        let parsed: Result<ActionPacket, ChatError> = match result {
            Ok(body) => crate::packet::parse_reply(body.as_str()),
            Err(e) => Err(e),
        };
        self.apply_outcome(parsed)
    }

    /// Applies a finished tool run; returns the chained chat command, if the
    /// chain is live and has room.
    pub fn handle_tool_done(&mut self, tool: AssistantTool, payload: String) -> (cmd: Option<Cmd>)
        requires
            old(self)@.wf(),
        ensures
            final(self)@.wf(),
            (final(self)@, opt_cmd_view(cmd)) == tool_done_step(old(self)@, tool, payload@),
    {
        if self.waiting && self.chain_depth < self.depth_limit {
            let mut args: Vec<(String, String)> = Vec::new();
            args.push(("result".to_owned(), payload));
            proof {
                assert(args_view(args@) =~= seq![("result"@, payload@)]);
            }
            let entry = Message::new(MessageRoles::Tool, Action::Tool(tool), args);
            self.messages.push(entry);
            self.chain_depth = self.chain_depth + 1;
            proof {
                assert(self@.transcript =~= tool_done_step(
                    old(self)@,
                    tool,
                    payload@,
                ).0.transcript);
                assert(self@ =~= tool_done_step(old(self)@, tool, payload@).0);
            }
            let req = self.build_request();
            let depth = self.chain_depth;
            Some(Cmd::RunChat { req, depth })
        } else {
            None
        }
    }

    /// The input buffer as a string, for display.
    pub fn prompt_text(&self) -> (r: String)
        ensures
            r@ == self@.prompt,
    {
        string_from_chars(&self.prompt)
    }

    /// The input line as the display shows it: the buffer behind a cue, with
    /// a waiting marker while an operation is outstanding.
    pub fn input_line(&self) -> (r: String)
        ensures
            r@ == "> "@ + self@.prompt + (if self@.waiting {
                " (waiting...)"@
            } else {
                Seq::<char>::empty()
            }),
    {
        let mut out = String::from_str("> ");
        let text = string_from_chars(&self.prompt);
        out.append(text.as_str());
        if self.waiting {
            out.append(" (waiting...)");
        }
        proof {
            assert(out@ =~= "> "@ + self@.prompt + (if self@.waiting {
                " (waiting...)"@
            } else {
                Seq::<char>::empty()
            }));
        }
        out
    }

    /// Applies a finished diagnostic probe: keeps its raw text for display,
    /// or surfaces its failure.
    pub fn handle_probe_done(&mut self, result: Result<String, ChatError>)
        requires
            old(self)@.wf(),
        ensures
            final(self)@.wf(),
            final(self)@ == probe_step(old(self)@, res_view(result)),
    {
        match result {
            Ok(t) => {
                self.probe_text = Some(t);
            },
            Err(e) => {
                self.last_error = Some(e);
            },
        }
    }
}

/// One event as the loop applies it: an outcome already classified where a
/// raw body had to be parsed first.
#[verifier::ext_equal]
pub enum EventModel {
    Input(InputEvent),
    Done(Result<PacketModel, ChatError>),
    ToolDone { tool: AssistantTool, payload: Seq<char> },
    ProbeDone(Result<Seq<char>, ChatError>),
}

/// How one event moves the session, and the command it emits.
pub open spec fn event_step(s: StateModel, e: EventModel) -> (StateModel, Option<CmdModel>) {
    match e {
        EventModel::Input(ev) => input_step(s, ev),
        EventModel::Done(out) => done_step(s, out),
        EventModel::ToolDone { tool, payload } => tool_done_step(s, tool, payload),
        EventModel::ProbeDone(r) => (probe_step(s, r), None),
    }
}

/// The event a message resolves to: input, tool and probe results are
/// carried through unchanged; a finished chat call resolves to its parse. A
/// function of the message alone.
pub open spec fn event_of(m: MsgModel) -> EventModel {
    match m {
        MsgModel::Input(ev) => EventModel::Input(ev),
        MsgModel::HttpDone(r) => EventModel::Done(http_outcome(r)),
        MsgModel::ToolDone { tool, payload } => EventModel::ToolDone { tool, payload },
        MsgModel::ProbeDone(r) => EventModel::ProbeDone(r),
    }
}

/// The events a whole message queue resolves to, in order.
pub open spec fn events_of(msgs: Seq<Msg>) -> Seq<EventModel> {
    msgs.map_values(|m: Msg| event_of(m@))
}

/// The commands one event emits, as a sequence: none, or exactly one.
pub open spec fn opt_seq(c: Option<CmdModel>) -> Seq<CmdModel> {
    match c {
        Some(c) => seq![c],
        None => Seq::empty(),
    }
}

/// The session after a whole queue of events, with every emitted command, in
/// order. This is the loop's drain phase: each event's effect is applied
/// before the next, and none is skipped.
pub open spec fn drain_steps(s: StateModel, evs: Seq<EventModel>) -> (StateModel, Seq<CmdModel>)
    decreases evs.len(),
{
    if evs.len() == 0 {
        (s, Seq::empty())
    } else {
        let prev = drain_steps(s, evs.drop_last());
        let step = event_step(prev.0, evs.last());
        (step.0, prev.1 + opt_seq(step.1))
    }
}

/// Mathematical value of a command queue.
pub open spec fn cmds_view(s: Seq<Cmd>) -> Seq<CmdModel> {
    s.map_values(|c: Cmd| c@)
}

impl AppState {
    /// Applies one message; returns the command it emits, if any. The
    /// session moves by exactly the step of the event the message resolves
    /// to.
    pub fn handle_msg(&mut self, m: Msg) -> (cmd: Option<Cmd>)
        requires
            old(self)@.wf(),
        ensures
            final(self)@.wf(),
            (final(self)@, opt_cmd_view(cmd)) == event_step(old(self)@, event_of(m@)),
    {
        let ghost mv = m@;
        match m {
            Msg::Input(ev) => {
                let cmd = self.handle_input(ev);
                proof {
                    assert(event_of(mv) == EventModel::Input(ev));
                }
                cmd
            },
            Msg::HttpDone(res) => {
                let ghost rv = res_view(res);
                let cmd = self.handle_http_done(res);
                proof {
                    assert(event_of(mv) == EventModel::Done(http_outcome(rv)));
                }
                cmd
            },
            Msg::ToolDone { tool, payload } => {
                let ghost pv = payload@;
                let cmd = self.handle_tool_done(tool, payload);
                proof {
                    assert(event_of(mv) == (EventModel::ToolDone { tool, payload: pv }));
                }
                cmd
            },
            Msg::ProbeDone(res) => {
                let ghost rv = res_view(res);
                self.handle_probe_done(res);
                proof {
                    assert(event_of(mv) == EventModel::ProbeDone(rv));
                }
                None
            },
        }
    }

    /// The loop's drain phase: applies every message pending in the queue —
    /// all of them, before anything is drawn — and sends each emitted
    /// command, in order, toward the workers.
    ///
    /// Drain completeness: the resulting session is exactly the fold of the
    /// whole queue's events, never a strict subset's; every emitted command
    /// joined the command queue in order; the message queue is left empty.
    pub fn drain(&mut self, q: &mut Queues)
        requires
            old(self)@.wf(),
        ensures
            final(self)@.wf(),
            final(q).msg_q@.len() == 0,
            final(self)@ == drain_steps(old(self)@, events_of(old(q).msg_q@)).0,
            cmds_view(final(q).cmd_q@) == cmds_view(old(q).cmd_q@) + drain_steps(
                old(self)@,
                events_of(old(q).msg_q@),
            ).1,
    {
        let ghost s0 = old(self)@;
        let ghost msgs0 = old(q).msg_q@;
        let ghost cmds0 = old(q).cmd_q@;
        let ghost mut evs: Seq<EventModel> = Seq::empty();
        proof {
            assert(cmds_view(q.cmd_q@) =~= cmds_view(cmds0) + drain_steps(s0, evs).1);
            assert(q.msg_q@ =~= msgs0.subrange(evs.len() as int, msgs0.len() as int));
        }
        while q.msg_q.len() != 0
            invariant
                self@.wf(),
                evs.len() + q.msg_q@.len() == msgs0.len(),
                q.msg_q@ == msgs0.subrange(evs.len() as int, msgs0.len() as int),
                forall|i: int| 0 <= i < evs.len() ==> evs[i] == event_of(#[trigger] msgs0[i]@),
                self@ == drain_steps(s0, evs).0,
                cmds_view(q.cmd_q@) == cmds_view(cmds0) + drain_steps(s0, evs).1,
            decreases q.msg_q@.len(),
        {
            let m = q.recv_msg().unwrap();
            let ghost mv = m@;
            let ghost pre = self@;
            let ghost evs_before = evs;
            let cmd = self.handle_msg(m);
            let ghost cmdv = opt_cmd_view(cmd);
            forward_cmd(q, cmd);
            proof {
                evs = evs.push(event_of(mv));
                assert(evs.drop_last() =~= evs_before);
                assert(msgs0[evs_before.len() as int]@ == mv);
                assert(drain_steps(s0, evs).0 == self@);
                assert(cmds_view(q.cmd_q@) =~= cmds_view(cmds0) + drain_steps(s0, evs).1);
                assert(q.msg_q@ =~= msgs0.subrange(evs.len() as int, msgs0.len() as int));
            }
        }
        proof {
            assert(evs =~= events_of(msgs0));
        }
    }
}

/// Sends an emitted command, if there is one, toward the workers.
fn forward_cmd(q: &mut Queues, cmd: Option<Cmd>)
    ensures
        final(q).msg_q == old(q).msg_q,
        cmds_view(final(q).cmd_q@) == cmds_view(old(q).cmd_q@) + opt_seq(opt_cmd_view(cmd)),
{
    let ghost cmds0 = q.cmd_q@;
    let ghost cmdv = opt_cmd_view(cmd);
    match cmd {
        Some(c) => {
            q.send_cmd(c);
            proof {
                assert(cmds_view(q.cmd_q@) =~= cmds_view(cmds0) + opt_seq(cmdv));
            }
        },
        None => {
            proof {
                assert(cmds_view(q.cmd_q@) =~= cmds_view(cmds0) + opt_seq(cmdv));
            }
        },
    }
}

/// Draining splits: a queue of events applied in one pass ends in the same
/// state, and emits the same commands in the same order, as applying any
/// prefix first and the rest after. In particular no event's effect can be
/// deferred past a redraw: the state after a drain reflects every event.
pub proof fn lemma_drain_steps_concat(s: StateModel, evs1: Seq<EventModel>, evs2: Seq<EventModel>)
    ensures
        drain_steps(s, evs1 + evs2).0 == drain_steps(drain_steps(s, evs1).0, evs2).0,
        drain_steps(s, evs1 + evs2).1 == drain_steps(s, evs1).1 + drain_steps(
            drain_steps(s, evs1).0,
            evs2,
        ).1,
    decreases evs2.len(),
{
    if evs2.len() == 0 {
        assert(evs1 + evs2 =~= evs1);
        assert(drain_steps(s, evs1).1 + drain_steps(drain_steps(s, evs1).0, evs2).1
            =~= drain_steps(s, evs1).1);
    } else {
        lemma_drain_steps_concat(s, evs1, evs2.drop_last());
        assert((evs1 + evs2).drop_last() =~= evs1 + evs2.drop_last());
        assert((evs1 + evs2).last() == evs2.last());
        let mid = drain_steps(s, evs1);
        let rest = drain_steps(mid.0, evs2.drop_last());
        let step = event_step(rest.0, evs2.last());
        assert(drain_steps(s, evs1 + evs2).1 =~= mid.1 + (rest.1 + opt_seq(step.1)));
    }
}

/// Whether a packet requests an executable tool — the shape of a scripted
/// response that chains forever.
pub open spec fn tool_packet(p: PacketModel) -> bool {
    match p.action {
        Action::Tool(t) => t.spec_executable(),
        _ => false,
    }
}

/// The chain a session runs when every chat response is the packet `p` and
/// every tool run returns `payload`: each response's outcome is applied,
/// each requested tool run completes, and each chained chat request is
/// answered in turn. Yields the number of further chat dispatches and the
/// final state; `None` only when the given fuel runs out first.
pub open spec fn tool_chain_run(
    s: StateModel,
    p: PacketModel,
    payload: Seq<char>,
    fuel: nat,
) -> Option<(nat, StateModel)>
    decreases fuel,
{
    let first = done_step(s, Ok(p));
    match first.1 {
        None => Some((0, first.0)),
        Some(c) => {
            if fuel == 0 {
                None
            } else {
                match c {
                    CmdModel::RunTool { tool, .. } => {
                        let chained = tool_done_step(first.0, tool, payload);
                        match tool_chain_run(chained.0, p, payload, (fuel - 1) as nat) {
                            Some(rest) => Some(((rest.0 + 1) as nat, rest.1)),
                            None => None,
                        }
                    },
                    _ => None,
                }
            }
        },
    }
}

/// Recursion bound: a scripted response that always requests the same tool
/// terminates the chain with `ToolRecursionLimit` after exactly
/// `depth_limit - chain_depth` further chat dispatches — for a chain begun
/// by one submission (`chain_depth` 1), exactly the configured bound of
/// dispatches in total — and never hangs or runs past it.
pub proof fn lemma_recursion_bound(s: StateModel, p: PacketModel, payload: Seq<char>, fuel: nat)
    requires
        s.waiting,
        1 <= s.chain_depth,
        s.chain_depth <= s.depth_limit,
        tool_packet(p),
        fuel >= s.depth_limit - s.chain_depth,
    ensures
        tool_chain_run(s, p, payload, fuel) matches Some(r) && {
            &&& r.0 == s.depth_limit - s.chain_depth
            &&& !r.1.waiting
            &&& r.1.last_error == Some(ChatError::ToolRecursionLimit)
        },
    decreases s.depth_limit - s.chain_depth,
{
    if s.chain_depth < s.depth_limit {
        let first = done_step(s, Ok(p));
        let t = match p.action {
            Action::Tool(t) => t,
            _ => arbitrary(),
        };
        let chained = tool_done_step(first.0, t, payload);
        lemma_recursion_bound(chained.0, p, payload, (fuel - 1) as nat);
    }
}

/// Transcript entries are appended, never mutated or removed: every event
/// leaves the existing transcript in place as a prefix.
pub proof fn lemma_transcript_append_only(s: StateModel, e: EventModel)
    ensures
        ({
            let r = event_step(s, e);
            &&& r.0.transcript.len() >= s.transcript.len()
            &&& r.0.transcript.take(s.transcript.len() as int) == s.transcript
        }),
{
    let r = event_step(s, e);
    assert(r.0.transcript.take(s.transcript.len() as int) =~= s.transcript);
}

/// Append-only across a whole drain: however many events one pass applies,
/// the transcript that existed before the pass is a prefix of the one after.
pub proof fn lemma_transcript_append_only_drain(s: StateModel, evs: Seq<EventModel>)
    ensures
        ({
            let r = drain_steps(s, evs);
            &&& r.0.transcript.len() >= s.transcript.len()
            &&& r.0.transcript.take(s.transcript.len() as int) == s.transcript
        }),
    decreases evs.len(),
{
    if evs.len() > 0 {
        lemma_transcript_append_only_drain(s, evs.drop_last());
        let mid = drain_steps(s, evs.drop_last()).0;
        lemma_transcript_append_only(mid, evs.last());
        let end = drain_steps(s, evs).0;
        assert(end.transcript.take(s.transcript.len() as int) =~= s.transcript);
    }
}

/// Idle/Waiting, submitting: a submit while Idle enters Waiting and emits
/// exactly one command — a `RunChat` for the updated session, the first of
/// its chain.
pub proof fn lemma_submit_from_idle(s: StateModel)
    requires
        !s.waiting,
    ensures
        ({
            let r = input_step(s, InputEvent::Submit);
            &&& r.0.waiting
            &&& r.1 == Some(CmdModel::RunChat { req: request_model(r.0), depth: 1 })
        }),
{
}

/// Idle/Waiting, resolving: any chat outcome that does not itself chain a
/// follow-up command — a failure of any kind, or a conversational reply —
/// leaves Waiting and closes the chain.
pub proof fn lemma_terminal_result_idle(s: StateModel, out: Result<PacketModel, ChatError>)
    ensures
        ({
            let r = done_step(s, out);
            r.1 is None ==> !r.0.waiting && r.0.chain_depth == 0
        }),
{
}

/// How far the transcript view scrolls so its tail stays visible: the count
/// of entries that do not fit in the viewport — none when they all fit,
/// saturating at the widget's range. A viewport shorter than its two border
/// rows shows no content rows at all.
pub fn scroll_offset(entries: usize, rows: u16) -> (r: u16)
    ensures
        ({
            let avail = if rows >= 2 {
                rows - 2
            } else {
                0
            } as int;
            let over = entries - avail;
            r as int == if over <= 0 {
                0
            } else if over > u16::MAX {
                u16::MAX as int
            } else {
                over
            }
        }),
{
    let avail: usize = if rows >= 2 {
        (rows - 2) as usize
    } else {
        0
    };
    if entries > avail {
        let over = entries - avail;
        if over > u16::MAX as usize {
            u16::MAX
        } else {
            over as u16
        }
    } else {
        0
    }
}

/// A deep copy of an argument list, pair by pair.
fn clone_args(v: &Vec<(String, String)>) -> (r: Vec<(String, String)>)
    ensures
        args_view(r@) == args_view(v@),
{
    let mut r: Vec<(String, String)> = Vec::new();
    let n = v.len();
    let mut i: usize = 0;
    while i < n
        invariant
            n == v.len(),
            i <= n,
            r@.len() == i,
            forall|k: int|
                0 <= k < i ==> (#[trigger] r@[k]).0@ == v@[k].0@ && r@[k].1@ == v@[k].1@,
        decreases n - i,
    {
        let k = v[i].0.clone();
        let val = v[i].1.clone();
        r.push((k, val));
        i = i + 1;
    }
    proof {
        assert(args_view(r@) =~= args_view(v@));
    }
    r
}

} // verus!
