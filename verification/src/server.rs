//! The server side: a static tool registry and the dispatcher that resolves
//! tool calls by name.
//!
//! One tool is registered, `send_message`: it stores the received string in
//! the session state and echoes it back. A call naming any other tool fails
//! with a method-not-found error and leaves the session state untouched.

use vstd::prelude::*;
use vstd::string::*;
use crate::args::{ArgMap, message_of, extract_message};
use crate::session::SessionState;
use crate::text::str_eq;

verus! {

/// A tool-level failure, distinguishable from a tool's own error output.
#[derive(Debug, Clone, Copy, PartialEq, Eq)]
pub enum ToolError {
    /// The requested tool name is not in the registry.
    MethodNotFound,
}

/// The outcome of one tool call: a failure flag and the ordered text
/// content items.
#[derive(Debug, Clone, PartialEq, Eq)]
pub struct ToolCallResult {
    pub is_error: bool,
    pub content: Vec<String>,
}

/// One property of a tool's input schema.
#[derive(Debug, Clone, PartialEq, Eq)]
pub struct SchemaProperty {
    pub name: String,
    pub prop_type: String,
    pub description: Option<String>,
}

/// A tool's input schema: an object with named properties and a set of
/// required fields.
#[derive(Debug, Clone, PartialEq, Eq)]
pub struct ToolSchema {
    pub properties: Vec<SchemaProperty>,
    pub required: Vec<String>,
}

/// A registered tool: unique name, optional description, input schema.
#[derive(Debug, Clone, PartialEq, Eq)]
pub struct Tool {
    pub name: String,
    pub description: Option<String>,
    pub input_schema: ToolSchema,
}

/// A page of listed tools; no further page ever follows here.
#[derive(Debug, Clone, PartialEq, Eq)]
pub struct ListToolsResult {
    pub tools: Vec<Tool>,
    pub next_cursor: Option<String>,
}

/// A protocol version triple.
#[derive(Debug, Clone, Copy, PartialEq, Eq, Structural)]
pub struct ProtocolVersion {
    pub major: u32,
    pub minor: u32,
    pub patch: u32,
}

/// The server's self-description.
#[derive(Debug, Clone, PartialEq, Eq)]
pub struct ServerInfo {
    pub protocol_version: ProtocolVersion,
    pub name: String,
    pub version: String,
    pub instructions: Option<String>,
}

/// The text the message tool replies with.
pub open spec fn response_text_of(m: Seq<char>) -> Seq<char> {
    "Received message: "@ + m
}

/// What a dispatched call does to the session state: the message tool
/// stores the extracted message; an unknown name changes nothing.
pub open spec fn dispatch_state(state: Seq<char>, name: Seq<char>, args: Option<ArgMap>) -> Seq<char> {
    if name == "send_message"@ {
        message_of(args)
    } else {
        state
    }
}

/// What a dispatched call replies: the echo text on the one registered
/// name, a method-not-found error on every other.
pub open spec fn dispatch_reply(name: Seq<char>, args: Option<ArgMap>) -> Result<Seq<char>, ToolError> {
    if name == "send_message"@ {
        Ok(response_text_of(message_of(args)))
    } else {
        Err(ToolError::MethodNotFound)
    }
}

/// The one statically registered tool, exactly as advertised.
pub open spec fn is_registered_tool(t: Tool) -> bool {
    &&& t.name@ == "send_message"@
    &&& t.description matches Some(d) && d@ == "Send a message to the server"@
    &&& t.input_schema.properties@.len() == 1
    &&& t.input_schema.properties@[0].name@ == "message"@
    &&& t.input_schema.properties@[0].prop_type@ == "string"@
    &&& t.input_schema.properties@[0].description matches Some(pd) && pd@ == "Message to send"@
    &&& t.input_schema.required@.len() == 1
    &&& t.input_schema.required@[0]@ == "message"@
}

/// The server: the registry is static; the session state is the only
/// mutable part, and is its abstract view.
#[derive(Debug)]
pub struct TestServer {
    session: SessionState,
}

impl View for TestServer {
    type V = Seq<char>;

    closed spec fn view(&self) -> Seq<char> {
        self.session@
    }
}

impl TestServer {
    /// A fresh server whose session state holds the documented default.
    pub fn new() -> (r: TestServer)
        ensures
            r@ == "No message"@,
    {
        TestServer { session: SessionState::new() }
    }

    /// Stores `message` and replies with the echo text; never fails.
    pub fn handle_message(&mut self, message: String) -> (r: Result<ToolCallResult, ToolError>)
        ensures
            final(self)@ == message@,
            r matches Ok(res) && res.is_error == false && res.content@.len() == 1
                && res.content@[0]@ == response_text_of(message@),
    {
        let stored: String = self.session.set_and_read(message);
        let mut text: String = String::from_str("Received message: ");
        text.append(stored.as_str());
        Ok(ToolCallResult { is_error: false, content: vec![text] })
    }

    /// The registered message tool: stores the message and echoes it.
    pub fn send_message(&mut self, message: String) -> (r: Result<ToolCallResult, ToolError>)
        ensures
            final(self)@ == message@,
            r matches Ok(res) && res.is_error == false && res.content@.len() == 1
                && res.content@[0]@ == response_text_of(message@),
    {
        self.handle_message(message)
    }

    /// Resolves a call by tool name. On the registered name the message is
    /// extracted with its default and handled; on any other name the call
    /// fails with method-not-found and the state is unchanged.
    pub fn call_tool(&mut self, name: &str, arguments: Option<ArgMap>) -> (r: Result<ToolCallResult, ToolError>)
        ensures
            final(self)@ == dispatch_state(old(self)@, name@, arguments),
            (match dispatch_reply(name@, arguments) {
                Ok(t) => r matches Ok(res) && res.is_error == false && res.content@.len() == 1
                    && res.content@[0]@ == t,
                Err(e) => r matches Err(e2) && e2 == e,
            }),
    {
        if str_eq(name, "send_message") {
            let msg: String = extract_message(&arguments);
            self.handle_message(msg)
        } else {
            Err(ToolError::MethodNotFound)
        }
    }

    /// The static registry: always exactly the one registered tool, whatever
    /// calls went before; the result does not depend on the session state.
    pub fn list_tools(&self) -> (r: ListToolsResult)
        ensures
            r.tools@.len() == 1,
            is_registered_tool(r.tools@[0]),
            r.next_cursor is None,
    {
        let schema = ToolSchema {
            properties: vec![
                SchemaProperty {
                    name: String::from_str("message"),
                    prop_type: String::from_str("string"),
                    description: Some(String::from_str("Message to send")),
                },
            ],
            required: vec![String::from_str("message")],
        };
        let tool = Tool {
            name: String::from_str("send_message"),
            description: Some(String::from_str("Send a message to the server")),
            input_schema: schema,
        };
        ListToolsResult { tools: vec![tool], next_cursor: None }
    }

    /// The server's self-description, a constant.
    pub fn get_info(&self) -> (r: ServerInfo)
        ensures
            r.protocol_version.major == 0,
            r.protocol_version.minor == 1,
            r.protocol_version.patch == 0,
            r.name@ == "Test Server"@,
            r.version@ == "0.1.0"@,
            r.instructions is None,
    {
        ServerInfo {
            protocol_version: ProtocolVersion { major: 0, minor: 1, patch: 0 },
            name: String::from_str("Test Server"),
            version: String::from_str("0.1.0"),
            instructions: None,
        }
    }
}

/// Last write wins: after the message tool runs on `a1` and then on `a2`,
/// the stored message and the reply are those of `a2` alone — nothing of
/// the first call accumulates.
pub proof fn lemma_last_write_wins(s0: Seq<char>, a1: Option<ArgMap>, a2: Option<ArgMap>)
    ensures
        dispatch_state(dispatch_state(s0, "send_message"@, a1), "send_message"@, a2)
            == message_of(a2),
        dispatch_reply("send_message"@, a2)
            == Ok::<Seq<char>, ToolError>(response_text_of(message_of(a2))),
{
}

/// A call naming an unregistered tool fails with method-not-found and
/// leaves the session state exactly as it was.
pub proof fn lemma_unknown_tool_leaves_state(s0: Seq<char>, name: Seq<char>, args: Option<ArgMap>)
    requires
        name != "send_message"@,
    ensures
        dispatch_state(s0, name, args) == s0,
        dispatch_reply(name, args) == Err::<Seq<char>, ToolError>(ToolError::MethodNotFound),
{
}

} // verus!
