//! The client side: planning which well-known tools to call, and the
//! driver state machine that sequences one whole run.
//!
//! The driver treats the discovered tool set as a capability set: each of a
//! small fixed list of well-known tools is called, with its literal example
//! arguments, only if the server advertises it; tools not advertised are
//! skipped silently. The run is strictly sequential — connect, list tools,
//! the planned calls in order, disconnect — and any failure aborts the rest
//! with no retry. The network work itself happens outside the library: the
//! hosting process performs each returned action and feeds the outcome back
//! in as the next event.

use vstd::prelude::*;
use vstd::string::*;
use crate::args::{ArgMap, ArgValue};
use crate::server::{Tool, ToolCallResult};
use crate::text::str_eq;

verus! {

/// One planned tool invocation: a name and its literal arguments.
#[derive(Debug, Clone, PartialEq, Eq)]
pub struct PlannedCall {
    pub name: String,
    pub arguments: Option<ArgMap>,
}

/// Whether the discovered tool set advertises a tool of this name.
pub open spec fn has_tool(tools: Seq<Tool>, name: Seq<char>) -> bool {
    exists|i: int| 0 <= i < tools.len() && tools[i].name@ == name
}

/// The well-known message call with its literal example argument.
pub open spec fn call_is_send_message(c: PlannedCall) -> bool {
    &&& c.name@ == "send_message"@
    &&& c.arguments matches Some(m) && m.entries@.len() == 1
        && m.entries@[0].key@ == "message"@
        && (m.entries@[0].value matches ArgValue::Str(s)
            && s@ == "Hello from Rust E2E client!"@)
}

/// The well-known server-info call, carrying no arguments.
pub open spec fn call_is_get_server_info(c: PlannedCall) -> bool {
    &&& c.name@ == "get_server_info"@
    &&& c.arguments matches Some(m) && m.entries@.len() == 0
}

/// The well-known increment call with its literal example argument.
pub open spec fn call_is_increment(c: PlannedCall) -> bool {
    &&& c.name@ == "increment"@
    &&& c.arguments matches Some(m) && m.entries@.len() == 1
        && m.entries@[0].key@ == "value"@
        && (m.entries@[0].value matches ArgValue::Int(v) && v == 42)
}

/// The plan for a discovered tool set: each well-known call appears, in the
/// fixed order, exactly when its tool is advertised.
pub open spec fn plan_matches(tools: Seq<Tool>, plan: Seq<PlannedCall>) -> bool {
    let w1 = has_tool(tools, "send_message"@);
    let w2 = has_tool(tools, "get_server_info"@);
    let w3 = has_tool(tools, "increment"@);
    let n1: int = if w1 { 1 } else { 0 };
    let n2: int = if w2 { 1 } else { 0 };
    let n3: int = if w3 { 1 } else { 0 };
    &&& plan.len() == n1 + n2 + n3
    &&& (w1 ==> call_is_send_message(plan[0]))
    &&& (w2 ==> call_is_get_server_info(plan[n1]))
    &&& (w3 ==> call_is_increment(plan[n1 + n2]))
}

/// Decides membership of a name in the discovered tool set.
pub fn tools_contain(tools: &Vec<Tool>, name: &str) -> (r: bool)
    ensures
        r == has_tool(tools@, name@),
{
    let n: usize = tools.len();
    let mut i: usize = 0;
    while i < n
        invariant
            n == tools@.len(),
            0 <= i <= n,
            forall|j: int| 0 <= j < i ==> tools@[j].name@ != name@,
        decreases n - i,
    {
        if str_eq(tools[i].name.as_str(), name) {
            return true;
        }
        i = i + 1;
    }
    false
}

fn send_message_call() -> (r: PlannedCall)
    ensures
        call_is_send_message(r),
{
    let mut arg_map = ArgMap::new();
    arg_map.push(
        String::from_str("message"),
        ArgValue::Str(String::from_str("Hello from Rust E2E client!")),
    );
    PlannedCall { name: String::from_str("send_message"), arguments: Some(arg_map) }
}

fn get_server_info_call() -> (r: PlannedCall)
    ensures
        call_is_get_server_info(r),
{
    PlannedCall { name: String::from_str("get_server_info"), arguments: Some(ArgMap::new()) }
}

fn increment_call() -> (r: PlannedCall)
    ensures
        call_is_increment(r),
{
    let mut arg_map = ArgMap::new();
    arg_map.push(String::from_str("value"), ArgValue::Int(42));
    PlannedCall { name: String::from_str("increment"), arguments: Some(arg_map) }
}

/// Plans the run against a discovered tool set: the well-known calls whose
/// tools are advertised, in the fixed order, and no call for any tool the
/// server does not advertise.
pub fn plan_calls(tools: &Vec<Tool>) -> (r: Vec<PlannedCall>)
    ensures
        plan_matches(tools@, r@),
        forall|i: int| 0 <= i < r@.len() ==> has_tool(tools@, #[trigger] r@[i].name@),
{
    let mut plan: Vec<PlannedCall> = Vec::new();
    if tools_contain(tools, "send_message") {
        plan.push(send_message_call());
    }
    if tools_contain(tools, "get_server_info") {
        plan.push(get_server_info_call());
    }
    if tools_contain(tools, "increment") {
        plan.push(increment_call());
    }
    plan
}

/// A tool the server does not advertise is skipped silently: no planned
/// call carries its name.
pub proof fn lemma_unadvertised_tool_skipped(tools: Seq<Tool>, plan: Seq<PlannedCall>, name: Seq<char>)
    requires
        !has_tool(tools, name),
        forall|i: int| 0 <= i < plan.len() ==> has_tool(tools, #[trigger] plan[i].name@),
    ensures
        forall|i: int| 0 <= i < plan.len() ==> #[trigger] plan[i].name@ != name,
{
}

/// Where the driver stands in its strictly sequential run.
#[derive(Debug, Clone, PartialEq, Eq)]
pub enum DriverState {
    Idle,
    AwaitingConnect,
    AwaitingTools,
    Calling { pending: Vec<PlannedCall> },
    AwaitingDisconnect,
    Done,
    Failed,
}

/// What the hosting process reports back after performing an action.
#[derive(Debug, Clone, PartialEq, Eq)]
pub enum DriverEvent {
    Started,
    Connected,
    ToolsListed(Vec<Tool>),
    CallCompleted(ToolCallResult),
    Disconnected,
    Error,
}

/// What the hosting process is to perform next.
#[derive(Debug, Clone, PartialEq, Eq)]
pub enum DriverAction {
    Connect,
    ListTools,
    CallTool(PlannedCall),
    Disconnect,
    ReportSuccess,
    ReportFailure,
}

/// One decision of the driver: from the current state and the event that
/// arrived, the next state and the next action. Any error, and any event
/// that the current state does not expect, aborts the run with a failure
/// report; nothing is retried.
pub fn step(state: DriverState, event: DriverEvent) -> (r: (DriverState, DriverAction))
    ensures
        (match (state, event) {
            (DriverState::Idle, DriverEvent::Started) =>
                r.0 is AwaitingConnect && r.1 is Connect,
            (DriverState::AwaitingConnect, DriverEvent::Connected) =>
                r.0 is AwaitingTools && r.1 is ListTools,
            (DriverState::AwaitingTools, DriverEvent::ToolsListed(tools)) => ({
                ||| (r.0 is AwaitingDisconnect && r.1 is Disconnect
                    && plan_matches(tools@, Seq::<PlannedCall>::empty()))
                ||| (r.0 matches DriverState::Calling { pending }
                    && r.1 matches DriverAction::CallTool(c)
                    && plan_matches(tools@, seq![c] + pending@)
                    && has_tool(tools@, c.name@)
                    && (forall|i: int| 0 <= i < pending@.len()
                        ==> has_tool(tools@, #[trigger] pending@[i].name@)))
            }),
            (DriverState::Calling { pending }, DriverEvent::CallCompleted(_)) => ({
                &&& pending@.len() == 0 ==> r.0 is AwaitingDisconnect && r.1 is Disconnect
                &&& pending@.len() > 0 ==> (r.0 matches DriverState::Calling { pending: rest }
                    && rest@ == pending@.skip(1)
                    && (r.1 matches DriverAction::CallTool(c) && c == pending@[0]))
            }),
            (DriverState::AwaitingDisconnect, DriverEvent::Disconnected) =>
                r.0 is Done && r.1 is ReportSuccess,
            (_, _) => r.0 is Failed && r.1 is ReportFailure,
        }),
{
    match (state, event) {
        (DriverState::Idle, DriverEvent::Started) => {
            (DriverState::AwaitingConnect, DriverAction::Connect)
        },
        (DriverState::AwaitingConnect, DriverEvent::Connected) => {
            (DriverState::AwaitingTools, DriverAction::ListTools)
        },
        (DriverState::AwaitingTools, DriverEvent::ToolsListed(tools)) => {
            let mut plan = plan_calls(&tools);
            if plan.len() == 0 {
                proof {
                    assert(plan@ =~= Seq::<PlannedCall>::empty());
                }
                (DriverState::AwaitingDisconnect, DriverAction::Disconnect)
            } else {
                let ghost whole = plan@;
                let first = plan.remove(0);
                proof {
                    assert(seq![first] + plan@ =~= whole);
                }
                (DriverState::Calling { pending: plan }, DriverAction::CallTool(first))
            }
        },
        (DriverState::Calling { pending }, DriverEvent::CallCompleted(_)) => {
            let mut rest = pending;
            if rest.len() == 0 {
                (DriverState::AwaitingDisconnect, DriverAction::Disconnect)
            } else {
                let first = rest.remove(0);
                proof {
                    assert(rest@ =~= pending@.skip(1));
                }
                (DriverState::Calling { pending: rest }, DriverAction::CallTool(first))
            }
        },
        (DriverState::AwaitingDisconnect, DriverEvent::Disconnected) => {
            (DriverState::Done, DriverAction::ReportSuccess)
        },
        (_, _) => (DriverState::Failed, DriverAction::ReportFailure),
    }
}

} // verus!
