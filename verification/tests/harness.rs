use mcp_harness::args::{extract_message, ArgMap, ArgValue};
use mcp_harness::client::{plan_calls, step, DriverAction, DriverEvent, DriverState};
use mcp_harness::config::{effective_host, effective_port, effective_url, parse_port, ConfigError};
use mcp_harness::server::{TestServer, Tool, ToolError, ToolSchema};
use mcp_harness::session::SessionState;
use mcp_harness::text::str_eq;

fn message_args(m: &str) -> ArgMap {
    let mut args = ArgMap::new();
    args.push("message".to_string(), ArgValue::Str(m.to_string()));
    args
}

fn named_tool(name: &str) -> Tool {
    Tool {
        name: name.to_string(),
        description: None,
        input_schema: ToolSchema { properties: vec![], required: vec![] },
    }
}

#[test]
fn send_message_echoes_back() {
    let mut server = TestServer::new();
    let result = server
        .call_tool("send_message", Some(message_args("hi there")))
        .expect("registered tool must succeed");
    assert!(!result.is_error);
    assert_eq!(result.content, vec!["Received message: hi there".to_string()]);
}

#[test]
fn last_write_wins() {
    let mut server = TestServer::new();
    let first = server
        .call_tool("send_message", Some(message_args("first")))
        .expect("registered tool must succeed");
    assert_eq!(first.content, vec!["Received message: first".to_string()]);
    let second = server
        .call_tool("send_message", Some(message_args("second")))
        .expect("registered tool must succeed");
    assert_eq!(second.content, vec!["Received message: second".to_string()]);
    assert!(!second.content[0].contains("first"));
}

#[test]
fn missing_arguments_fall_back_to_default() {
    let mut server = TestServer::new();
    let result = server
        .call_tool("send_message", None)
        .expect("registered tool must succeed");
    assert_eq!(result.content, vec!["Received message: No message".to_string()]);
}

#[test]
fn missing_message_field_falls_back_to_default() {
    let mut server = TestServer::new();
    let mut args = ArgMap::new();
    args.push("other".to_string(), ArgValue::Str("x".to_string()));
    let result = server
        .call_tool("send_message", Some(args))
        .expect("registered tool must succeed");
    assert_eq!(result.content, vec!["Received message: No message".to_string()]);
}

#[test]
fn non_string_message_falls_back_to_default() {
    let mut args = ArgMap::new();
    args.push("message".to_string(), ArgValue::Int(7));
    assert_eq!(extract_message(&Some(args)), "No message");
    let mut args2 = ArgMap::new();
    args2.push("message".to_string(), ArgValue::Null);
    assert_eq!(extract_message(&Some(args2)), "No message");
}

#[test]
fn arg_map_lookup_takes_first_match() {
    let mut args = ArgMap::new();
    args.push("message".to_string(), ArgValue::Str("one".to_string()));
    args.push("message".to_string(), ArgValue::Str("two".to_string()));
    assert_eq!(extract_message(&Some(args)), "one");
    assert_eq!(extract_message(&None), "No message");
}

#[test]
fn unknown_tool_is_method_not_found() {
    let mut server = TestServer::new();
    let result = server.call_tool("get_server_info", None);
    assert_eq!(result, Err(ToolError::MethodNotFound));
    let result = server.call_tool("", Some(message_args("m")));
    assert_eq!(result, Err(ToolError::MethodNotFound));
    let after = server
        .call_tool("send_message", Some(message_args("still fine")))
        .expect("server must keep serving after a failed request");
    assert_eq!(after.content, vec!["Received message: still fine".to_string()]);
}

#[test]
fn list_tools_is_static() {
    let mut server = TestServer::new();
    let before = server.list_tools();
    assert_eq!(before.tools.len(), 1);
    let tool = &before.tools[0];
    assert_eq!(tool.name, "send_message");
    assert_eq!(tool.description.as_deref(), Some("Send a message to the server"));
    assert_eq!(tool.input_schema.properties.len(), 1);
    assert_eq!(tool.input_schema.properties[0].name, "message");
    assert_eq!(tool.input_schema.properties[0].prop_type, "string");
    assert_eq!(
        tool.input_schema.properties[0].description.as_deref(),
        Some("Message to send")
    );
    assert_eq!(tool.input_schema.required, vec!["message".to_string()]);
    assert!(before.next_cursor.is_none());

    server.call_tool("send_message", Some(message_args("m"))).unwrap();
    server.call_tool("no_such_tool", None).unwrap_err();
    let after = server.list_tools();
    assert_eq!(before, after);
}

#[test]
fn get_info_is_constant() {
    let server = TestServer::new();
    let info = server.get_info();
    assert_eq!(info.protocol_version.major, 0);
    assert_eq!(info.protocol_version.minor, 1);
    assert_eq!(info.protocol_version.patch, 0);
    assert_eq!(info.name, "Test Server");
    assert_eq!(info.version, "0.1.0");
    assert!(info.instructions.is_none());
}

#[test]
fn session_returns_what_it_stores() {
    let mut session = SessionState::new();
    assert_eq!(session.set_and_read("a".to_string()), "a");
    assert_eq!(session.set_and_read("b".to_string()), "b");
}

#[test]
fn scenario_full_run_against_the_server() {
    let mut server = TestServer::new();
    let mut state = DriverState::Idle;
    let mut event = DriverEvent::Started;
    let mut texts: Vec<String> = vec![];
    let mut steps = 0;
    let success = loop {
        steps += 1;
        assert!(steps < 20, "driver did not terminate");
        let (next, action) = step(state, event);
        state = next;
        event = match action {
            DriverAction::Connect => DriverEvent::Connected,
            DriverAction::ListTools => DriverEvent::ToolsListed(server.list_tools().tools),
            DriverAction::CallTool(call) => {
                let result = server
                    .call_tool(call.name.as_str(), call.arguments)
                    .expect("the driver only calls advertised tools");
                texts.push(result.content[0].clone());
                DriverEvent::CallCompleted(result)
            }
            DriverAction::Disconnect => DriverEvent::Disconnected,
            DriverAction::ReportSuccess => break true,
            DriverAction::ReportFailure => break false,
        };
    };
    assert!(success);
    assert!(matches!(state, DriverState::Done));
    assert_eq!(texts, vec!["Received message: Hello from Rust E2E client!".to_string()]);
}

#[test]
fn scenario_unadvertised_tool_is_skipped() {
    let server = TestServer::new();
    let plan = plan_calls(&server.list_tools().tools);
    assert_eq!(plan.len(), 1);
    assert_eq!(plan[0].name, "send_message");
    assert!(plan.iter().all(|c| c.name != "get_server_info"));
}

#[test]
fn plan_follows_the_advertised_set() {
    let all = vec![
        named_tool("increment"),
        named_tool("get_server_info"),
        named_tool("send_message"),
    ];
    let plan = plan_calls(&all);
    assert_eq!(plan.len(), 3);
    assert_eq!(plan[0].name, "send_message");
    let args = plan[0].arguments.as_ref().unwrap();
    assert_eq!(args.entries.len(), 1);
    assert_eq!(args.entries[0].key, "message");
    assert_eq!(
        args.entries[0].value,
        ArgValue::Str("Hello from Rust E2E client!".to_string())
    );
    assert_eq!(plan[1].name, "get_server_info");
    assert_eq!(plan[1].arguments.as_ref().unwrap().entries.len(), 0);
    assert_eq!(plan[2].name, "increment");
    let inc_args = plan[2].arguments.as_ref().unwrap();
    assert_eq!(inc_args.entries[0].key, "value");
    assert_eq!(inc_args.entries[0].value, ArgValue::Int(42));

    let only_increment = vec![named_tool("increment")];
    let plan = plan_calls(&only_increment);
    assert_eq!(plan.len(), 1);
    assert_eq!(plan[0].name, "increment");

    let none: Vec<Tool> = vec![];
    assert!(plan_calls(&none).is_empty());
}

#[test]
fn driver_aborts_on_any_error() {
    let (state, action) = step(DriverState::AwaitingConnect, DriverEvent::Error);
    assert!(matches!(state, DriverState::Failed));
    assert!(matches!(action, DriverAction::ReportFailure));
    let (state, action) = step(DriverState::AwaitingTools, DriverEvent::Error);
    assert!(matches!(state, DriverState::Failed));
    assert!(matches!(action, DriverAction::ReportFailure));
    let (state, action) = step(DriverState::Idle, DriverEvent::Connected);
    assert!(matches!(state, DriverState::Failed));
    assert!(matches!(action, DriverAction::ReportFailure));
}

#[test]
fn scenario_invalid_port_is_fatal() {
    assert_eq!(
        effective_port(Some("notanumber".to_string())),
        Err(ConfigError::InvalidPort)
    );
}

#[test]
fn port_parsing() {
    assert_eq!(parse_port("8000"), Some(8000));
    assert_eq!(parse_port("0"), Some(0));
    assert_eq!(parse_port("65535"), Some(65535));
    assert_eq!(parse_port("65536"), None);
    assert_eq!(parse_port("99999999999999999999"), None);
    assert_eq!(parse_port(""), None);
    assert_eq!(parse_port("+123"), Some(123));
    assert_eq!(parse_port("+"), None);
    assert_eq!(parse_port("-1"), None);
    assert_eq!(parse_port("00008000"), Some(8000));
    assert_eq!(parse_port("80 00"), None);
    assert_eq!(parse_port("8000x"), None);
}

#[test]
fn configuration_defaults() {
    assert_eq!(effective_port(None), Ok(8000));
    assert_eq!(effective_port(Some("9090".to_string())), Ok(9090));
    assert_eq!(effective_host(None), "0.0.0.0");
    assert_eq!(effective_host(Some("127.0.0.1".to_string())), "127.0.0.1");
    assert_eq!(effective_url(None), "http://localhost:8000/mcp");
    assert_eq!(
        effective_url(Some("http://example.test/mcp".to_string())),
        "http://example.test/mcp"
    );
}

#[test]
fn string_comparison() {
    assert!(str_eq("", ""));
    assert!(str_eq("send_message", "send_message"));
    assert!(!str_eq("send_message", "send_messagE"));
    assert!(!str_eq("send_message", "send_message "));
    assert!(str_eq("héllo", "héllo"));
    assert!(!str_eq("héllo", "hello"));
}
