use media_convertor::mcp_request::{rpc_request, tool_request, BodyPart, ToolCall};
use media_convertor::mcp::{
    mcp_raw_enabled, mcp_work_dir, rpc_method,
    tool_error_text, tool_named, tool_report_text, tools_list, unknown_method_message,
    ParamType, RpcMethod, Tool, METHOD_NOT_FOUND, PARSE_ERROR,
};

#[test]
fn rpc_methods_route() {
    assert_eq!(rpc_method("initialize"), RpcMethod::Initialize);
    assert_eq!(rpc_method("tools/list"), RpcMethod::ToolsList);
    assert_eq!(rpc_method("tools/call"), RpcMethod::ToolsCall);
    assert_eq!(rpc_method("shutdown"), RpcMethod::Shutdown);
    assert_eq!(rpc_method("resources/list"), RpcMethod::Unknown);
    assert_eq!(rpc_method(""), RpcMethod::Unknown);
    assert_eq!(unknown_method_message("ping"), "unknown method: ping");
    assert_eq!(METHOD_NOT_FOUND, -32601);
    assert_eq!(PARSE_ERROR, -32700);
}

#[test]
fn unknown_tool_is_error() {
    let text = tool_error_text(&tool_named("nonexistent").unwrap_err());
    assert!(text.contains("unknown tool"), "text: {text}");
    assert_eq!(text, "Error: unknown tool: nonexistent");
}

#[test]
fn tool_names_cover_non_admin_surface() {
    let expected = [
        ("convert", Tool::Convert),
        ("extract_audio", Tool::ExtractAudio),
        ("thumbnail", Tool::Thumbnail),
        ("filter", Tool::Filter),
        ("concat", Tool::Concat),
        ("raw", Tool::Raw),
        ("probe", Tool::Probe),
        ("presets", Tool::Presets),
        ("capabilities", Tool::Capabilities),
    ];
    for (name, tool) in expected {
        assert_eq!(tool_named(name), Ok(tool), "{name}");
    }
    for forbidden in ["server", "start", "stop", "status", "Convert"] {
        assert!(tool_named(forbidden).is_err(), "admin tool leaked: {forbidden}");
    }
}

fn call_line(id: u64, tool: &str, arguments: &str) -> String {
    format!(r#"{{"jsonrpc":"2.0","id":{id},"method":"tools/call","params":{{"name":"{tool}","arguments":{arguments}}}}}"#)
}

fn tool_call_of(line: &str) -> Result<(Tool, ToolCall), String> {
    let rpc = rpc_request(line.as_bytes()).unwrap();
    assert_eq!(rpc.method, RpcMethod::ToolsCall);
    tool_request(&rpc.request)
}

fn body_of(call: &ToolCall) -> Vec<(String, String)> {
    call.body
        .as_ref()
        .unwrap()
        .iter()
        .map(|(k, p)| match p {
            BodyPart::Value(v) => (k.clone(), v.to_string()),
            BodyPart::Text(t) => (k.clone(), format!("text:{t}")),
        })
        .collect()
}

#[test]
fn concat_rejects_single_input() {
    let line = call_line(1, "concat", r#"{"input_paths":["only-one.mp4"],"output_path":"out.mkv"}"#);
    let text = tool_error_text(&tool_call_of(&line).unwrap_err());
    assert!(text.contains("at least 2"), "text: {text}");
}

#[test]
fn concat_inputs_and_fields() {
    let line = call_line(2, "concat", r#"{"input_paths":["a.mp4","b.mp4","c.mp4"],"output_path":"/o/all.mkv"}"#);
    let (tool, call) = tool_call_of(&line).unwrap();
    assert_eq!(tool, Tool::Concat);
    assert_eq!(call.op, "concat");
    assert_eq!(
        call.inputs,
        vec![
            ("file".to_string(), "a.mp4".to_string()),
            ("file2".to_string(), "b.mp4".to_string()),
            ("file3".to_string(), "c.mp4".to_string()),
        ]
    );
    assert_eq!(body_of(&call), vec![("format".to_string(), "text:mkv".to_string())]);
    let line = call_line(3, "concat", r#"{"input_paths":["a.mp4",7],"output_path":"o.mkv"}"#);
    assert_eq!(tool_call_of(&line).unwrap_err(), "input_paths must be strings");
    let line = call_line(4, "concat", r#"{"output_path":"o.mkv"}"#);
    assert_eq!(tool_call_of(&line).unwrap_err(), "missing input_paths");
}

#[test]
fn tool_formats_default_to_output_extension() {
    let line = call_line(1, "filter", r#"{"input_path":"i.mp4","output_path":"/o/out.mp4","graph":"hflip","format":"mkv"}"#);
    let (_, call) = tool_call_of(&line).unwrap();
    assert_eq!(body_of(&call), vec![("graph".to_string(), "text:hflip".to_string()), ("format".to_string(), "text:mkv".to_string())]);
    let line = call_line(1, "filter", r#"{"input_path":"i.mp4","output_path":"/o/out","graph":"hflip"}"#);
    let (_, call) = tool_call_of(&line).unwrap();
    assert_eq!(body_of(&call), vec![("graph".to_string(), "text:hflip".to_string())]);
    let line = call_line(1, "convert", r#"{"input_path":"i.wav","output_path":"/o/a.mp3"}"#);
    let (_, call) = tool_call_of(&line).unwrap();
    assert_eq!(body_of(&call), vec![("format".to_string(), "text:mp3".to_string())]);
    let line = call_line(1, "convert", r#"{"input_path":"i.wav","output_path":"/o/a.mp3","preset":"podcast-mp3"}"#);
    let (_, call) = tool_call_of(&line).unwrap();
    assert_eq!(body_of(&call), vec![("preset".to_string(), "\"podcast-mp3\"".to_string())]);
}

#[test]
fn convert_call_copies_given_arguments() {
    let line = call_line(
        9,
        "convert",
        r#"{"input_path":"in.mov","output_path":"out.mp4","crf":23,"width":null,"no_audio":true,"audio_bitrate":192000,"format":"mp4"}"#,
    );
    let (tool, call) = tool_call_of(&line).unwrap();
    assert_eq!(tool, Tool::Convert);
    assert!(call.post);
    assert_eq!(call.inputs, vec![("file".to_string(), "in.mov".to_string())]);
    assert_eq!(call.output.as_deref(), Some("out.mp4"));
    assert_eq!(
        body_of(&call),
        vec![
            ("format".to_string(), "\"mp4\"".to_string()),
            ("crf".to_string(), "23".to_string()),
            ("no_audio".to_string(), "true".to_string()),
            ("audio_bitrate".to_string(), "text:192000".to_string()),
        ]
    );
    let line = call_line(9, "convert", r#"{"output_path":"out.mp4"}"#);
    assert_eq!(tool_call_of(&line).unwrap_err(), "missing input_path");
}

#[test]
fn raw_probe_and_inline_calls() {
    let line = call_line(1, "raw", r#"{"input_path":"i.mp4","output_path":"o","args":["-c","copy"]}"#);
    let (_, call) = tool_call_of(&line).unwrap();
    assert_eq!(
        body_of(&call),
        vec![("args".to_string(), "[\"-c\",\"copy\"]".to_string()), ("output_ext".to_string(), "text:mkv".to_string())]
    );
    let line = call_line(1, "raw", r#"{"input_path":"i.mp4","output_path":"o.mp4","args":"-c copy"}"#);
    assert_eq!(tool_call_of(&line).unwrap_err(), "missing args array");
    let line = call_line(1, "probe", r#"{"path":"/m/a.mkv"}"#);
    let (_, call) = tool_call_of(&line).unwrap();
    assert!(call.body.is_none() && call.output.is_none());
    assert_eq!(call.inputs, vec![("file".to_string(), "/m/a.mkv".to_string())]);
    let line = call_line(1, "capabilities", "{}");
    let (_, call) = tool_call_of(&line).unwrap();
    assert!(!call.post);
    assert_eq!(call.query, vec![("kind".to_string(), "all".to_string())]);
    let line = call_line(1, "server_start", "{}");
    assert_eq!(tool_call_of(&line).unwrap_err(), "unknown tool: server_start");
}

#[test]
fn rpc_lines_are_read() {
    let rpc = rpc_request(br#"{"jsonrpc":"2.0","id":"abc","method":"tools/list"}"#).unwrap();
    assert_eq!(rpc.method, RpcMethod::ToolsList);
    assert_eq!(rpc.method_name, "tools/list");
    assert_eq!(rpc.id.unwrap().as_str(), Some("abc"));
    let rpc = rpc_request(br#"{"method":"bogus"}"#).unwrap();
    assert_eq!(rpc.method, RpcMethod::Unknown);
    assert!(rpc.id.is_none());
    let err = rpc_request(b"{not json").unwrap_err();
    assert!(err.starts_with("parse error: "), "{err}");
}

#[test]
fn raw_tool_gate_reads_the_environment() {
    assert!(!mcp_raw_enabled(None));
    assert!(mcp_raw_enabled(Some("1")));
    assert!(mcp_raw_enabled(Some("true")));
    assert!(mcp_raw_enabled(Some("TrUe")));
    assert!(!mcp_raw_enabled(Some("yes")));
    assert!(!mcp_raw_enabled(Some("0")));
    assert!(!mcp_raw_enabled(Some("")));
}

#[test]
fn work_dir_from_environment() {
    assert_eq!(mcp_work_dir("/home/u/.media-convertor".to_string(), None), "/home/u/.media-convertor");
    assert_eq!(mcp_work_dir("/d".to_string(), Some("")), "/d");
    assert_eq!(mcp_work_dir("/d".to_string(), Some("/srv/mc")), "/srv/mc");
}

#[test]
fn tool_reports() {
    assert_eq!(
        tool_report_text(Tool::Convert, "/in.wav", "/out.mp3", 1, 1234),
        "Converted /in.wav -> /out.mp3 (1234 bytes)"
    );
    assert_eq!(
        tool_report_text(Tool::Concat, "", "/j.mkv", 3, 0),
        "Concatenated 3 files -> /j.mkv (0 bytes)"
    );
    assert_eq!(
        tool_report_text(Tool::ExtractAudio, "a.mkv", "t.m4a", 1, 9),
        "Extracted audio: a.mkv -> t.m4a (9 bytes)"
    );
    assert_eq!(tool_report_text(Tool::Probe, "a", "b", 1, 2), "");
}

#[test]
fn tools_list_is_full_non_admin_surface() {
    let tools = tools_list();
    let names: Vec<&str> = tools.iter().map(|t| t.name).collect();
    for expected in [
        "convert",
        "extract_audio",
        "thumbnail",
        "filter",
        "concat",
        "raw",
        "probe",
        "presets",
        "capabilities",
    ] {
        assert!(names.contains(&expected), "missing tool {expected}: {names:?}");
    }
    for forbidden in ["server", "start", "stop", "status"] {
        assert!(!names.contains(&forbidden), "admin tool leaked: {forbidden}");
    }
    let extract = tools.iter().find(|t| t.name == "extract_audio").unwrap();
    assert!(extract.params.iter().any(|p| p.name == "codec" && p.kind == ParamType::Text));
}

#[test]
fn tool_manifest_parameters() {
    let tools = tools_list();
    assert_eq!(tools.len(), 9);
    let convert = &tools[0];
    assert_eq!(convert.params.len(), 22);
    let required: Vec<&str> = convert.params.iter().filter(|p| p.required).map(|p| p.name).collect();
    assert_eq!(required, vec!["input_path", "output_path"]);
    assert!(convert.params.iter().any(|p| p.name == "fps" && p.kind == ParamType::Number));
    let concat = tools.iter().find(|t| t.name == "concat").unwrap();
    assert_eq!(concat.params[0].name, "input_paths");
    assert_eq!(concat.params[0].kind, ParamType::TextList);
    let presets = tools.iter().find(|t| t.name == "presets").unwrap();
    assert!(presets.params.is_empty());
    for t in &tools {
        assert!(!t.description.is_empty());
        assert_eq!(tool_named(t.name).is_ok(), true);
        assert!(t.params.iter().all(|p| !p.description.is_empty()));
    }
}
