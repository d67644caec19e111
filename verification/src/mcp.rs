//! The decisions of the MCP stdio server: which JSON-RPC method and which tool a call
//! names, the defaults a tool call takes from its paths and environment, and the texts
//! it answers with. The server process reads and writes the JSON-RPC lines.

use vstd::prelude::*;
use crate::text::{
    ascii_lower, chars_of, decimal, decimal_u64, eq_str, push_all, push_str, string_of,
    to_ascii_lowercase,
};

verus! {

/// JSON-RPC's code for a line that does not parse.
pub const PARSE_ERROR: i32 = -32700;

/// JSON-RPC's code for an unknown method.
pub const METHOD_NOT_FOUND: i32 = -32601;

/// The JSON-RPC methods the server answers.
#[derive(Debug, Clone, Copy, PartialEq, Eq, Structural)]
pub enum RpcMethod {
    Initialize,
    ToolsList,
    ToolsCall,
    Shutdown,
    Unknown,
}

/// The method a request's `method` names.
pub open spec fn rpc_method_spec(name: Seq<char>) -> RpcMethod {
    if name == "initialize"@ {
        RpcMethod::Initialize
    } else if name == "tools/list"@ {
        RpcMethod::ToolsList
    } else if name == "tools/call"@ {
        RpcMethod::ToolsCall
    } else if name == "shutdown"@ {
        RpcMethod::Shutdown
    } else {
        RpcMethod::Unknown
    }
}

/// The method a request's `method` names (`Unknown` for any other, answered with
/// [`METHOD_NOT_FOUND`]).
pub fn rpc_method(name: &str) -> (r: RpcMethod)
    ensures
        r == rpc_method_spec(name@),
{
    let v = chars_of(name);
    if eq_str(&v, "initialize") {
        RpcMethod::Initialize
    } else if eq_str(&v, "tools/list") {
        RpcMethod::ToolsList
    } else if eq_str(&v, "tools/call") {
        RpcMethod::ToolsCall
    } else if eq_str(&v, "shutdown") {
        RpcMethod::Shutdown
    } else {
        RpcMethod::Unknown
    }
}

/// The message of an unknown method.
pub fn unknown_method_message(name: &str) -> (r: String)
    ensures
        r@ == "unknown method: "@ + name@,
{
    let mut m = chars_of("unknown method: ");
    push_str(&mut m, name);
    string_of(&m)
}

/// The tools the server offers: every non-admin operation.
#[derive(Debug, Clone, Copy, PartialEq, Eq, Structural)]
pub enum Tool {
    Convert,
    ExtractAudio,
    Thumbnail,
    Filter,
    Concat,
    Raw,
    Probe,
    Presets,
    Capabilities,
}

/// The tool a call's `name` names.
pub open spec fn tool_spec(name: Seq<char>) -> Option<Tool> {
    if name == "convert"@ {
        Some(Tool::Convert)
    } else if name == "extract_audio"@ {
        Some(Tool::ExtractAudio)
    } else if name == "thumbnail"@ {
        Some(Tool::Thumbnail)
    } else if name == "filter"@ {
        Some(Tool::Filter)
    } else if name == "concat"@ {
        Some(Tool::Concat)
    } else if name == "raw"@ {
        Some(Tool::Raw)
    } else if name == "probe"@ {
        Some(Tool::Probe)
    } else if name == "presets"@ {
        Some(Tool::Presets)
    } else if name == "capabilities"@ {
        Some(Tool::Capabilities)
    } else {
        None
    }
}

/// The tool a call names, or the message of an unknown one.
pub fn tool_named(name: &str) -> (r: Result<Tool, String>)
    ensures
        match r {
            Ok(t) => tool_spec(name@) == Some(t),
            Err(m) => tool_spec(name@) is None && m@ == "unknown tool: "@ + name@,
        },
{
    let v = chars_of(name);
    if eq_str(&v, "convert") {
        Ok(Tool::Convert)
    } else if eq_str(&v, "extract_audio") {
        Ok(Tool::ExtractAudio)
    } else if eq_str(&v, "thumbnail") {
        Ok(Tool::Thumbnail)
    } else if eq_str(&v, "filter") {
        Ok(Tool::Filter)
    } else if eq_str(&v, "concat") {
        Ok(Tool::Concat)
    } else if eq_str(&v, "raw") {
        Ok(Tool::Raw)
    } else if eq_str(&v, "probe") {
        Ok(Tool::Probe)
    } else if eq_str(&v, "presets") {
        Ok(Tool::Presets)
    } else if eq_str(&v, "capabilities") {
        Ok(Tool::Capabilities)
    } else {
        let mut m = chars_of("unknown tool: ");
        push_str(&mut m, name);
        Err(string_of(&m))
    }
}

/// Whether `MEDIA_CONVERTOR_RAW` (when set) permits the raw tool: `1`, or `true` in any
/// ASCII case.
pub open spec fn mcp_raw_switch(value: Option<Seq<char>>) -> bool {
    match value {
        Some(v) => v == "1"@ || ascii_lower(v) == "true"@,
        None => false,
    }
}

/// Whether the server permits the raw tool, given `MEDIA_CONVERTOR_RAW`.
pub fn mcp_raw_enabled(value: Option<&str>) -> (r: bool)
    ensures
        r == mcp_raw_switch(
            match value {
                Some(v) => Some(v@),
                None => None,
            },
        ),
{
    match value {
        Some(v) => {
            let c = chars_of(v);
            eq_str(&c, "1") || eq_str(&to_ascii_lowercase(&c), "true")
        },
        None => false,
    }
}

/// The work directory the server uses: `MEDIA_CONVERTOR_DATA` when set and non-empty,
/// else `default`.
pub fn mcp_work_dir(default: String, data: Option<&str>) -> (r: String)
    ensures
        r@ == (match data {
            Some(d) => if d@.len() > 0 {
                d@
            } else {
                default@
            },
            None => default@,
        }),
{
    match data {
        Some(d) => {
            if chars_of(d).len() > 0 {
                d.to_owned()
            } else {
                default
            }
        },
        None => default,
    }
}


/// What a completed file-producing tool reports.
pub open spec fn tool_report(tool: Tool, input: Seq<char>, output: Seq<char>, count: nat, size: nat) -> Seq<
    char,
> {
    let tail = " -> "@ + output + " ("@ + decimal(size) + " bytes)"@;
    match tool {
        Tool::Convert => "Converted "@ + input + tail,
        Tool::ExtractAudio => "Extracted audio: "@ + input + tail,
        Tool::Thumbnail => "Thumbnail: "@ + input + tail,
        Tool::Filter => "Filtered "@ + input + tail,
        Tool::Concat => "Concatenated "@ + decimal(count) + " files"@ + tail,
        Tool::Raw => "Raw passthrough "@ + input + tail,
        _ => Seq::empty(),
    }
}

/// What a completed file-producing tool reports: its input (or, for concat, the number
/// of inputs), its output, and the output's size in bytes. (Inline tools answer with
/// their JSON instead; for them this is empty.)
pub fn tool_report_text(tool: Tool, input: &str, output: &str, count: u64, size: u64) -> (r: String)
    ensures
        r@ == tool_report(tool, input@, output@, count as nat, size as nat),
{
    let mut m = match tool {
        Tool::Convert => chars_of("Converted "),
        Tool::ExtractAudio => chars_of("Extracted audio: "),
        Tool::Thumbnail => chars_of("Thumbnail: "),
        Tool::Filter => chars_of("Filtered "),
        Tool::Concat => chars_of("Concatenated "),
        Tool::Raw => chars_of("Raw passthrough "),
        _ => {
            return String::new();
        },
    };
    match tool {
        Tool::Concat => {
            push_all(&mut m, &decimal_u64(count));
            push_str(&mut m, " files");
        },
        _ => push_str(&mut m, input),
    }
    push_str(&mut m, " -> ");
    push_str(&mut m, output);
    push_str(&mut m, " (");
    push_all(&mut m, &decimal_u64(size));
    push_str(&mut m, " bytes)");
    string_of(&m)
}

/// The text a failed tool call answers with.
pub fn tool_error_text(error: &str) -> (r: String)
    ensures
        r@ == "Error: "@ + error@,
{
    let mut m = chars_of("Error: ");
    push_str(&mut m, error);
    string_of(&m)
}

// ───────────────────────── the tool manifest ─────────────────────────

/// The JSON type of a tool parameter.
#[derive(Debug, Clone, Copy, PartialEq, Eq, Structural)]
pub enum ParamType {
    /// `string`
    Text,
    /// `integer`
    Integer,
    /// `number`
    Number,
    /// `boolean`
    Boolean,
    /// `array` of `string`
    TextList,
}

/// One parameter of a tool's input schema.
#[derive(Debug)]
pub struct ToolParam {
    pub name: &'static str,
    pub kind: ParamType,
    pub description: &'static str,
    pub required: bool,
}

/// One entry of the `tools/list` answer: a tool's name, description and parameters.
#[derive(Debug)]
pub struct ToolSpec {
    pub name: &'static str,
    pub description: &'static str,
    pub params: Vec<ToolParam>,
}

/// The tools in the order the manifest lists them.
pub open spec fn manifest_tools() -> Seq<Tool> {
    seq![
        Tool::Convert,
        Tool::ExtractAudio,
        Tool::Thumbnail,
        Tool::Filter,
        Tool::Concat,
        Tool::Raw,
        Tool::Probe,
        Tool::Presets,
        Tool::Capabilities,
    ]
}

/// The name a tool is called by.
pub open spec fn tool_name_text(t: Tool) -> Seq<char> {
    match t {
        Tool::Convert => "convert"@,
        Tool::ExtractAudio => "extract_audio"@,
        Tool::Thumbnail => "thumbnail"@,
        Tool::Filter => "filter"@,
        Tool::Concat => "concat"@,
        Tool::Raw => "raw"@,
        Tool::Probe => "probe"@,
        Tool::Presets => "presets"@,
        Tool::Capabilities => "capabilities"@,
    }
}

/// A tool's description in the manifest.
pub open spec fn tool_description(t: Tool) -> Seq<char> {
    match t {
        Tool::Convert => "Convert a media file to another format (full transcode)"@,
        Tool::ExtractAudio => "Extract audio track from a video file"@,
        Tool::Thumbnail => "Extract a single thumbnail frame from a video"@,
        Tool::Filter => "Apply a single ffmpeg video filtergraph"@,
        Tool::Concat => "Concatenate multiple inputs into one output (2 or more)"@,
        Tool::Raw => "Gated raw ffmpeg passthrough. Disabled unless MEDIA_CONVERTOR_RAW is set; still sandboxed under an argument allowlist and I/O confinement"@,
        Tool::Probe => "Probe a media file and return stream info, codecs, duration"@,
        Tool::Presets => "List available conversion presets"@,
        Tool::Capabilities => "List the installed ffmpeg's capabilities (encoders, decoders, filters, muxers, demuxers), discovered at runtime"@,
    }
}

/// A tool's parameters in the manifest: name, JSON type, and whether it is required.
pub open spec fn tool_params(t: Tool) -> Seq<(Seq<char>, ParamType, bool)> {
    match t {
        Tool::Convert => seq![
            ("input_path"@, ParamType::Text, true),
            ("output_path"@, ParamType::Text, true),
            ("preset"@, ParamType::Text, false),
            ("format"@, ParamType::Text, false),
            ("audio_codec"@, ParamType::Text, false),
            ("video_codec"@, ParamType::Text, false),
            ("audio_bitrate"@, ParamType::Text, false),
            ("crf"@, ParamType::Integer, false),
            ("width"@, ParamType::Integer, false),
            ("height"@, ParamType::Integer, false),
            ("fps"@, ParamType::Number, false),
            ("sample_rate"@, ParamType::Integer, false),
            ("channels"@, ParamType::Integer, false),
            ("encoder_preset"@, ParamType::Text, false),
            ("pixel_format"@, ParamType::Text, false),
            ("no_video"@, ParamType::Boolean, false),
            ("no_audio"@, ParamType::Boolean, false),
            ("copy_video"@, ParamType::Boolean, false),
            ("copy_audio"@, ParamType::Boolean, false),
            ("start"@, ParamType::Number, false),
            ("end"@, ParamType::Number, false),
            ("duration"@, ParamType::Number, false),
        ],
        Tool::ExtractAudio => seq![
            ("input_path"@, ParamType::Text, true),
            ("output_path"@, ParamType::Text, true),
            ("codec"@, ParamType::Text, false),
        ],
        Tool::Thumbnail => seq![
            ("input_path"@, ParamType::Text, true),
            ("output_path"@, ParamType::Text, true),
            ("time"@, ParamType::Number, false),
            ("width"@, ParamType::Integer, false),
        ],
        Tool::Filter => seq![
            ("input_path"@, ParamType::Text, true),
            ("output_path"@, ParamType::Text, true),
            ("graph"@, ParamType::Text, true),
            ("format"@, ParamType::Text, false),
        ],
        Tool::Concat => seq![
            ("input_paths"@, ParamType::TextList, true),
            ("output_path"@, ParamType::Text, true),
            ("format"@, ParamType::Text, false),
        ],
        Tool::Raw => seq![
            ("input_path"@, ParamType::Text, true),
            ("output_path"@, ParamType::Text, true),
            ("args"@, ParamType::TextList, true),
        ],
        Tool::Probe => seq![
            ("path"@, ParamType::Text, true),
        ],
        Tool::Presets => Seq::empty(),
        Tool::Capabilities => seq![
            ("kind"@, ParamType::Text, false),
        ],
    }
}

/// The names of a list of tool entries.
pub open spec fn tool_names(s: Seq<ToolSpec>) -> Seq<Seq<char>> {
    s.map_values(|t: ToolSpec| t.name@)
}

/// The (name, type, required) of each parameter.
pub open spec fn param_views(ps: Seq<ToolParam>) -> Seq<(Seq<char>, ParamType, bool)> {
    ps.map_values(|p: ToolParam| (p.name@, p.kind, p.required))
}

fn param(name: &'static str, kind: ParamType, description: &'static str, required: bool) -> (r:
    ToolParam)
    ensures
        r.name == name,
        r.kind == kind,
        r.description == description,
        r.required == required,
{
    ToolParam { name, kind, description, required }
}

fn params_convert() -> (r: Vec<ToolParam>)
    ensures
        param_views(r@) == tool_params(Tool::Convert),
{
    let mut v: Vec<ToolParam> = Vec::new();
    v.push(param("input_path", ParamType::Text, "Path to input file", true));
    v.push(param("output_path", ParamType::Text, "Path to output file", true));
    v.push(param("preset", ParamType::Text, "Preset name (e.g. podcast-mp3, web-mp4)", false));
    v.push(param("format", ParamType::Text, "Target container (e.g. mp4); defaults to the output extension", false));
    v.push(param("audio_codec", ParamType::Text, "Audio codec name", false));
    v.push(param("video_codec", ParamType::Text, "Video codec name", false));
    v.push(param("audio_bitrate", ParamType::Text, "Audio bitrate, e.g. \"128k\" or \"192000\"", false));
    v.push(param("crf", ParamType::Integer, "Video CRF quality (lower = better)", false));
    v.push(param("width", ParamType::Integer, "Output width in pixels", false));
    v.push(param("height", ParamType::Integer, "Output height in pixels", false));
    v.push(param("fps", ParamType::Number, "Output frame rate", false));
    v.push(param("sample_rate", ParamType::Integer, "Audio sample rate in Hz", false));
    v.push(param("channels", ParamType::Integer, "Audio channel count", false));
    v.push(param("encoder_preset", ParamType::Text, "Encoder speed/quality preset (e.g. slow, medium, fast)", false));
    v.push(param("pixel_format", ParamType::Text, "Output pixel format (e.g. yuv420p)", false));
    v.push(param("no_video", ParamType::Boolean, "Drop the video stream", false));
    v.push(param("no_audio", ParamType::Boolean, "Drop the audio stream", false));
    v.push(param("copy_video", ParamType::Boolean, "Stream-copy video (no re-encode)", false));
    v.push(param("copy_audio", ParamType::Boolean, "Stream-copy audio (no re-encode)", false));
    v.push(param("start", ParamType::Number, "Trim start in seconds", false));
    v.push(param("end", ParamType::Number, "Trim end in seconds", false));
    v.push(param("duration", ParamType::Number, "Trim duration in seconds", false));
    assert(param_views(v@) =~= tool_params(Tool::Convert));
    v
}

fn params_extract_audio() -> (r: Vec<ToolParam>)
    ensures
        param_views(r@) == tool_params(Tool::ExtractAudio),
{
    let mut v: Vec<ToolParam> = Vec::new();
    v.push(param("input_path", ParamType::Text, "Path to input video", true));
    v.push(param("output_path", ParamType::Text, "Path to output audio file", true));
    v.push(param("codec", ParamType::Text, "Re-encode with this audio codec instead of copying", false));
    assert(param_views(v@) =~= tool_params(Tool::ExtractAudio));
    v
}

fn params_thumbnail() -> (r: Vec<ToolParam>)
    ensures
        param_views(r@) == tool_params(Tool::Thumbnail),
{
    let mut v: Vec<ToolParam> = Vec::new();
    v.push(param("input_path", ParamType::Text, "Path to input video", true));
    v.push(param("output_path", ParamType::Text, "Path to output image file", true));
    v.push(param("time", ParamType::Number, "Timestamp in seconds (default 0)", false));
    v.push(param("width", ParamType::Integer, "Output width in pixels (height auto)", false));
    assert(param_views(v@) =~= tool_params(Tool::Thumbnail));
    v
}

fn params_filter() -> (r: Vec<ToolParam>)
    ensures
        param_views(r@) == tool_params(Tool::Filter),
{
    let mut v: Vec<ToolParam> = Vec::new();
    v.push(param("input_path", ParamType::Text, "Path to input file", true));
    v.push(param("output_path", ParamType::Text, "Path to output file", true));
    v.push(param("graph", ParamType::Text, "Filtergraph, e.g. \"scale=640:-2,fps=30\"", true));
    v.push(param("format", ParamType::Text, "Target container; defaults to the output extension", false));
    assert(param_views(v@) =~= tool_params(Tool::Filter));
    v
}

fn params_concat() -> (r: Vec<ToolParam>)
    ensures
        param_views(r@) == tool_params(Tool::Concat),
{
    let mut v: Vec<ToolParam> = Vec::new();
    v.push(param("input_paths", ParamType::TextList, "Input files, in order (2 or more)", true));
    v.push(param("output_path", ParamType::Text, "Path to output file", true));
    v.push(param("format", ParamType::Text, "Target container; defaults to the output extension", false));
    assert(param_views(v@) =~= tool_params(Tool::Concat));
    v
}

fn params_raw() -> (r: Vec<ToolParam>)
    ensures
        param_views(r@) == tool_params(Tool::Raw),
{
    let mut v: Vec<ToolParam> = Vec::new();
    v.push(param("input_path", ParamType::Text, "Path to input file", true));
    v.push(param("output_path", ParamType::Text, "Path to output file", true));
    v.push(param("args", ParamType::TextList, "ffmpeg arguments inserted between input and output", true));
    assert(param_views(v@) =~= tool_params(Tool::Raw));
    v
}

fn params_probe() -> (r: Vec<ToolParam>)
    ensures
        param_views(r@) == tool_params(Tool::Probe),
{
    let mut v: Vec<ToolParam> = Vec::new();
    v.push(param("path", ParamType::Text, "Path to media file", true));
    assert(param_views(v@) =~= tool_params(Tool::Probe));
    v
}

fn params_presets() -> (r: Vec<ToolParam>)
    ensures
        param_views(r@) == tool_params(Tool::Presets),
{
    let mut v: Vec<ToolParam> = Vec::new();
    assert(param_views(v@) =~= tool_params(Tool::Presets));
    v
}

fn params_capabilities() -> (r: Vec<ToolParam>)
    ensures
        param_views(r@) == tool_params(Tool::Capabilities),
{
    let mut v: Vec<ToolParam> = Vec::new();
    v.push(param("kind", ParamType::Text, "all|encoders|decoders|filters|muxers|demuxers", false));
    assert(param_views(v@) =~= tool_params(Tool::Capabilities));
    v
}

/// The `tools/list` answer: every non-admin operation as a tool, in order, each with its
/// description and its input schema's parameters.
pub fn tools_list() -> (r: Vec<ToolSpec>)
    ensures
        r@.len() == manifest_tools().len(),
        tool_names(r@) == seq![
            "convert"@,
            "extract_audio"@,
            "thumbnail"@,
            "filter"@,
            "concat"@,
            "raw"@,
            "probe"@,
            "presets"@,
            "capabilities"@,
        ],
        forall|i: int| 0 <= i < r@.len() ==> tool_spec(#[trigger] r@[i].name@) == Some(manifest_tools()[i]),
        forall|i: int| 0 <= i < r@.len() ==> #[trigger] r@[i].description@ == tool_description(manifest_tools()[i]),
        forall|i: int| 0 <= i < r@.len() ==> param_views(#[trigger] r@[i].params@) == tool_params(manifest_tools()[i]),
{
    let mut v: Vec<ToolSpec> = Vec::new();
    v.push(ToolSpec { name: "convert", description: "Convert a media file to another format (full transcode)", params: params_convert() });
    v.push(ToolSpec { name: "extract_audio", description: "Extract audio track from a video file", params: params_extract_audio() });
    v.push(ToolSpec { name: "thumbnail", description: "Extract a single thumbnail frame from a video", params: params_thumbnail() });
    v.push(ToolSpec { name: "filter", description: "Apply a single ffmpeg video filtergraph", params: params_filter() });
    v.push(ToolSpec { name: "concat", description: "Concatenate multiple inputs into one output (2 or more)", params: params_concat() });
    v.push(ToolSpec { name: "raw", description: "Gated raw ffmpeg passthrough. Disabled unless MEDIA_CONVERTOR_RAW is set; still sandboxed under an argument allowlist and I/O confinement", params: params_raw() });
    v.push(ToolSpec { name: "probe", description: "Probe a media file and return stream info, codecs, duration", params: params_probe() });
    v.push(ToolSpec { name: "presets", description: "List available conversion presets", params: params_presets() });
    v.push(ToolSpec { name: "capabilities", description: "List the installed ffmpeg's capabilities (encoders, decoders, filters, muxers, demuxers), discovered at runtime", params: params_capabilities() });
    proof {
        lemma_tool_names_route();
        assert(tool_names(v@) =~= manifest_tools().map_values(|t: Tool| tool_name_text(t)));
        assert forall|i: int| 0 <= i < v@.len() implies tool_spec(#[trigger] v@[i].name@) == Some(manifest_tools()[i]) by {
            assert(v@[i].name@ == tool_name_text(manifest_tools()[i]));
        }
    }
    v
}

/// Every tool's name routes back to that tool.
pub proof fn lemma_tool_names_route()
    ensures
        forall|t: Tool| #[trigger] tool_spec(tool_name_text(t)) == Some(t),
{
    reveal_strlit("convert");
    reveal_strlit("extract_audio");
    reveal_strlit("thumbnail");
    reveal_strlit("filter");
    reveal_strlit("concat");
    reveal_strlit("raw");
    reveal_strlit("probe");
    reveal_strlit("presets");
    reveal_strlit("capabilities");
    assert forall|t: Tool| #[trigger] tool_spec(tool_name_text(t)) == Some(t) by {
        match t {
            Tool::Convert => {
            },
            Tool::ExtractAudio => {
                assert("extract_audio"@.len() != "convert"@.len());
            },
            Tool::Thumbnail => {
                assert("thumbnail"@.len() != "convert"@.len());
                assert("thumbnail"@.len() != "extract_audio"@.len());
            },
            Tool::Filter => {
                assert("filter"@.len() != "convert"@.len());
                assert("filter"@.len() != "extract_audio"@.len());
                assert("filter"@.len() != "thumbnail"@.len());
            },
            Tool::Concat => {
                assert("concat"@.len() != "convert"@.len());
                assert("concat"@.len() != "extract_audio"@.len());
                assert("concat"@.len() != "thumbnail"@.len());
                assert("concat"@[0] != "filter"@[0]);
            },
            Tool::Raw => {
                assert("raw"@.len() != "convert"@.len());
                assert("raw"@.len() != "extract_audio"@.len());
                assert("raw"@.len() != "thumbnail"@.len());
                assert("raw"@.len() != "filter"@.len());
                assert("raw"@.len() != "concat"@.len());
            },
            Tool::Probe => {
                assert("probe"@.len() != "convert"@.len());
                assert("probe"@.len() != "extract_audio"@.len());
                assert("probe"@.len() != "thumbnail"@.len());
                assert("probe"@.len() != "filter"@.len());
                assert("probe"@.len() != "concat"@.len());
                assert("probe"@.len() != "raw"@.len());
            },
            Tool::Presets => {
                assert("presets"@[0] != "convert"@[0]);
                assert("presets"@.len() != "extract_audio"@.len());
                assert("presets"@.len() != "thumbnail"@.len());
                assert("presets"@.len() != "filter"@.len());
                assert("presets"@.len() != "concat"@.len());
                assert("presets"@.len() != "raw"@.len());
                assert("presets"@.len() != "probe"@.len());
            },
            Tool::Capabilities => {
                assert("capabilities"@.len() != "convert"@.len());
                assert("capabilities"@.len() != "extract_audio"@.len());
                assert("capabilities"@.len() != "thumbnail"@.len());
                assert("capabilities"@.len() != "filter"@.len());
                assert("capabilities"@.len() != "concat"@.len());
                assert("capabilities"@.len() != "raw"@.len());
                assert("capabilities"@.len() != "probe"@.len());
                assert("capabilities"@.len() != "presets"@.len());
            },
        }
    }
}

/// No administrative control is a tool: `server`, `start`, `stop` and `status` name
/// none, and neither does any name outside the manifest.
pub proof fn lemma_no_admin_tools(name: Seq<char>)
    ensures
        tool_spec(name) is Some <==> exists|i: int| 0 <= i < manifest_tools().len() && name == tool_name_text(#[trigger] manifest_tools()[i]),
        tool_spec("server"@) is None,
        tool_spec("start"@) is None,
        tool_spec("stop"@) is None,
        tool_spec("status"@) is None,
{
    reveal_strlit("convert");
    reveal_strlit("extract_audio");
    reveal_strlit("thumbnail");
    reveal_strlit("filter");
    reveal_strlit("concat");
    reveal_strlit("raw");
    reveal_strlit("probe");
    reveal_strlit("presets");
    reveal_strlit("capabilities");
    reveal_strlit("server");
    reveal_strlit("start");
    reveal_strlit("stop");
    reveal_strlit("status");
    assert("server"@.len() != "convert"@.len());
    assert("server"@.len() != "extract_audio"@.len());
    assert("server"@.len() != "thumbnail"@.len());
    assert("server"@[0] != "filter"@[0]);
    assert("server"@[0] != "concat"@[0]);
    assert("server"@.len() != "raw"@.len());
    assert("server"@.len() != "probe"@.len());
    assert("server"@.len() != "presets"@.len());
    assert("server"@.len() != "capabilities"@.len());
    assert("start"@.len() != "convert"@.len());
    assert("start"@.len() != "extract_audio"@.len());
    assert("start"@.len() != "thumbnail"@.len());
    assert("start"@.len() != "filter"@.len());
    assert("start"@.len() != "concat"@.len());
    assert("start"@.len() != "raw"@.len());
    assert("start"@[0] != "probe"@[0]);
    assert("start"@.len() != "presets"@.len());
    assert("start"@.len() != "capabilities"@.len());
    assert("stop"@.len() != "convert"@.len());
    assert("stop"@.len() != "extract_audio"@.len());
    assert("stop"@.len() != "thumbnail"@.len());
    assert("stop"@.len() != "filter"@.len());
    assert("stop"@.len() != "concat"@.len());
    assert("stop"@.len() != "raw"@.len());
    assert("stop"@.len() != "probe"@.len());
    assert("stop"@.len() != "presets"@.len());
    assert("stop"@.len() != "capabilities"@.len());
    assert("status"@.len() != "convert"@.len());
    assert("status"@.len() != "extract_audio"@.len());
    assert("status"@.len() != "thumbnail"@.len());
    assert("status"@[0] != "filter"@[0]);
    assert("status"@[0] != "concat"@[0]);
    assert("status"@.len() != "raw"@.len());
    assert("status"@.len() != "probe"@.len());
    assert("status"@.len() != "presets"@.len());
    assert("status"@.len() != "capabilities"@.len());
    if tool_spec(name) is Some {
        let t = tool_spec(name)->0;
        let i: int = match t {
            Tool::Convert => 0,
            Tool::ExtractAudio => 1,
            Tool::Thumbnail => 2,
            Tool::Filter => 3,
            Tool::Concat => 4,
            Tool::Raw => 5,
            Tool::Probe => 6,
            Tool::Presets => 7,
            Tool::Capabilities => 8,
        };
        assert(manifest_tools()[i] == t);
    }
}

} // verus!
