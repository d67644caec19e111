//! Reading the MCP server's JSON-RPC lines: the method a line names, and for a tool call,
//! what the tool asks the handler to do (the operation, its body, its input files and
//! output path), taken from the call's `params.arguments`.

use vstd::prelude::*;
use crate::cli::{input_field, input_field_spec, raw_output_ext};
use crate::format::opt_text;
use crate::json::{
    child_path, item_at, json_document, json_nodes, keys_view, node_at, parse_json, subtree,
    text_of, value_at, ItemView, JsonItem,
};
use crate::mcp::{rpc_method, rpc_method_spec, tool_named, tool_spec, RpcMethod, Tool};
use crate::path::{extension, extension_of};
use crate::text::{chars_of, decimal, decimal_u64, push_str, string_of};

verus! {

/// One member of a tool's request body: a copy of an argument's JSON value, or a text.
#[derive(Debug)]
pub enum BodyPart {
    Value(serde_json::Value),
    Text(String),
}

/// The value of a [`BodyPart`]: the copied value's nodes, or the text.
pub enum BodyPartView {
    Value(Seq<(Seq<Seq<char>>, ItemView)>),
    Text(Seq<char>),
}

impl View for BodyPart {
    type V = BodyPartView;

    open spec fn view(&self) -> BodyPartView {
        match self {
            BodyPart::Value(v) => BodyPartView::Value(json_nodes(*v)),
            BodyPart::Text(t) => BodyPartView::Text(t@),
        }
    }
}

/// A body's members, taken as values.
pub open spec fn parts_view(b: Seq<(String, BodyPart)>) -> Seq<(Seq<char>, BodyPartView)> {
    b.map_values(|m: (String, BodyPart)| (m.0@, m.1@))
}

/// Pairs of texts, taken as values.
pub open spec fn text_pairs(v: Seq<(String, String)>) -> Seq<(Seq<char>, Seq<char>)> {
    v.map_values(|t: (String, String)| (t.0@, t.1@))
}

/// What a tool call asks of the handler: a request to `op` (POST, else GET), with a JSON
/// body when it has one, its input files under their form fields, the query, and where
/// the produced file goes.
#[derive(Debug)]
pub struct ToolCall {
    pub op: String,
    pub post: bool,
    pub body: Option<Vec<(String, BodyPart)>>,
    pub inputs: Vec<(String, String)>,
    pub query: Vec<(String, String)>,
    pub output: Option<String>,
}

/// The value of a [`ToolCall`].
pub struct ToolCallView {
    pub op: Seq<char>,
    pub post: bool,
    pub body: Option<Seq<(Seq<char>, BodyPartView)>>,
    pub inputs: Seq<(Seq<char>, Seq<char>)>,
    pub query: Seq<(Seq<char>, Seq<char>)>,
    pub output: Option<Seq<char>>,
}

impl View for ToolCall {
    type V = ToolCallView;

    open spec fn view(&self) -> ToolCallView {
        ToolCallView {
            op: self.op@,
            post: self.post,
            body: match self.body {
                Some(b) => Some(parts_view(b@)),
                None => None,
            },
            inputs: text_pairs(self.inputs@),
            query: text_pairs(self.query@),
            output: opt_text(self.output),
        }
    }
}

// ───────────────────────── the arguments ─────────────────────────

/// Where a tool call's arguments stand in its request.
pub open spec fn args_at() -> Seq<Seq<char>> {
    seq!["params"@, "arguments"@]
}

/// The argument `k`, when it is a string.
pub open spec fn arg_text(n: Seq<(Seq<Seq<char>>, ItemView)>, k: Seq<char>) -> Option<Seq<char>> {
    text_of(node_at(n, args_at().push(k)))
}

/// Whether the argument `k` is given and not null.
pub open spec fn arg_given(n: Seq<(Seq<Seq<char>>, ItemView)>, k: Seq<char>) -> bool {
    match node_at(n, args_at().push(k)) {
        Some(ItemView::Null) => false,
        Some(_) => true,
        None => false,
    }
}

/// A required string argument, or the message that it is missing.
pub open spec fn required(n: Seq<(Seq<Seq<char>>, ItemView)>, k: Seq<char>) -> Result<Seq<char>, Seq<char>> {
    match arg_text(n, k) {
        Some(t) => Ok(t),
        None => Err("missing "@ + k),
    }
}

/// The argument `k` copied into the body under its own key, when given and not null.
pub open spec fn copied(n: Seq<(Seq<Seq<char>>, ItemView)>, k: Seq<char>) -> Seq<(Seq<char>, BodyPartView)> {
    if arg_given(n, k) {
        seq![(k, BodyPartView::Value(subtree(n, args_at().push(k))))]
    } else {
        Seq::empty()
    }
}

/// A text member of the body, when there is one.
pub open spec fn text_member(k: Seq<char>, t: Option<Seq<char>>) -> Seq<(Seq<char>, BodyPartView)> {
    match t {
        Some(t) => seq![(k, BodyPartView::Text(t))],
        None => Seq::empty(),
    }
}

/// The convert call's `audio_bitrate`: a string as it is, a number by its text.
pub open spec fn bitrate_text(n: Seq<(Seq<Seq<char>>, ItemView)>) -> Option<Seq<char>> {
    match node_at(n, args_at().push("audio_bitrate"@)) {
        Some(ItemView::Text(s)) => Some(s),
        Some(ItemView::Number(s)) => Some(s),
        _ => None,
    }
}

/// The convert call's body: the conversion arguments given (not null), the audio
/// bitrate as text, and, when neither a preset nor a format is given, the output path's
/// extension as the format.
pub open spec fn convert_body(n: Seq<(Seq<Seq<char>>, ItemView)>, output: Seq<char>) -> Seq<(Seq<char>, BodyPartView)> {
    copied(n, "preset"@) + copied(n, "format"@) + copied(n, "video_codec"@) + copied(n, "audio_codec"@)
        + copied(n, "crf"@) + copied(n, "width"@) + copied(n, "height"@) + copied(n, "fps"@)
        + copied(n, "sample_rate"@) + copied(n, "channels"@) + copied(n, "encoder_preset"@)
        + copied(n, "pixel_format"@) + copied(n, "no_video"@) + copied(n, "no_audio"@)
        + copied(n, "copy_video"@) + copied(n, "copy_audio"@) + copied(n, "start"@)
        + copied(n, "end"@) + copied(n, "duration"@) + text_member("audio_bitrate"@, bitrate_text(n))
        + text_member(
        "format"@,
        if !arg_given(n, "preset"@) && !arg_given(n, "format"@) {
            extension(output)
        } else {
            None
        },
    )
}

/// The container a filter or concat call names: its `format` string, else the output
/// path's extension.
pub open spec fn format_or_extension(n: Seq<(Seq<Seq<char>>, ItemView)>, output: Seq<char>) -> Option<Seq<char>> {
    match arg_text(n, "format"@) {
        Some(f) => Some(f),
        None => extension(output),
    }
}

/// The concat call's first `count` inputs under their form fields, when each is a string.
pub open spec fn concat_inputs(n: Seq<(Seq<Seq<char>>, ItemView)>, count: nat) -> Option<Seq<(Seq<char>, Seq<char>)>>
    decreases count,
{
    if count == 0 {
        Some(Seq::empty())
    } else {
        let i = (count - 1) as nat;
        match (concat_inputs(n, i), text_of(node_at(n, args_at().push("input_paths"@).push(decimal(i))))) {
            (Some(s), Some(t)) => Some(s.push((input_field_spec(i), t))),
            _ => None,
        }
    }
}

/// A call of a file tool: a POST to `op` with `body`, the input under `file`, and the
/// output path.
pub open spec fn file_call(op: Seq<char>, body: Seq<(Seq<char>, BodyPartView)>, input: Seq<char>, output: Seq<char>) -> ToolCallView {
    ToolCallView {
        op,
        post: true,
        body: Some(body),
        inputs: seq![("file"@, input)],
        query: Seq::empty(),
        output: Some(output),
    }
}

/// What a call of `tool`, with the request's nodes `n`, asks of the handler, or the
/// message of what is wrong with its arguments (the first missing one, in the order each
/// tool reads them).
pub open spec fn tool_call_spec(tool: Tool, n: Seq<(Seq<Seq<char>>, ItemView)>) -> Result<ToolCallView, Seq<char>> {
    match tool {
        Tool::Convert => match (required(n, "input_path"@), required(n, "output_path"@)) {
            (Err(e), _) => Err(e),
            (Ok(_), Err(e)) => Err(e),
            (Ok(i), Ok(o)) => Ok(file_call("convert"@, convert_body(n, o), i, o)),
        },
        Tool::ExtractAudio => match (required(n, "input_path"@), required(n, "output_path"@)) {
            (Err(e), _) => Err(e),
            (Ok(_), Err(e)) => Err(e),
            (Ok(i), Ok(o)) => Ok(
                file_call(
                    "extract-audio"@,
                    text_member("codec"@, arg_text(n, "codec"@)) + text_member("format"@, extension(o)),
                    i,
                    o,
                ),
            ),
        },
        Tool::Thumbnail => match (required(n, "input_path"@), required(n, "output_path"@)) {
            (Err(e), _) => Err(e),
            (Ok(_), Err(e)) => Err(e),
            (Ok(i), Ok(o)) => Ok(file_call("thumbnail"@, copied(n, "time"@) + copied(n, "width"@), i, o)),
        },
        Tool::Filter => match (required(n, "input_path"@), required(n, "output_path"@), required(n, "graph"@)) {
            (Err(e), _, _) => Err(e),
            (Ok(_), Err(e), _) => Err(e),
            (Ok(_), Ok(_), Err(e)) => Err(e),
            (Ok(i), Ok(o), Ok(g)) => Ok(
                file_call(
                    "filter"@,
                    seq![("graph"@, BodyPartView::Text(g))] + text_member("format"@, format_or_extension(n, o)),
                    i,
                    o,
                ),
            ),
        },
        Tool::Concat => match node_at(n, args_at().push("input_paths"@)) {
            Some(ItemView::Array(count)) => if count < 2 {
                Err("concat requires at least 2 input_paths"@)
            } else {
                match required(n, "output_path"@) {
                    Err(e) => Err(e),
                    Ok(o) => match concat_inputs(n, count) {
                        None => Err("input_paths must be strings"@),
                        Some(inputs) => Ok(
                            ToolCallView {
                                op: "concat"@,
                                post: true,
                                body: Some(text_member("format"@, format_or_extension(n, o))),
                                inputs,
                                query: Seq::empty(),
                                output: Some(o),
                            },
                        ),
                    },
                }
            },
            _ => Err("missing input_paths"@),
        },
        Tool::Raw => match (required(n, "input_path"@), required(n, "output_path"@)) {
            (Err(e), _) => Err(e),
            (Ok(_), Err(e)) => Err(e),
            (Ok(i), Ok(o)) => match node_at(n, args_at().push("args"@)) {
                Some(ItemView::Array(_)) => Ok(
                    file_call(
                        "raw"@,
                        seq![
                            ("args"@, BodyPartView::Value(subtree(n, args_at().push("args"@)))),
                            ("output_ext"@, BodyPartView::Text(match extension(o) {
                                Some(e) => e,
                                None => "mkv"@,
                            })),
                        ],
                        i,
                        o,
                    ),
                ),
                _ => Err("missing args array"@),
            },
        },
        Tool::Probe => match required(n, "path"@) {
            Err(e) => Err(e),
            Ok(p) => Ok(
                ToolCallView {
                    op: "probe"@,
                    post: true,
                    body: None,
                    inputs: seq![("file"@, p)],
                    query: Seq::empty(),
                    output: None,
                },
            ),
        },
        Tool::Presets => Ok(
            ToolCallView {
                op: "presets"@,
                post: false,
                body: None,
                inputs: Seq::empty(),
                query: Seq::empty(),
                output: None,
            },
        ),
        Tool::Capabilities => Ok(
            ToolCallView {
                op: "capabilities"@,
                post: false,
                body: None,
                inputs: Seq::empty(),
                query: seq![("kind"@, match arg_text(n, "kind"@) {
                    Some(k) => k,
                    None => "all"@,
                })],
                output: None,
            },
        ),
    }
}

fn args_path() -> (r: Vec<String>)
    ensures
        keys_view(r@) == args_at(),
{
    let r = vec!["params".to_string(), "arguments".to_string()];
    assert(keys_view(r@) =~= args_at());
    r
}

fn read_arg_text(req: &serde_json::Value, a: &Vec<String>, k: &str) -> (r: Option<String>)
    requires
        keys_view(a@) == args_at(),
    ensures
        opt_text(r) == arg_text(json_nodes(*req), k@),
{
    match item_at(req, &child_path(a, k)) {
        Some(JsonItem::Text(t)) => Some(t),
        _ => None,
    }
}

fn read_required(req: &serde_json::Value, a: &Vec<String>, k: &str) -> (r: Result<String, String>)
    requires
        keys_view(a@) == args_at(),
    ensures
        match r {
            Ok(t) => required(json_nodes(*req), k@) == Ok::<_, Seq<char>>(t@),
            Err(e) => required(json_nodes(*req), k@) == Err::<Seq<char>, _>(e@),
        },
{
    match read_arg_text(req, a, k) {
        Some(t) => Ok(t),
        None => {
            let mut m = chars_of("missing ");
            push_str(&mut m, k);
            Err(string_of(&m))
        },
    }
}

fn arg_is_given(req: &serde_json::Value, a: &Vec<String>, k: &str) -> (r: bool)
    requires
        keys_view(a@) == args_at(),
    ensures
        r == arg_given(json_nodes(*req), k@),
{
    match item_at(req, &child_path(a, k)) {
        Some(JsonItem::Null) => false,
        Some(_) => true,
        None => false,
    }
}

fn copy_arg(req: &serde_json::Value, a: &Vec<String>, k: &str, body: &mut Vec<(String, BodyPart)>)
    requires
        keys_view(a@) == args_at(),
    ensures
        parts_view(final(body)@) == parts_view(old(body)@) + copied(json_nodes(*req), k@),
{
    let p = child_path(a, k);
    if arg_is_given(req, a, k) {
        match value_at(req, &p) {
            Some(v) => {
                body.push((k.to_string(), BodyPart::Value(v)));
                assert(parts_view(body@) =~= parts_view(old(body)@) + copied(json_nodes(*req), k@));
            },
            None => {},
        }
    } else {
        assert(parts_view(body@) =~= parts_view(old(body)@) + copied(json_nodes(*req), k@));
    }
}

fn push_text_member(body: &mut Vec<(String, BodyPart)>, k: &str, t: Option<String>)
    ensures
        parts_view(final(body)@) == parts_view(old(body)@) + text_member(k@, opt_text(t)),
{
    match t {
        Some(t) => {
            body.push((k.to_string(), BodyPart::Text(t)));
            assert(parts_view(body@) =~= parts_view(old(body)@) + text_member(k@, opt_text(Some(t))));
        },
        None => {
            assert(parts_view(body@) =~= parts_view(old(body)@) + text_member(k@, None));
        },
    }
}

fn extension_text(p: &str) -> (r: Option<String>)
    ensures
        opt_text(r) == extension(p@),
{
    match extension_of(&chars_of(p)) {
        Some(e) => Some(string_of(&e)),
        None => None,
    }
}

fn one_input(field: &str, path: String) -> (r: Vec<(String, String)>)
    ensures
        text_pairs(r@) == seq![(field@, path@)],
{
    let r = vec![(field.to_string(), path)];
    assert(text_pairs(r@) =~= seq![(field@, path@)]);
    r
}

fn file_tool(op: &str, body: Vec<(String, BodyPart)>, input: String, output: String) -> (r: ToolCall)
    ensures
        r@ == file_call(op@, parts_view(body@), input@, output@),
{
    let inputs = one_input("file", input);
    let r = ToolCall { op: op.to_string(), post: true, body: Some(body), inputs, query: Vec::new(), output: Some(output) };
    assert(text_pairs(r.query@) =~= Seq::<(Seq<char>, Seq<char>)>::empty());
    r
}

fn convert_call(req: &serde_json::Value, a: &Vec<String>, output: &str) -> (r: Vec<(String, BodyPart)>)
    requires
        keys_view(a@) == args_at(),
    ensures
        parts_view(r@) == convert_body(json_nodes(*req), output@),
{
    let ghost n = json_nodes(*req);
    let mut body: Vec<(String, BodyPart)> = Vec::new();
    assert(parts_view(body@) =~= Seq::<(Seq<char>, BodyPartView)>::empty());
    copy_arg(req, a, "preset", &mut body);
    copy_arg(req, a, "format", &mut body);
    copy_arg(req, a, "video_codec", &mut body);
    copy_arg(req, a, "audio_codec", &mut body);
    copy_arg(req, a, "crf", &mut body);
    copy_arg(req, a, "width", &mut body);
    copy_arg(req, a, "height", &mut body);
    copy_arg(req, a, "fps", &mut body);
    copy_arg(req, a, "sample_rate", &mut body);
    copy_arg(req, a, "channels", &mut body);
    copy_arg(req, a, "encoder_preset", &mut body);
    copy_arg(req, a, "pixel_format", &mut body);
    copy_arg(req, a, "no_video", &mut body);
    copy_arg(req, a, "no_audio", &mut body);
    copy_arg(req, a, "copy_video", &mut body);
    copy_arg(req, a, "copy_audio", &mut body);
    copy_arg(req, a, "start", &mut body);
    copy_arg(req, a, "end", &mut body);
    copy_arg(req, a, "duration", &mut body);
    let bitrate = match item_at(req, &child_path(a, "audio_bitrate")) {
        Some(JsonItem::Text(s)) => Some(s),
        Some(JsonItem::Number(s)) => Some(s),
        _ => None,
    };
    push_text_member(&mut body, "audio_bitrate", bitrate);
    let default = if !arg_is_given(req, a, "preset") && !arg_is_given(req, a, "format") {
        extension_text(output)
    } else {
        None
    };
    push_text_member(&mut body, "format", default);
    assert(parts_view(body@) =~= convert_body(n, output@));
    body
}

fn concat_call(req: &serde_json::Value, a: &Vec<String>, count: usize) -> (r: Option<Vec<(String, String)>>)
    requires
        keys_view(a@) == args_at(),
    ensures
        match r {
            Some(v) => concat_inputs(json_nodes(*req), count as nat) == Some(text_pairs(v@)),
            None => concat_inputs(json_nodes(*req), count as nat) is None,
        },
{
    let ghost n = json_nodes(*req);
    let list = child_path(a, "input_paths");
    let mut out: Vec<(String, String)> = Vec::new();
    let mut i: usize = 0;
    assert(text_pairs(out@) =~= Seq::<(Seq<char>, Seq<char>)>::empty());
    while i < count
        invariant
            i <= count,
            n == json_nodes(*req),
            keys_view(list@) == args_at().push("input_paths"@),
            concat_inputs(n, i as nat) == Some(text_pairs(out@)),
        decreases count - i,
    {
        let p = child_path(&list, string_of(&decimal_u64(i as u64)).as_str());
        match item_at(req, &p) {
            Some(JsonItem::Text(t)) => {
                let field = input_field(i);
                out.push((field, t));
                assert(text_pairs(out@) =~= text_pairs(out@.drop_last()).push(
                    (input_field_spec(i as nat), out@.last().1@),
                ));
            },
            _ => {
                proof {
                    lemma_concat_inputs_stay_none(n, (i + 1) as nat, count as nat);
                }
                return None;
            },
        }
        i = i + 1;
    }
    Some(out)
}

proof fn lemma_concat_inputs_stay_none(n: Seq<(Seq<Seq<char>>, ItemView)>, from: nat, to: nat)
    requires
        from <= to,
        concat_inputs(n, from) is None,
    ensures
        concat_inputs(n, to) is None,
    decreases to - from,
{
    if from < to {
        assert(concat_inputs(n, from + 1) is None);
        lemma_concat_inputs_stay_none(n, from + 1, to);
    }
}

/// What a call of `tool` with the JSON-RPC request `req` asks of the handler, or what is
/// wrong with its arguments.
pub fn tool_call(tool: Tool, req: &serde_json::Value) -> (r: Result<ToolCall, String>)
    ensures
        match r {
            Ok(c) => tool_call_spec(tool, json_nodes(*req)) == Ok::<_, Seq<char>>(c@),
            Err(e) => tool_call_spec(tool, json_nodes(*req)) == Err::<ToolCallView, _>(e@),
        },
{
    let ghost n = json_nodes(*req);
    let a = args_path();
    match tool {
        Tool::Convert => {
            let i = match read_required(req, &a, "input_path") {
                Ok(t) => t,
                Err(e) => {
                    return Err(e);
                },
            };
            let o = match read_required(req, &a, "output_path") {
                Ok(t) => t,
                Err(e) => {
                    return Err(e);
                },
            };
            let body = convert_call(req, &a, o.as_str());
            Ok(file_tool("convert", body, i, o))
        },
        Tool::ExtractAudio => {
            let i = match read_required(req, &a, "input_path") {
                Ok(t) => t,
                Err(e) => {
                    return Err(e);
                },
            };
            let o = match read_required(req, &a, "output_path") {
                Ok(t) => t,
                Err(e) => {
                    return Err(e);
                },
            };
            let mut body: Vec<(String, BodyPart)> = Vec::new();
            assert(parts_view(body@) =~= Seq::<(Seq<char>, BodyPartView)>::empty());
            push_text_member(&mut body, "codec", read_arg_text(req, &a, "codec"));
            push_text_member(&mut body, "format", extension_text(o.as_str()));
            assert(parts_view(body@) =~= text_member("codec"@, arg_text(n, "codec"@)) + text_member("format"@, extension(o@)));
            Ok(file_tool("extract-audio", body, i, o))
        },
        Tool::Thumbnail => {
            let i = match read_required(req, &a, "input_path") {
                Ok(t) => t,
                Err(e) => {
                    return Err(e);
                },
            };
            let o = match read_required(req, &a, "output_path") {
                Ok(t) => t,
                Err(e) => {
                    return Err(e);
                },
            };
            let mut body: Vec<(String, BodyPart)> = Vec::new();
            assert(parts_view(body@) =~= Seq::<(Seq<char>, BodyPartView)>::empty());
            copy_arg(req, &a, "time", &mut body);
            copy_arg(req, &a, "width", &mut body);
            assert(parts_view(body@) =~= copied(n, "time"@) + copied(n, "width"@));
            Ok(file_tool("thumbnail", body, i, o))
        },
        Tool::Filter => {
            let i = match read_required(req, &a, "input_path") {
                Ok(t) => t,
                Err(e) => {
                    return Err(e);
                },
            };
            let o = match read_required(req, &a, "output_path") {
                Ok(t) => t,
                Err(e) => {
                    return Err(e);
                },
            };
            let g = match read_required(req, &a, "graph") {
                Ok(t) => t,
                Err(e) => {
                    return Err(e);
                },
            };
            let ghost gv = g@;
            let mut body: Vec<(String, BodyPart)> = Vec::new();
            body.push(("graph".to_string(), BodyPart::Text(g)));
            assert(parts_view(body@) =~= seq![("graph"@, BodyPartView::Text(gv))]);
            let format = match read_arg_text(req, &a, "format") {
                Some(f) => Some(f),
                None => extension_text(o.as_str()),
            };
            push_text_member(&mut body, "format", format);
            assert(parts_view(body@) =~= seq![("graph"@, BodyPartView::Text(gv))] + text_member("format"@, format_or_extension(n, o@)));
            Ok(file_tool("filter", body, i, o))
        },
        Tool::Concat => {
            let count = match item_at(req, &child_path(&a, "input_paths")) {
                Some(JsonItem::Array(c)) => c,
                _ => {
                    return Err("missing input_paths".to_string());
                },
            };
            if count < 2 {
                return Err("concat requires at least 2 input_paths".to_string());
            }
            let o = match read_required(req, &a, "output_path") {
                Ok(t) => t,
                Err(e) => {
                    return Err(e);
                },
            };
            let inputs = match concat_call(req, &a, count) {
                Some(v) => v,
                None => {
                    return Err("input_paths must be strings".to_string());
                },
            };
            let format = match read_arg_text(req, &a, "format") {
                Some(f) => Some(f),
                None => extension_text(o.as_str()),
            };
            let mut body: Vec<(String, BodyPart)> = Vec::new();
            assert(parts_view(body@) =~= Seq::<(Seq<char>, BodyPartView)>::empty());
            push_text_member(&mut body, "format", format);
            assert(parts_view(body@) =~= text_member("format"@, format_or_extension(n, o@)));
            let r = ToolCall { op: "concat".to_string(), post: true, body: Some(body), inputs, query: Vec::new(), output: Some(o) };
            assert(text_pairs(r.query@) =~= Seq::<(Seq<char>, Seq<char>)>::empty());
            Ok(r)
        },
        Tool::Raw => {
            let i = match read_required(req, &a, "input_path") {
                Ok(t) => t,
                Err(e) => {
                    return Err(e);
                },
            };
            let o = match read_required(req, &a, "output_path") {
                Ok(t) => t,
                Err(e) => {
                    return Err(e);
                },
            };
            let args_p = child_path(&a, "args");
            match item_at(req, &args_p) {
                Some(JsonItem::Array(_)) => {},
                _ => {
                    return Err("missing args array".to_string());
                },
            }
            let args = match value_at(req, &args_p) {
                Some(v) => v,
                None => {
                    return Err("missing args array".to_string());
                },
            };
            let mut body: Vec<(String, BodyPart)> = Vec::new();
            body.push(("args".to_string(), BodyPart::Value(args)));
            body.push(("output_ext".to_string(), BodyPart::Text(raw_output_ext(o.as_str()))));
            assert(parts_view(body@) =~= seq![
                ("args"@, BodyPartView::Value(subtree(n, args_at().push("args"@)))),
                ("output_ext"@, BodyPartView::Text(match extension(o@) {
                    Some(e) => e,
                    None => "mkv"@,
                })),
            ]);
            Ok(file_tool("raw", body, i, o))
        },
        Tool::Probe => {
            let p = match read_required(req, &a, "path") {
                Ok(t) => t,
                Err(e) => {
                    return Err(e);
                },
            };
            let inputs = one_input("file", p);
            let r = ToolCall { op: "probe".to_string(), post: true, body: None, inputs, query: Vec::new(), output: None };
            assert(text_pairs(r.query@) =~= Seq::<(Seq<char>, Seq<char>)>::empty());
            Ok(r)
        },
        Tool::Presets => {
            let r = ToolCall { op: "presets".to_string(), post: false, body: None, inputs: Vec::new(), query: Vec::new(), output: None };
            assert(text_pairs(r.query@) =~= Seq::<(Seq<char>, Seq<char>)>::empty());
            assert(text_pairs(r.inputs@) =~= Seq::<(Seq<char>, Seq<char>)>::empty());
            Ok(r)
        },
        Tool::Capabilities => {
            let kind = match read_arg_text(req, &a, "kind") {
                Some(k) => k,
                None => "all".to_string(),
            };
            let query = one_input("kind", kind);
            let r = ToolCall { op: "capabilities".to_string(), post: false, body: None, inputs: Vec::new(), query, output: None };
            assert(text_pairs(r.inputs@) =~= Seq::<(Seq<char>, Seq<char>)>::empty());
            Ok(r)
        },
    }
}

// ───────────────────────── the JSON-RPC line ─────────────────────────

/// A JSON-RPC request as read: the whole request, its `id` when it has one, and its
/// method (by its `method` string, empty when there is none).
#[derive(Debug)]
pub struct RpcRequest {
    pub request: serde_json::Value,
    pub id: Option<serde_json::Value>,
    pub method_name: String,
    pub method: RpcMethod,
}

/// The `method` a request's nodes name (empty when it has no such string).
pub open spec fn method_text(n: Seq<(Seq<Seq<char>>, ItemView)>) -> Seq<char> {
    match text_of(node_at(n, seq!["method"@])) {
        Some(m) => m,
        None => Seq::empty(),
    }
}

/// The message of a line that is not JSON.
pub open spec fn parse_error_message(e: Seq<char>) -> Seq<char> {
    "parse error: "@ + e
}

/// Read one JSON-RPC line: the request and its method, or the parse error's message.
pub fn rpc_request(line: &[u8]) -> (r: Result<RpcRequest, String>)
    ensures
        match json_document(line@) {
            Err(e) => r matches Err(m) && m@ == parse_error_message(e),
            Ok(n) => r matches Ok(q) && {
                &&& json_nodes(q.request) == n
                &&& q.method_name@ == method_text(n)
                &&& q.method == rpc_method_spec(method_text(n))
                &&& (q.id is Some <==> node_at(n, seq!["id"@]) is Some)
                &&& (q.id matches Some(x) ==> json_nodes(x) == subtree(n, seq!["id"@]))
            },
        },
{
    match parse_json(line) {
        Err(e) => {
            let mut m = chars_of("parse error: ");
            push_str(&mut m, e.as_str());
            Err(string_of(&m))
        },
        Ok(request) => {
            let method_path = vec!["method".to_string()];
            assert(keys_view(method_path@) =~= seq!["method"@]);
            let id_path = vec!["id".to_string()];
            assert(keys_view(id_path@) =~= seq!["id"@]);
            let method_name = match item_at(&request, &method_path) {
                Some(JsonItem::Text(m)) => m,
                _ => String::new(),
            };
            let id = value_at(&request, &id_path);
            let method = rpc_method(method_name.as_str());
            Ok(RpcRequest { request, id, method_name, method })
        },
    }
}

/// The tool a `tools/call` request names (its `params.name`, empty when absent).
pub open spec fn called_name(n: Seq<(Seq<Seq<char>>, ItemView)>) -> Seq<char> {
    match text_of(node_at(n, seq!["params"@, "name"@])) {
        Some(t) => t,
        None => Seq::empty(),
    }
}

/// The tool a `tools/call` request names and what it asks of the handler, or the message
/// of an unknown tool or of what is wrong with its arguments.
pub fn tool_request(req: &serde_json::Value) -> (r: Result<(Tool, ToolCall), String>)
    ensures
        match r {
            Ok((t, c)) => tool_spec(called_name(json_nodes(*req))) == Some(t) && tool_call_spec(t, json_nodes(*req)) == Ok::<_, Seq<char>>(c@),
            Err(e) => match tool_spec(called_name(json_nodes(*req))) {
                None => e@ == "unknown tool: "@ + called_name(json_nodes(*req)),
                Some(t) => tool_call_spec(t, json_nodes(*req)) == Err::<ToolCallView, _>(e@),
            },
        },
{
    let name_path = vec!["params".to_string(), "name".to_string()];
    assert(keys_view(name_path@) =~= seq!["params"@, "name"@]);
    let name = match item_at(req, &name_path) {
        Some(JsonItem::Text(t)) => t,
        _ => String::new(),
    };
    let tool = match tool_named(name.as_str()) {
        Ok(t) => t,
        Err(e) => {
            return Err(e);
        },
    };
    match tool_call(tool, req) {
        Ok(call) => Ok((tool, call)),
        Err(e) => Err(e),
    }
}

} // verus!
