//! Tool tasks: submission, webhook execution, and script discovery.
//!
//! A tool submission allocates a fresh correlation id, runs in the
//! background, and ends in one terminal event chosen from its result.  A
//! webhook tool bypasses the process task: the backend executes it and the
//! response envelope's `result` field becomes the terminal payload.  Tools
//! are also discovered from script files carrying a metadata block in their
//! comment header.

use vstd::prelude::*;

use crate::dispatch::get_runtime_from_extension;
use crate::dispatch::spec_runtime_from_extension;
use crate::error::AppError;
use crate::events::UiEvent;
use crate::models::DynamicTool;
use crate::text::contains_str;
use crate::text::seq_join;
use crate::text::spec_contains;
use crate::text::spec_drop_start;
use crate::text::spec_lines;
use crate::text::spec_trim_ws;
use crate::text::split_lines;
use crate::text::join_with;
use crate::text::str_eq;
use crate::text::trim_leading_hashes;
use crate::text::trim_ws;

verus! {

/// The text the backend's webhook executor envelope yields: the pretty
/// rendering of its `result` field (JSON `null` when absent), or nothing
/// when the body is not JSON.  A function of the body text alone.
pub uninterp spec fn webhook_result_of(s: Seq<char>) -> Option<Seq<char>>;

/// Relies on serde_json::from_str and serde_json::to_string_pretty: decodes
/// the response envelope and renders its `result` field.
#[verifier::external_body]
fn webhook_result_text(body: &str) -> (r: Option<String>)
    ensures
        match r {
            Some(t) => webhook_result_of(body@) == Some(t@),
            None => webhook_result_of(body@) is None,
        },
{
    let v: serde_json::Value = serde_json::from_str(body).ok()?;
    serde_json::to_string_pretty(&v.get("result")).ok()
}

/// Digest the webhook executor's HTTP response into the task's events and
/// result.
///
/// A non-success status is an internal error carrying the response body; a
/// success status yields the envelope's `result` text, forwarded once as a
/// `tool-output` chunk (this runtime does not stream) and returned as the
/// task's result; a body that does not decode is a client error.
pub fn webhook_outcome(task_id: &str, status_ok: bool, body: &str) -> (r: (
    Vec<UiEvent>,
    Result<String, AppError>,
))
    ensures
        !status_ok ==> r.0@.len() == 0 && (r.1 matches Err(e) && e matches AppError::Internal(m)
            && m@ == "Backend webhook executor failed: "@ + body@),
        status_ok ==> match webhook_result_of(body@) {
            Some(t) => r.0@.len() == 1 && (r.0@[0] matches UiEvent::ToolOutput {
                task_id: tid,
                chunk,
            } && tid@ == task_id@ && chunk@ == t) && (r.1 matches Ok(res) && res@ == t),
            None => r.0@.len() == 0 && (r.1 matches Err(e) && e matches AppError::ApiClient(m)
                && m@ == "Failed to decode webhook executor response"@),
        },
{
    if !status_ok {
        let msg = String::from_str("Backend webhook executor failed: ").concat(body);
        return (Vec::new(), Err(AppError::Internal(msg)));
    }
    match webhook_result_text(body) {
        Some(t) => {
            let mut events: Vec<UiEvent> = Vec::new();
            events.push(
                UiEvent::ToolOutput {
                    task_id: String::from_str(task_id),
                    chunk: String::from_str(t.as_str()),
                },
            );
            (events, Ok(t))
        },
        None => (
            Vec::new(),
            Err(
                AppError::ApiClient(
                    String::from_str("Failed to decode webhook executor response"),
                ),
            ),
        ),
    }
}

/// The metadata text a script's comment header encodes: between the tool
/// marker line and the end marker line, each line stripped of its comment
/// hashes and surrounding whitespace, concatenated.
pub open spec fn spec_metadata_text(lines: Seq<Seq<char>>, in_block: bool) -> Seq<char>
    decreases lines.len(),
{
    if lines.len() == 0 {
        Seq::empty()
    } else {
        let t = spec_trim_ws(lines[0]);
        if t == "### NEXUS-TOOL-END ###"@ {
            Seq::empty()
        } else {
            let piece = if in_block {
                spec_trim_ws(spec_drop_start(t, |c: char| c == '#'))
            } else {
                Seq::<char>::empty()
            };
            piece + spec_metadata_text(
                lines.drop_first(),
                in_block || t == "### NEXUS-TOOL ###"@,
            )
        }
    }
}

/// Assemble the metadata text from a script's lines.
fn assemble_metadata(lines: &Vec<String>) -> (r: String)
    ensures
        r@ == spec_metadata_text(lines.deep_view(), false),
{
    let mut acc = String::new();
    let mut in_block = false;
    let mut i: usize = 0;
    let ghost dv = lines.deep_view();
    proof {
        assert(dv.skip(0) =~= dv);
        assert(acc@ =~= Seq::<char>::empty());
    }
    while i < lines.len()
        invariant
            i <= lines@.len(),
            dv == lines.deep_view(),
            spec_metadata_text(dv, false) == acc@ + spec_metadata_text(
                dv.skip(i as int),
                in_block,
            ),
        decreases lines@.len() - i,
    {
        proof {
            assert(dv.skip(i as int)[0] == dv[i as int]);
            assert(dv.skip(i as int).drop_first() =~= dv.skip(i as int + 1));
        }
        let trimmed = trim_ws(lines[i].as_str());
        if str_eq(trimmed.as_str(), "### NEXUS-TOOL-END ###") {
            proof {
                assert(acc@ + Seq::<char>::empty() =~= acc@);
            }
            return acc;
        }
        if in_block {
            let unhashed = trim_leading_hashes(trimmed.as_str());
            let cleaned = trim_ws(unhashed.as_str());
            acc.append(cleaned.as_str());
        }
        if str_eq(trimmed.as_str(), "### NEXUS-TOOL ###") {
            in_block = true;
        }
        i = i + 1;
    }
    proof {
        assert(dv.skip(dv.len() as int) =~= Seq::<Seq<char>>::empty());
        assert(acc@ + Seq::<char>::empty() =~= acc@);
    }
    acc
}

/// The tool name and description a metadata text encodes, if it is a JSON
/// object with string `name` and `description` fields: a function of the
/// text alone.
pub uninterp spec fn tool_metadata_of(s: Seq<char>) -> Option<(Seq<char>, Seq<char>)>;

/// Relies on serde_json::from_str: decodes the metadata object's `name`
/// and `description` fields.
#[verifier::external_body]
fn parse_tool_metadata(s: &str) -> (r: Option<(String, String)>)
    ensures
        match r {
            Some(nd) => tool_metadata_of(s@) == Some((nd.0@, nd.1@)),
            None => tool_metadata_of(s@) is None,
        },
{
    let v: serde_json::Value = serde_json::from_str(s).ok()?;
    let name = v.get("name")?.as_str()?.to_string();
    let description = v.get("description")?.as_str()?.to_string();
    Some((name, description))
}

/// Read one script file's metadata block into a discovered tool.
///
/// A script without a metadata block is no tool; a block that is not a
/// JSON object with name and description is a parse error; otherwise the
/// tool's id is the script path behind the dynamic prefix and its runtime
/// follows the file extension.
pub fn dynamic_tool_from_script(path: &str, extension: Option<&str>, content: &str) -> (r: Result<
    Option<DynamicTool>,
    AppError,
>)
    ensures
        ({
            let meta = spec_metadata_text(spec_lines(content@), false);
            match r {
                Ok(opt) => match opt {
                    None => meta.len() == 0,
                    Some(t) => meta.len() > 0 && tool_metadata_of(meta) == Some(
                        (t.name@, t.description@),
                    ) && t.id@ == "dynamic::"@ + path@ && t.script_path@ == path@ && t.runtime
                        == spec_runtime_from_extension(match extension {
                        Some(e) => Some(e@),
                        None => None,
                    }),
                },
                Err(e) => meta.len() > 0 && tool_metadata_of(meta) is None && (e
                    matches AppError::Parse(m) && m@ == "Failed to parse tool metadata for "@
                    + path@),
            }
        }),
{
    let lines = split_lines(content);
    let metadata_json = assemble_metadata(&lines);
    if metadata_json.as_str().unicode_len() == 0 {
        return Ok(None);
    }
    match parse_tool_metadata(metadata_json.as_str()) {
        None => Err(
            AppError::Parse(
                String::from_str("Failed to parse tool metadata for ").concat(path),
            ),
        ),
        Some(nd) => {
            let runtime = get_runtime_from_extension(extension);
            Ok(
                Some(
                    DynamicTool {
                        id: String::from_str("dynamic::").concat(path),
                        name: nd.0,
                        description: nd.1,
                        script_path: String::from_str(path),
                        runtime,
                    },
                ),
            )
        },
    }
}

/// The lower-case folding of a text: a function of its characters alone.
pub uninterp spec fn lower_of(s: Seq<char>) -> Seq<char>;

/// Relies on str::to_lowercase: folds the text to lower case.
#[verifier::external_body]
fn to_lowercase(s: &str) -> (r: String)
    ensures
        r@ == lower_of(s@),
{
    s.to_lowercase()
}

/// Whether a file name matches a search query: the folded query occurs in
/// the folded name.
pub fn file_name_matches(file_name: &str, query: &str) -> (r: bool)
    ensures
        r == spec_contains(lower_of(file_name@), lower_of(query@)),
{
    let name = to_lowercase(file_name);
    let q = to_lowercase(query);
    contains_str(name.as_str(), q.as_str())
}

/// The built-in file finder's answer: the matches joined line by line, or a
/// fixed sentence when nothing matched.
pub fn find_file_report(query: &str, found: &Vec<String>) -> (r: String)
    ensures
        found@.len() == 0 ==> r@ == "No files found matching '"@ + query@ + "'."@,
        found@.len() > 0 ==> r@ == "Found files:\n"@ + seq_join(found.deep_view(), "\n"@),
{
    if found.len() == 0 {
        let mut out = String::from_str("No files found matching '");
        out.append(query);
        out.append("'.");
        out
    } else {
        let joined = join_with(found, "\n");
        String::from_str("Found files:\n").concat(joined.as_str())
    }
}

} // verus!
