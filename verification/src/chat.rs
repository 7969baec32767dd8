//! Around the stream task: building the upstream request and the
//! best-effort enrichments of one finished reply.
//!
//! Before the stream opens, the engine maps conversation history to the
//! proxy's roles, resolves the provider/model pair from its identifier, and
//! inlines local image references.  After the stream closes, it asks the
//! backend for follow-up suggestions and, for a first reply, a short title;
//! both are best-effort and their raw responses are post-processed here.

use vstd::prelude::*;

use base64::Engine;

use crate::error::AppError;
use crate::models::ChatMessageContentPart;
use crate::models::ImageUrl;
use crate::proxy_types::ProxyResponse;
use crate::text::find_char;
use crate::text::lemma_first_unique;
use crate::text::lemma_last_unique;
use crate::text::spec_is_first;
use crate::text::spec_is_last;
use crate::text::join_with;
use crate::text::rfind_char;
use crate::text::seq_join;
use crate::text::spec_starts_with;
use crate::text::spec_trim_quotes;
use crate::text::spec_trim_ws;
use crate::text::starts_with_str;
use crate::text::str_eq;
use crate::text::take_chars;
use crate::text::trim_quotes;
use crate::text::trim_ws;

verus! {

/// The texts of the plain-text parts, in order.
pub open spec fn spec_text_parts(content: Seq<ChatMessageContentPart>) -> Seq<Seq<char>>
    decreases content.len(),
{
    if content.len() == 0 {
        Seq::empty()
    } else {
        let tail = spec_text_parts(content.drop_first());
        match content[0] {
            ChatMessageContentPart::Text { text } => seq![text@] + tail,
            ChatMessageContentPart::ImageUrl { .. } => tail,
        }
    }
}

/// The user-visible text of a message: its text parts joined by newlines.
pub fn extract_text_from_content(content: &Vec<ChatMessageContentPart>) -> (r: String)
    ensures
        r@ == seq_join(spec_text_parts(content@), "\n"@),
{
    let mut texts: Vec<String> = Vec::new();
    let mut i: usize = 0;
    proof {
        assert(content@.skip(0) =~= content@);
        assert(texts.deep_view() =~= Seq::<Seq<char>>::empty());
    }
    while i < content.len()
        invariant
            i <= content@.len(),
            spec_text_parts(content@) == texts.deep_view() + spec_text_parts(
                content@.skip(i as int),
            ),
        decreases content@.len() - i,
    {
        proof {
            assert(content@.skip(i as int)[0] == content@[i as int]);
            assert(content@.skip(i as int).drop_first() =~= content@.skip(i as int + 1));
        }
        let ghost pre = texts.deep_view();
        match &content[i] {
            ChatMessageContentPart::Text { text } => {
                texts.push(String::from_str(text.as_str()));
                proof {
                    assert(texts.deep_view() =~~= pre + seq![text@]);
                    assert(pre + (seq![text@] + spec_text_parts(content@.skip(i as int + 1)))
                        =~= texts.deep_view() + spec_text_parts(content@.skip(i as int + 1)));
                }
            },
            ChatMessageContentPart::ImageUrl { .. } => {},
        }
        i = i + 1;
    }
    proof {
        assert(content@.skip(content@.len() as int) =~= Seq::<ChatMessageContentPart>::empty());
        assert(texts.deep_view() + Seq::<Seq<char>>::empty() =~= texts.deep_view());
    }
    join_with(&texts, "\n")
}

/// The proxy's name for a stored role: the local "ai" becomes "assistant".
pub open spec fn spec_mapped_role(role: Seq<char>) -> Seq<char> {
    if role == "ai"@ {
        "assistant"@
    } else {
        role
    }
}

/// Map a stored message role to the proxy's role name.
pub fn map_role(role: &str) -> (r: String)
    ensures
        r@ == spec_mapped_role(role@),
{
    if str_eq(role, "ai") {
        String::from_str("assistant")
    } else {
        String::from_str(role)
    }
}

/// The first greedy occurrence of the `::` separator: the text before it
/// and the text after it.
pub open spec fn spec_split_once(s: Seq<char>) -> Option<(Seq<char>, Seq<char>)>
    decreases s.len(),
{
    if s.len() < 2 {
        None
    } else if s[0] == ':' && s[1] == ':' {
        Some((Seq::empty(), s.skip(2)))
    } else {
        match spec_split_once(s.drop_first()) {
            Some(pm) => Some((seq![s[0]] + pm.0, pm.1)),
            None => None,
        }
    }
}

/// A well-formed model identifier splits into exactly two parts: the
/// provider id and the model name.
pub open spec fn spec_model_parts(s: Seq<char>) -> Option<(Seq<char>, Seq<char>)> {
    match spec_split_once(s) {
        None => None,
        Some(pm) => {
            if spec_split_once(pm.1) is Some {
                None
            } else {
                Some(pm)
            }
        },
    }
}

proof fn lemma_split_once_found(s: Seq<char>, i: int)
    requires
        0 <= i,
        i + 2 <= s.len(),
        s[i] == ':' && s[i + 1] == ':',
        forall|k: int| 0 <= k < i ==> !((#[trigger] s[k]) == ':' && s[k + 1] == ':'),
    ensures
        spec_split_once(s) == Some((s.take(i), s.skip(i + 2))),
    decreases i,
{
    if i == 0 {
        assert(s.take(0) =~= Seq::<char>::empty());
    } else {
        let t = s.drop_first();
        assert(forall|k: int| 0 <= k < i - 1 ==> !(#[trigger] t[k] == ':' && t[k + 1] == ':'));
        lemma_split_once_found(t, i - 1);
        assert(seq![s[0]] + t.take(i - 1) =~= s.take(i));
        assert(t.skip(i + 1) =~= s.skip(i + 2));
    }
}

proof fn lemma_split_once_none(s: Seq<char>)
    requires
        forall|k: int| 0 <= k && k + 2 <= s.len() ==> !((#[trigger] s[k]) == ':' && s[k + 1] == ':'),
    ensures
        spec_split_once(s) is None,
    decreases s.len(),
{
    if s.len() >= 2 {
        let t = s.drop_first();
        assert(forall|k: int|
            0 <= k && k + 2 <= t.len() ==> !(#[trigger] t[k] == ':' && t[k + 1] == ':'));
        lemma_split_once_none(t);
    }
}

/// The index of the first `::` separator, if any.
fn first_sep_index(s: &str) -> (r: Option<usize>)
    ensures
        match r {
            Some(i) => i + 2 <= s@.len() && spec_split_once(s@) == Some(
                (s@.take(i as int), s@.skip(i as int + 2)),
            ),
            None => spec_split_once(s@) is None,
        },
{
    let slen = s.unicode_len();
    if slen < 2 {
        proof {
            lemma_split_once_none(s@);
        }
        return None;
    }
    let mut i: usize = 0;
    while i <= slen - 2
        invariant
            slen == s@.len(),
            2 <= slen,
            i <= slen - 1,
            forall|k: int| 0 <= k < i ==> !((#[trigger] s@[k]) == ':' && s@[k + 1] == ':'),
        decreases slen - i,
    {
        if s.get_char(i) == ':' && s.get_char(i + 1) == ':' {
            proof {
                lemma_split_once_found(s@, i as int);
            }
            return Some(i);
        }
        i = i + 1;
    }
    proof {
        lemma_split_once_none(s@);
    }
    None
}

/// Resolve a model identifier of the form `provider::model`.
///
/// Returns the provider id and model name exactly when the identifier has
/// the two-part form; any other shape is a configuration error.
pub fn parse_model_identifier(s: &str) -> (r: Result<(String, String), AppError>)
    ensures
        match r {
            Ok(pm) => spec_model_parts(s@) == Some((pm.0@, pm.1@)),
            Err(e) => spec_model_parts(s@) is None && (e matches AppError::Config(m)
                && m@ == "Invalid model identifier: "@ + s@),
        },
{
    match first_sep_index(s) {
        None => Err(
            AppError::Config(String::from_str("Invalid model identifier: ").concat(s)),
        ),
        Some(i) => {
            let slen = s.unicode_len();
            let provider = s.substring_char(0, i);
            let model = s.substring_char(i + 2, slen);
            proof {
                assert(s@.subrange(0, i as int) =~= s@.take(i as int));
                assert(s@.subrange(i as int + 2, s@.len() as int) =~= s@.skip(i as int + 2));
            }
            match first_sep_index(model) {
                Some(_) => Err(
                    AppError::Config(String::from_str("Invalid model identifier: ").concat(s)),
                ),
                None => Ok((String::from_str(provider), String::from_str(model))),
            }
        },
    }
}

/// The list of strings a suggestions response encodes, if its bracketed
/// slice is a JSON array of strings: a function of the text alone.
pub uninterp spec fn string_list_of(s: Seq<char>) -> Option<Seq<Seq<char>>>;

/// Relies on serde_json::from_str: decodes a JSON array of strings.
#[verifier::external_body]
fn parse_string_list(s: &str) -> (r: Option<Vec<String>>)
    ensures
        match r {
            Some(v) => string_list_of(s@) == Some(v.deep_view()),
            None => string_list_of(s@) is None,
        },
{
    serde_json::from_str::<Vec<String>>(s).ok()
}

/// What the suggestion post-processing yields for a response text: the
/// decoded list of the bracketed slice, an error when that slice is not an
/// array of strings, and an empty list when no bracketed slice exists.
pub open spec fn spec_suggestions_outcome(s: Seq<char>) -> Result<Seq<Seq<char>>, ()> {
    let f = choose|i: int| spec_is_first(s, '[', i);
    let l = choose|j: int| spec_is_last(s, ']', j);
    if (exists|i: int| spec_is_first(s, '[', i)) && (exists|j: int| spec_is_last(s, ']', j))
        && f < l {
        match string_list_of(s.subrange(f, l + 1)) {
            Some(list) => Ok(list),
            None => Err(()),
        }
    } else {
        Ok(Seq::empty())
    }
}

/// Extract the suggested follow-up actions from a raw suggestions response.
///
/// The slice between the first `[` and the last `]` is decoded as a JSON
/// array of strings; a text without such a slice yields the empty list, a
/// slice that does not decode is an internal error.
pub fn suggestions_from_response_text(text: &str) -> (r: Result<Vec<String>, AppError>)
    ensures
        match r {
            Ok(v) => spec_suggestions_outcome(text@) == Ok::<Seq<Seq<char>>, ()>(v.deep_view()),
            Err(e) => spec_suggestions_outcome(text@) is Err && (e matches AppError::Internal(m)
                && m@ == "Failed to parse suggestions from proxy"@),
        },
{
    let slen = text.unicode_len();
    let start = find_char(text, '[');
    let end = rfind_char(text, ']');
    match (start, end) {
        (Some(f), Some(l)) => {
            proof {
                lemma_first_unique(text@, '[', f as int);
                lemma_last_unique(text@, ']', l as int);
            }
            if f < l {
                let slice = text.substring_char(f, l + 1);
                match parse_string_list(slice) {
                    Some(v) => Ok(v),
                    None => Err(
                        AppError::Internal(
                            String::from_str("Failed to parse suggestions from proxy"),
                        ),
                    ),
                }
            } else {
                let v: Vec<String> = Vec::new();
                proof {
                    assert(v.deep_view() =~= Seq::<Seq<char>>::empty());
                }
                Ok(v)
            }
        },
        (None, _) => {
            proof {
                if exists|i: int| spec_is_first(text@, '[', i) {
                    let w = choose|i: int| spec_is_first(text@, '[', i);
                    assert(text@[w] != '[');
                }
            }
            let v: Vec<String> = Vec::new();
            proof {
                assert(v.deep_view() =~= Seq::<Seq<char>>::empty());
            }
            Ok(v)
        },
        (Some(_), None) => {
            proof {
                if exists|j: int| spec_is_last(text@, ']', j) {
                    let w = choose|j: int| spec_is_last(text@, ']', j);
                    assert(text@[w] != ']');
                }
            }
            let v: Vec<String> = Vec::new();
            proof {
                assert(v.deep_view() =~= Seq::<Seq<char>>::empty());
            }
            Ok(v)
        },
    }
}

/// The cleaned title a response choice carries: trimmed of whitespace, then
/// of surrounding quotes.
pub open spec fn spec_cleaned_title(content: Seq<char>) -> Seq<char> {
    spec_trim_quotes(spec_trim_ws(content))
}

/// The title a generation response yields: the first choice's cleaned
/// content, or the fixed fallback when the response has no choices.
pub fn title_from_response(r: &ProxyResponse) -> (t: String)
    ensures
        r.choices@.len() == 0 ==> t@ == "Untitled Chat"@,
        r.choices@.len() > 0 ==> t@ == spec_cleaned_title(r.choices@[0].message.content@),
{
    if r.choices.len() == 0 {
        String::from_str("Untitled Chat")
    } else {
        let trimmed = trim_ws(r.choices[0].message.content.as_str());
        trim_quotes(trimmed.as_str())
    }
}

/// Whether an image reference must be inlined before transmission: a local
/// path, neither a remote URL nor already a data URL.
pub fn needs_inline_encoding(url: &str) -> (r: bool)
    ensures
        r == (!spec_starts_with(url@, "http"@) && !spec_starts_with(url@, "data:"@)),
{
    !starts_with_str(url, "http") && !starts_with_str(url, "data:")
}

/// The base64 rendering of a byte string under the standard padded
/// alphabet: a function of the bytes alone.
pub uninterp spec fn base64_standard_of(bytes: Seq<u8>) -> Seq<char>;

/// Relies on base64's standard engine: encodes with padding, four output
/// characters for every started group of three input bytes.
#[verifier::external_body]
fn base64_encode(bytes: &Vec<u8>) -> (r: String)
    ensures
        r@ == base64_standard_of(bytes@),
        r@.len() == 4 * ((bytes@.len() + 2) / 3),
{
    base64::engine::general_purpose::STANDARD.encode(bytes)
}

/// Inline one local image's bytes as a data-URL content part.
pub fn inline_image_part(bytes: &Vec<u8>) -> (r: ChatMessageContentPart)
    ensures
        r matches ChatMessageContentPart::ImageUrl { image_url } && image_url.url@
            == "data:image/webp;base64,"@ + base64_standard_of(bytes@),
{
    let encoded = base64_encode(bytes);
    let url = String::from_str("data:image/webp;base64,").concat(encoded.as_str());
    ChatMessageContentPart::ImageUrl { image_url: ImageUrl { url } }
}

/// The prompt that asks the backend for a conversation title: the user's
/// query and the reply's first two hundred characters, quoted.
pub fn title_prompt(user_query: &str, ai_response: &str) -> (r: String)
    ensures
        r@ == "Based on the following user query and AI response, generate a very short, concise title (5-10 words max) for this conversation. Do not use quotes. \n\nUSER: \""@
            + user_query@ + "\"\nAI: \""@ + (if ai_response@.len() <= 200 {
            ai_response@
        } else {
            ai_response@.take(200)
        }) + "\"\n\nTITLE:"@,
{
    let truncated = take_chars(ai_response, 200);
    let mut out = String::from_str(
        "Based on the following user query and AI response, generate a very short, concise title (5-10 words max) for this conversation. Do not use quotes. \n\nUSER: \"",
    );
    out.append(user_query);
    out.append("\"\nAI: \"");
    out.append(truncated.as_str());
    out.append("\"\n\nTITLE:");
    out
}

/// The prompt that asks the backend for follow-up suggestions over the
/// reply's text.
pub fn suggestion_prompt(context: &str) -> (r: String)
    ensures
        r@ == "Based on the following text, suggest three concise, actionable next steps for the user. Output only a single, valid JSON array of strings, like [\"Suggestion 1\", \"Suggestion 2\", \"Suggestion 3\"]. Text: \""@
            + context@ + "\""@,
{
    let mut out = String::from_str(
        "Based on the following text, suggest three concise, actionable next steps for the user. Output only a single, valid JSON array of strings, like [\"Suggestion 1\", \"Suggestion 2\", \"Suggestion 3\"]. Text: \"",
    );
    out.append(context);
    out.append("\"");
    out
}

/// Extract the payload of one server-sent-event line: the text after the
/// `data:` prefix, trimmed; a line without the prefix carries no payload.
pub fn sse_data_payload(line: &str) -> (r: Option<String>)
    ensures
        match r {
            Some(p) => spec_starts_with(line@, "data:"@) && p@ == spec_trim_ws(
                line@.skip("data:"@.len() as int),
            ),
            None => !spec_starts_with(line@, "data:"@),
        },
{
    if starts_with_str(line, "data:") {
        let plen = "data:".unicode_len();
        let rest = line.substring_char(plen, line.unicode_len());
        proof {
            assert(line@.subrange("data:"@.len() as int, line@.len() as int) =~= line@.skip(
                "data:"@.len() as int,
            ));
        }
        Some(trim_ws(rest))
    } else {
        None
    }
}

/// Whether a conversation still carries the placeholder title, so that the
/// first finished reply should generate a real one.
pub fn needs_title_generation(title: &str) -> (r: bool)
    ensures
        r == (title@ == "New Chat..."@),
{
    str_eq(title, "New Chat...")
}

/// The placeholder title a new session starts with, by its kind.
pub fn default_conversation_title(session_type: &str) -> (r: String)
    ensures
        session_type@ == "creation"@ ==> r@ == "New Creation"@,
        session_type@ != "creation"@ ==> r@ == "New Chat..."@,
{
    if str_eq(session_type, "creation") {
        String::from_str("New Creation")
    } else {
        String::from_str("New Chat...")
    }
}

} // verus!
