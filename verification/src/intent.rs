//! Intent suggestions for the copilot overlay.
//!
//! Given what the user currently looks at, the application offers a fixed
//! set of actions, the built-in text actions when the content is text, and
//! one action per tool marked for the copilot.  The caller reads the
//! configured tools from its store and hands them in.

use vstd::prelude::*;

use crate::models::ConfiguredTool;
use crate::models::IntentSuggestion;

verus! {

/// A suggestion reduced to its three texts: action, label, icon.
pub open spec fn spec_suggestion_view(s: IntentSuggestion) -> (Seq<char>, Seq<char>, Seq<char>) {
    (s.action@, s.label@, s.icon@)
}

/// One suggestion per copilot tool, carrying the tool's id and name.
pub open spec fn spec_tool_suggestions(tools: Seq<ConfiguredTool>) -> Seq<
    (Seq<char>, Seq<char>, Seq<char>),
> {
    tools.map_values(|t: ConfiguredTool| (t.id@, t.name@, "Wrench"@))
}

/// The full suggestion list for a context: ask-AI first, the built-in text
/// actions for text content, then the copilot tools, then the fixed tail.
pub open spec fn spec_intent_suggestions(
    content_type: Seq<char>,
    tools: Seq<ConfiguredTool>,
) -> Seq<(Seq<char>, Seq<char>, Seq<char>)> {
    let head = seq![("ask_ai"@, "Ask AI"@, "MessageSquare"@)];
    let text_actions = if content_type == "text"@ {
        seq![
            ("built_in::execute"@, "Execute"@, "Play"@),
            ("built_in::translate"@, "Translate"@, "Languages"@),
            ("built_in::find_file"@, "Find File"@, "FileSearch"@),
        ]
    } else {
        Seq::empty()
    };
    let tail = seq![
        ("built_in::save_to_kb"@, "Save to KB"@, "BookPlus"@),
        ("built_in::view_clipboard_history"@, "View Clipboard"@, "ClipboardList"@),
    ];
    head + text_actions + spec_tool_suggestions(tools) + tail
}

fn suggestion(action: &str, label: &str, icon: &str) -> (r: IntentSuggestion)
    ensures
        spec_suggestion_view(r) == (action@, label@, icon@),
{
    IntentSuggestion {
        action: String::from_str(action),
        label: String::from_str(label),
        icon: String::from_str(icon),
    }
}

/// Assemble the suggestions offered for one observed context.
pub fn get_suggestions_for_context(content_type: &str, copilot_tools: &Vec<ConfiguredTool>) -> (r:
    Vec<IntentSuggestion>)
    ensures
        ({
            let expected = spec_intent_suggestions(content_type@, copilot_tools@);
            &&& r@.len() == expected.len()
            &&& forall|j: int|
                0 <= j < r@.len() ==> spec_suggestion_view(#[trigger] r@[j]) == expected[j]
        }),
{
    let ghost expected = spec_intent_suggestions(content_type@, copilot_tools@);
    let mut out: Vec<IntentSuggestion> = Vec::new();
    out.push(suggestion("ask_ai", "Ask AI", "MessageSquare"));
    if crate::text::str_eq(content_type, "text") {
        out.push(suggestion("built_in::execute", "Execute", "Play"));
        out.push(suggestion("built_in::translate", "Translate", "Languages"));
        out.push(suggestion("built_in::find_file", "Find File", "FileSearch"));
    }
    let ghost base = out@.len() as int;
    proof {
        assert(forall|j: int|
            0 <= j < base ==> spec_suggestion_view(#[trigger] out@[j]) == expected[j]);
    }
    let mut i: usize = 0;
    while i < copilot_tools.len()
        invariant
            i <= copilot_tools@.len(),
            expected == spec_intent_suggestions(content_type@, copilot_tools@),
            expected.len() == base + copilot_tools@.len() + 2,
            out@.len() == base + i,
            forall|j: int|
                0 <= j < out@.len() ==> spec_suggestion_view(#[trigger] out@[j]) == expected[j],
        decreases copilot_tools@.len() - i,
    {
        let t = &copilot_tools[i];
        out.push(
            IntentSuggestion {
                action: String::from_str(t.id.as_str()),
                label: String::from_str(t.name.as_str()),
                icon: String::from_str("Wrench"),
            },
        );
        proof {
            assert(expected[base + i] == spec_tool_suggestions(copilot_tools@)[i as int]);
        }
        i = i + 1;
    }
    out.push(suggestion("built_in::save_to_kb", "Save to KB", "BookPlus"));
    out.push(suggestion("built_in::view_clipboard_history", "View Clipboard", "ClipboardList"));
    out
}

} // verus!
