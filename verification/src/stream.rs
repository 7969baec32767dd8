//! The stream task: consuming one assistant reply chunk by chunk.
//!
//! A stream task reads frames from the remote backend's event stream,
//! forwards each raw frame as a `stream-chunk` event, partitions parsed
//! delta fragments into the `thinking` and `content` accumulators, buffers
//! the last `sources` list, and stops at the terminal sentinel, on a
//! transport error, or at the next cooperative checkpoint after
//! cancellation.  Whatever ended the loop, the partial accumulators are
//! assembled and a single `stream-end` event fires.

use vstd::map::*;
use vstd::prelude::*;

use crate::events::UiEvent;
use crate::events::one_terminal_last;
use crate::proxy_types::StreamDelta;
use crate::proxy_types::opt_str_view;
use crate::registry::TaskRegistry;
use crate::text::str_eq;

verus! {

/// One unit received from the transport driving the stream.
#[derive(Clone, Debug)]
pub enum StreamFrame {
    /// The connection opened; nothing to process.
    Opened,
    /// A server-sent message: its event name and its data payload.
    Message { event_name: String, data: String },
    /// The transport reported an error (a normal end-of-stream included);
    /// consumption stops, the accumulated text is kept.
    Failed { message: String },
}

/// One item the task observes in order: either a stop request arriving
/// between frames, or the next frame itself.
#[derive(Clone, Debug)]
pub enum StreamInput {
    CancelRequest,
    Frame(StreamFrame),
}

/// The append-only accumulators of one stream task, and the last-write-wins
/// citation buffer.
#[derive(Clone, Debug)]
pub struct StreamAccumulators {
    pub thinking: String,
    pub content: String,
    pub sources: Option<String>,
}

impl StreamAccumulators {
    /// Fresh, empty accumulators.
    pub fn new() -> (r: Self)
        ensures
            r.thinking@.len() == 0,
            r.content@.len() == 0,
            r.sources is None,
    {
        StreamAccumulators { thinking: String::new(), content: String::new(), sources: None }
    }
}

/// The reasoning/content fragments the backend encoded into one frame's
/// payload, if it decodes as a delta frame: a function of the payload text
/// alone.
pub uninterp spec fn delta_of(s: Seq<char>) -> Option<(Option<Seq<char>>, Option<Seq<char>>)>;

/// Relies on serde_json::from_str: decodes one streamed frame's JSON payload
/// and hands out the first choice's delta, reasoning and content fragments.
#[verifier::external_body]
pub fn parse_stream_delta(data: &str) -> (r: Option<StreamDelta>)
    ensures
        match r {
            Some(d) => delta_of(data@) == Some(
                (opt_str_view(d.reasoning_content), opt_str_view(d.content)),
            ),
            None => delta_of(data@) is None,
        },
{
    let v: serde_json::Value = match serde_json::from_str(data) {
        Ok(v) => v,
        Err(_) => {
            return None;
        },
    };
    let delta = v.get("choices")?.get(0)?.get("delta")?;
    Some(
        StreamDelta {
            content: delta.get("content").and_then(|x| x.as_str()).map(|s| s.to_string()),
            reasoning_content: delta.get("reasoning_content").and_then(|x| x.as_str()).map(
                |s| s.to_string(),
            ),
        },
    )
}

/// `acc` with an optional fragment appended.
pub open spec fn appended(acc: Seq<char>, frag: Option<Seq<char>>) -> Seq<char> {
    match frag {
        Some(f) => acc + f,
        None => acc,
    }
}

fn append_opt(acc: &mut String, frag: &Option<String>)
    ensures
        final(acc)@ == appended(old(acc)@, opt_str_view(*frag)),
{
    match frag {
        Some(f) => acc.append(f.as_str()),
        None => {},
    }
}

/// The final assembled text: the thinking text in its marker when any was
/// accumulated, then the visible content.
pub open spec fn spec_assembled(thinking: Seq<char>, content: Seq<char>) -> Seq<char> {
    if thinking.len() == 0 {
        content
    } else {
        "<think>"@ + thinking + "</think>"@ + content
    }
}

/// Assemble the final message text from the two accumulators.
pub fn assemble_final_text(thinking: &str, content: &str) -> (r: String)
    ensures
        r@ == spec_assembled(thinking@, content@),
{
    if thinking.unicode_len() == 0 {
        String::from_str(content)
    } else {
        let mut out = String::from_str("<think>");
        out.append(thinking);
        out.append("</think>");
        out.append(content);
        out
    }
}

/// Spec-level outcome of consuming a stream: the payloads forwarded as
/// chunks, the two accumulators, and the buffered sources.
pub struct StreamModel {
    pub chunks: Seq<Seq<char>>,
    pub thinking: Seq<char>,
    pub content: Seq<char>,
    pub sources: Option<Seq<char>>,
}

/// What consuming `items` produces, starting from the given cancellation
/// flag and accumulator state.  One frame is one cooperative checkpoint:
/// a frame observed after cancellation ends the loop unemitted; a `sources`
/// message replaces the buffer; the terminal sentinel and a transport error
/// end the loop; any other message is forwarded as a chunk and its decoded
/// fragments are appended.
pub open spec fn spec_stream_run(
    items: Seq<StreamInput>,
    cancelled: bool,
    thinking: Seq<char>,
    content: Seq<char>,
    sources: Option<Seq<char>>,
) -> StreamModel
    decreases items.len(),
{
    if items.len() == 0 {
        StreamModel { chunks: Seq::empty(), thinking, content, sources }
    } else {
        let rest = items.drop_first();
        match items[0] {
            StreamInput::CancelRequest => spec_stream_run(rest, true, thinking, content, sources),
            StreamInput::Frame(f) => {
                if cancelled {
                    StreamModel { chunks: Seq::empty(), thinking, content, sources }
                } else {
                    match f {
                        StreamFrame::Opened => spec_stream_run(
                            rest,
                            cancelled,
                            thinking,
                            content,
                            sources,
                        ),
                        StreamFrame::Message { event_name, data } => {
                            if event_name@ == "sources"@ {
                                spec_stream_run(rest, cancelled, thinking, content, Some(data@))
                            } else if data@ == "[DONE]"@ {
                                StreamModel { chunks: Seq::empty(), thinking, content, sources }
                            } else {
                                let t2 = match delta_of(data@) {
                                    Some(frags) => appended(thinking, frags.0),
                                    None => thinking,
                                };
                                let c2 = match delta_of(data@) {
                                    Some(frags) => appended(content, frags.1),
                                    None => content,
                                };
                                let m = spec_stream_run(rest, cancelled, t2, c2, sources);
                                StreamModel {
                                    chunks: seq![data@] + m.chunks,
                                    thinking: m.thinking,
                                    content: m.content,
                                    sources: m.sources,
                                }
                            }
                        },
                        StreamFrame::Failed { .. } => StreamModel {
                            chunks: Seq::empty(),
                            thinking,
                            content,
                            sources,
                        },
                    }
                }
            },
        }
    }
}

/// Process one frame at its cooperative checkpoint.
///
/// Returns the chunk event to forward, if any, and whether consumption is
/// over.  Exactly mirrors one step of `spec_stream_run`.
pub fn stream_step(
    acc: &mut StreamAccumulators,
    message_id: &str,
    cancelled: bool,
    frame: &StreamFrame,
) -> (r: (Option<UiEvent>, bool))
    ensures
        cancelled ==> r.0 is None && r.1 && *final(acc) == *old(acc),
        !cancelled ==> match frame {
            StreamFrame::Opened => r.0 is None && !r.1 && *final(acc) == *old(acc),
            StreamFrame::Message { event_name, data } => {
                if event_name@ == "sources"@ {
                    &&& r.0 is None
                    &&& !r.1
                    &&& final(acc).thinking == old(acc).thinking
                    &&& final(acc).content == old(acc).content
                    &&& opt_str_view(final(acc).sources) == Some(data@)
                } else if data@ == "[DONE]"@ {
                    r.0 is None && r.1 && *final(acc) == *old(acc)
                } else {
                    &&& r.0 matches Some(e) && e matches UiEvent::StreamChunk {
                        message_id: mid,
                        chunk: c,
                    } && mid@ == message_id@ && c@ == data@
                    &&& !r.1
                    &&& final(acc).thinking@ == (match delta_of(data@) {
                        Some(frags) => appended(old(acc).thinking@, frags.0),
                        None => old(acc).thinking@,
                    })
                    &&& final(acc).content@ == (match delta_of(data@) {
                        Some(frags) => appended(old(acc).content@, frags.1),
                        None => old(acc).content@,
                    })
                    &&& final(acc).sources == old(acc).sources
                }
            },
            StreamFrame::Failed { .. } => r.0 is None && r.1 && *final(acc) == *old(acc),
        },
{
    if cancelled {
        return (None, true);
    }
    match frame {
        StreamFrame::Opened => (None, false),
        StreamFrame::Message { event_name, data } => {
            if str_eq(event_name.as_str(), "sources") {
                acc.sources = Some(String::from_str(data.as_str()));
                (None, false)
            } else if str_eq(data.as_str(), "[DONE]") {
                (None, true)
            } else {
                match parse_stream_delta(data.as_str()) {
                    Some(d) => {
                        append_opt(&mut acc.thinking, &d.reasoning_content);
                        append_opt(&mut acc.content, &d.content);
                    },
                    None => {},
                }
                let e = UiEvent::StreamChunk {
                    message_id: String::from_str(message_id),
                    chunk: String::from_str(data.as_str()),
                };
                (Some(e), false)
            }
        },
        StreamFrame::Failed { .. } => (None, true),
    }
}

/// The payloads of a prefix of chunk events.
pub open spec fn chunk_payloads(events: Seq<UiEvent>) -> Seq<Seq<char>> {
    events.map_values(
        |e: UiEvent|
            match e {
                UiEvent::StreamChunk { chunk, .. } => chunk@,
                _ => Seq::<char>::empty(),
            },
    )
}

/// Run one whole stream task against the registry: register the id, consume
/// the inputs at their checkpoints, deregister on the way out, and emit the
/// single terminal `stream-end` event carrying the assembled text, the
/// buffered sources and the (best-effort) suggestions.
///
/// The returned trace forwards exactly the chunks `spec_stream_run`
/// describes, ends with its only terminal event, and leaves the registry as
/// it was found.
pub fn run_stream_task(
    reg: &mut TaskRegistry,
    message_id: &str,
    items: &Vec<StreamInput>,
    suggestions: Option<Vec<String>>,
) -> (events: Vec<UiEvent>)
    requires
        old(reg).wf(),
        !old(reg)@.contains_key(message_id@),
    ensures
        final(reg).wf(),
        final(reg)@ == old(reg)@,
        !final(reg)@.contains_key(message_id@),
        ({
            let m = spec_stream_run(items@, false, Seq::empty(), Seq::empty(), None);
            &&& events@.len() == m.chunks.len() + 1
            &&& forall|j: int|
                0 <= j < m.chunks.len() ==> ((#[trigger] events@[j]) matches UiEvent::StreamChunk {
                    message_id: mid,
                    chunk: c,
                } && mid@ == message_id@ && c@ == m.chunks[j])
            &&& events@.last() matches UiEvent::StreamEnd {
                message_id: mid,
                final_text,
                sources,
                suggestions: sg,
            } && mid@ == message_id@ && final_text@ == spec_assembled(m.thinking, m.content)
                && opt_str_view(sources) == m.sources && sg@ == (match suggestions {
                Some(v) => v@,
                None => Seq::<String>::empty(),
            })
        }),
        one_terminal_last(events@),
{
    let ghost base = reg@;
    let res = reg.register(message_id);
    if res.is_err() {
        proof {
            assert(false);
        }
        return Vec::new();
    }
    let ghost m0 = spec_stream_run(items@, false, Seq::empty(), Seq::empty(), None);
    let mut acc = StreamAccumulators::new();
    let mut events: Vec<UiEvent> = Vec::new();
    let ghost mut gflag: bool = false;
    let mut stopped = false;
    let mut i: usize = 0;
    proof {
        assert(items@.skip(0) =~= items@);
        assert(acc.thinking@ =~= Seq::<char>::empty());
        assert(acc.content@ =~= Seq::<char>::empty());
        assert(chunk_payloads(events@) =~= Seq::<Seq<char>>::empty());
        assert(m0.chunks =~= chunk_payloads(events@) + m0.chunks);
    }
    while i < items.len() && !stopped
        invariant
            reg.wf(),
            reg@ == base.insert(message_id@, gflag),
            !base.contains_key(message_id@),
            i <= items@.len(),
            m0 == spec_stream_run(items@, false, Seq::empty(), Seq::empty(), None),
            forall|j: int|
                0 <= j < events@.len() ==> ((#[trigger] events@[j]) matches UiEvent::StreamChunk {
                    message_id: mid,
                    chunk: c,
                } && mid@ == message_id@),
            !stopped ==> ({
                let rec = spec_stream_run(
                    items@.skip(i as int),
                    gflag,
                    acc.thinking@,
                    acc.content@,
                    opt_str_view(acc.sources),
                );
                &&& m0.chunks == chunk_payloads(events@) + rec.chunks
                &&& m0.thinking == rec.thinking
                &&& m0.content == rec.content
                &&& m0.sources == rec.sources
            }),
            stopped ==> ({
                &&& m0.chunks == chunk_payloads(events@)
                &&& m0.thinking == acc.thinking@
                &&& m0.content == acc.content@
                &&& m0.sources == opt_str_view(acc.sources)
            }),
        decreases items@.len() - i,
    {
        proof {
            assert(items@.skip(i as int).len() == items@.len() - i);
            assert(items@.skip(i as int)[0] == items@[i as int]);
            assert(items@.skip(i as int).drop_first() =~= items@.skip(i as int + 1));
        }
        match &items[i] {
            StreamInput::CancelRequest => {
                let _found = reg.cancel(message_id);
                proof {
                    gflag = true;
                    assert_maps_equal!(
                        crate::registry::spec_cancel(base.insert(message_id@, false), message_id@),
                        base.insert(message_id@, true)
                    );
                    assert_maps_equal!(
                        crate::registry::spec_cancel(base.insert(message_id@, true), message_id@),
                        base.insert(message_id@, true)
                    );
                }
            },
            StreamInput::Frame(f) => {
                let cflag = match reg.is_cancelled(message_id) {
                    Some(b) => b,
                    None => {
                        proof {
                            assert(false);
                        }
                        false
                    },
                };
                let ghost pre_events = events@;
                let step = stream_step(&mut acc, message_id, cflag, f);
                match step.0 {
                    Some(e) => {
                        events.push(e);
                        proof {
                            assert(chunk_payloads(events@) =~= chunk_payloads(pre_events)
                                + seq![events@.last()->StreamChunk_chunk@]);
                        }
                    },
                    None => {},
                }
                if step.1 {
                    stopped = true;
                }
                proof {
                    if !stopped {
                        let rec_new = spec_stream_run(
                            items@.skip(i as int + 1),
                            gflag,
                            acc.thinking@,
                            acc.content@,
                            opt_str_view(acc.sources),
                        );
                        if step.0 is Some {
                            assert(m0.chunks == chunk_payloads(events@) + rec_new.chunks) by {
                                assert(chunk_payloads(pre_events) + (seq![
                                    events@.last()->StreamChunk_chunk@,
                                ] + rec_new.chunks) =~= chunk_payloads(events@) + rec_new.chunks);
                            }
                        }
                    }
                }
            },
        }
        i = i + 1;
    }
    proof {
        if !stopped {
            assert(items@.skip(i as int) =~= Seq::<StreamInput>::empty());
            assert(m0.chunks =~= chunk_payloads(events@));
        }
    }
    reg.deregister(message_id);
    proof {
        assert_maps_equal!(base.insert(message_id@, gflag).remove(message_id@), base);
    }
    let final_text = assemble_final_text(acc.thinking.as_str(), acc.content.as_str());
    let sg = match suggestions {
        Some(v) => v,
        None => Vec::new(),
    };
    let ghost pre_events = events@;
    let end = UiEvent::StreamEnd {
        message_id: String::from_str(message_id),
        final_text,
        sources: acc.sources,
        suggestions: sg,
    };
    events.push(end);
    proof {
        assert(chunk_payloads(pre_events).len() == pre_events.len());
        assert forall|j: int| 0 <= j < m0.chunks.len() implies (
        #[trigger] events@[j]) matches UiEvent::StreamChunk {
            message_id: mid,
            chunk: c,
        } && mid@ == message_id@ && c@ == m0.chunks[j] by {
            assert(events@[j] == pre_events[j]);
            assert(chunk_payloads(pre_events)[j] == m0.chunks[j]);
        }
    }
    events
}

/// Under an already-observed cancellation, a run forwards nothing and
/// leaves the accumulators as they are.
pub proof fn lemma_cancelled_run(
    items: Seq<StreamInput>,
    thinking: Seq<char>,
    content: Seq<char>,
    sources: Option<Seq<char>>,
)
    ensures
        spec_stream_run(items, true, thinking, content, sources) == (StreamModel {
            chunks: Seq::<Seq<char>>::empty(),
            thinking,
            content,
            sources,
        }),
    decreases items.len(),
{
    if items.len() != 0 {
        match items[0] {
            StreamInput::CancelRequest => {
                lemma_cancelled_run(items.drop_first(), thinking, content, sources);
            },
            StreamInput::Frame(_) => {},
        }
    }
}

/// Law: cancellation is monotone.  Whatever arrives after a stop request
/// contributes nothing: the forwarded chunks and the final accumulators —
/// and with them the `stream-end` payload — are exactly those of the run
/// cut off at the stop request.
pub proof fn lemma_cancellation_monotone(
    before: Seq<StreamInput>,
    after: Seq<StreamInput>,
    thinking: Seq<char>,
    content: Seq<char>,
    sources: Option<Seq<char>>,
)
    ensures
        spec_stream_run(
            before + seq![StreamInput::CancelRequest] + after,
            false,
            thinking,
            content,
            sources,
        ) == spec_stream_run(
            before + seq![StreamInput::CancelRequest],
            false,
            thinking,
            content,
            sources,
        ),
    decreases before.len(),
{
    let full = before + seq![StreamInput::CancelRequest] + after;
    let cut = before + seq![StreamInput::CancelRequest];
    if before.len() == 0 {
        assert(full[0] == StreamInput::CancelRequest);
        assert(cut[0] == StreamInput::CancelRequest);
        assert(full.drop_first() =~= after);
        assert(cut.drop_first() =~= Seq::<StreamInput>::empty());
        lemma_cancelled_run(after, thinking, content, sources);
        lemma_cancelled_run(Seq::<StreamInput>::empty(), thinking, content, sources);
    } else {
        assert(full[0] == before[0]);
        assert(cut[0] == before[0]);
        assert(full.drop_first() =~= before.drop_first() + seq![StreamInput::CancelRequest]
            + after);
        assert(cut.drop_first() =~= before.drop_first() + seq![StreamInput::CancelRequest]);
        match before[0] {
            StreamInput::CancelRequest => {
                lemma_cancelled_run(full.drop_first(), thinking, content, sources);
                lemma_cancelled_run(cut.drop_first(), thinking, content, sources);
            },
            StreamInput::Frame(f) => {
                match f {
                    StreamFrame::Opened => {
                        lemma_cancellation_monotone(
                            before.drop_first(),
                            after,
                            thinking,
                            content,
                            sources,
                        );
                    },
                    StreamFrame::Message { event_name, data } => {
                        if event_name@ == "sources"@ {
                            lemma_cancellation_monotone(
                                before.drop_first(),
                                after,
                                thinking,
                                content,
                                Some(data@),
                            );
                        } else if data@ == "[DONE]"@ {
                        } else {
                            let t2 = match delta_of(data@) {
                                Some(frags) => appended(thinking, frags.0),
                                None => thinking,
                            };
                            let c2 = match delta_of(data@) {
                                Some(frags) => appended(content, frags.1),
                                None => content,
                            };
                            lemma_cancellation_monotone(
                                before.drop_first(),
                                after,
                                t2,
                                c2,
                                sources,
                            );
                        }
                    },
                    StreamFrame::Failed { .. } => {},
                }
            },
        }
    }
}

} // verus!
