use vstd::prelude::*;
use vstd::string::StrSliceExecFns;
use crate::aggregate::ResponseAggregator;
use crate::aggregate::spec_append;
use crate::aggregate::spec_append_line;
use crate::text::str_eq;

verus! {

/// One canonical event of the normalized output vocabulary, independent of
/// the agent family that produced the underlying line.
#[derive(Debug, PartialEq, Eq)]
pub enum NormalizedEvent {
    Content(String),
    Thinking(String),
    Error(String),
    Done,
}

/// One block of a message-content array, as read from a parsed line.
pub struct ContentBlock {
    pub kind: Option<String>,
    pub text: Option<String>,
}

/// The top-level string fields that the dispatch table consults on one
/// parsed line. Absent or non-string fields are `None`.
pub struct LineFields {
    pub discriminant: Option<String>,
    pub role: Option<String>,
    pub content_field: Option<String>,
    pub result_field: Option<String>,
    pub item_type: Option<String>,
    pub item_text: Option<String>,
}

/// What parsing one line yields: `None` when the line is not a JSON
/// document, otherwise its dispatch-relevant fields. A function of the
/// line's characters alone.
pub uninterp spec fn fields_of(line: Seq<char>) -> Option<LineFields>;

/// The message-content blocks of one line, or the empty sequence when the
/// line is not a JSON document or carries no such array. A function of the
/// line's characters alone.
pub uninterp spec fn blocks_of(line: Seq<char>) -> Seq<ContentBlock>;

/// Relies on `serde_json::from_str::<serde_json::Value>` to parse one line
/// and on `serde_json::Value::get` and `Value::as_str` to read the
/// top-level string fields the dispatch table consults.
#[verifier::external_body]
fn parse_line_fields(line: &str) -> (r: Option<LineFields>)
    ensures
        r == fields_of(line@),
{
    let v: serde_json::Value = serde_json::from_str(line).ok()?;
    let top = |k: &str| v.get(k).and_then(|f| f.as_str()).map(str::to_string);
    let item = |k: &str| v.get("item").and_then(|i| i.get(k)).and_then(|f| f.as_str()).map(str::to_string);
    Some(LineFields {
        discriminant: top("type"),
        role: top("role"),
        content_field: top("content"),
        result_field: top("result"),
        item_type: item("type"),
        item_text: item("text"),
    })
}

/// Relies on `serde_json::from_str::<serde_json::Value>` to parse one line
/// and on `serde_json::Value::get`, `Value::as_array` and `Value::as_str`
/// to read the `message.content` array of blocks.
#[verifier::external_body]
fn parse_blocks(line: &str) -> (r: Vec<ContentBlock>)
    ensures
        r@ == blocks_of(line@),
{
    let mut out = Vec::new();
    if let Ok(v) = serde_json::from_str::<serde_json::Value>(line) {
        if let Some(arr) = v.get("message").and_then(|m| m.get("content")).and_then(|c| c.as_array()) {
            for b in arr {
                out.push(ContentBlock {
                    kind: b.get("type").and_then(|f| f.as_str()).map(|s| s.to_string()),
                    text: b.get("text").and_then(|f| f.as_str()).map(|s| s.to_string()),
                });
            }
        }
    }
    out
}

/// The view of an optional string.
pub open spec fn opt_view(o: Option<String>) -> Option<Seq<char>> {
    match o {
        Some(s) => Some(s@),
        None => None,
    }
}

/// The payload of a message-content block sequence: the text of the last
/// block whose kind is `text` and whose text is non-empty.
pub open spec fn spec_block_payload(blocks: Seq<ContentBlock>) -> Option<Seq<char>>
    decreases blocks.len(),
{
    if blocks.len() == 0 {
        None
    } else {
        let b = blocks.last();
        if ({
            &&& b.kind matches Some(k)
            &&& k@ == "text"@
            &&& b.text matches Some(t)
            &&& t@.len() > 0
        }) {
            Some(b.text->0@)
        } else {
            spec_block_payload(blocks.drop_last())
        }
    }
}

/// The extraction table: which payload, if any, one parsed line yields.
/// `agg_empty` is whether the aggregate was empty when the line arrived;
/// only a `result` line consults it.
pub open spec fn spec_payload(f: LineFields, blocks: Seq<ContentBlock>, agg_empty: bool) -> Option<
    Seq<char>,
> {
    match f.discriminant {
        Some(d) => if d@ == "assistant"@ {
            spec_block_payload(blocks)
        } else if d@ == "item.completed"@ {
            if ({
                &&& f.item_type matches Some(k)
                &&& k@ == "agent_message"@
                &&& f.item_text matches Some(t)
                &&& t@.len() > 0
            }) {
                Some(f.item_text->0@)
            } else {
                None
            }
        } else if d@ == "message"@ {
            if ({
                &&& f.role matches Some(r)
                &&& r@ == "assistant"@
                &&& f.content_field matches Some(c)
                &&& c@.len() > 0
            }) {
                Some(f.content_field->0@)
            } else {
                None
            }
        } else if d@ == "result"@ {
            if ({
                &&& agg_empty
                &&& f.result_field matches Some(r)
                &&& r@.len() > 0
            }) {
                Some(f.result_field->0@)
            } else {
                None
            }
        } else {
            None
        },
        None => None,
    }
}

/// Scans the blocks of a message-content array for the extracted payload:
/// the last block with kind `text` and non-empty text wins.
pub fn extract_block_payload(blocks: &Vec<ContentBlock>) -> (r: Option<String>)
    ensures
        opt_view(r) == spec_block_payload(blocks@),
{
    let mut best: Option<String> = None;
    let mut i: usize = 0;
    let n = blocks.len();
    while i < n
        invariant
            n == blocks@.len(),
            i <= n,
            opt_view(best) == spec_block_payload(blocks@.subrange(0, i as int)),
        decreases n - i,
    {
        let b = &blocks[i];
        let is_text = match &b.kind {
            Some(k) => str_eq(k.as_str(), "text"),
            None => false,
        };
        let has_text = match &b.text {
            Some(t) => !t.as_str().is_empty(),
            None => false,
        };
        if is_text && has_text {
            if let Some(t) = &b.text {
                best = Some(t.clone());
            }
        }
        i += 1;
        proof {
            let pre = blocks@.subrange(0, i - 1);
            let cur = blocks@.subrange(0, i as int);
            assert(cur.drop_last() =~= pre);
            assert(cur.last() == blocks@[i - 1]);
        }
    }
    proof {
        assert(blocks@.subrange(0, blocks@.len() as int) =~= blocks@);
    }
    best
}

/// Applies the extraction table to one parsed line.
pub fn extract_payload(f: &LineFields, blocks: &Vec<ContentBlock>, agg_empty: bool) -> (r: Option<
    String,
>)
    ensures
        opt_view(r) == spec_payload(*f, blocks@, agg_empty),
{
    let d = match &f.discriminant {
        Some(d) => d,
        None => {
            return None;
        },
    };
    if str_eq(d.as_str(), "assistant") {
        extract_block_payload(blocks)
    } else if str_eq(d.as_str(), "item.completed") {
        let is_message = match &f.item_type {
            Some(k) => str_eq(k.as_str(), "agent_message"),
            None => false,
        };
        if is_message {
            match &f.item_text {
                Some(t) if !t.as_str().is_empty() => Some(t.clone()),
                _ => None,
            }
        } else {
            None
        }
    } else if str_eq(d.as_str(), "message") {
        let is_assistant = match &f.role {
            Some(r) => str_eq(r.as_str(), "assistant"),
            None => false,
        };
        if is_assistant {
            match &f.content_field {
                Some(c) if !c.as_str().is_empty() => Some(c.clone()),
                _ => None,
            }
        } else {
            None
        }
    } else if str_eq(d.as_str(), "result") {
        if agg_empty {
            match &f.result_field {
                Some(r) if !r.as_str().is_empty() => Some(r.clone()),
                _ => None,
            }
        } else {
            None
        }
    } else {
        None
    }
}

/// Whether a line opens with a brace, the cue that it may be a JSON
/// document.
pub open spec fn spec_starts_brace(line: Seq<char>) -> bool {
    line.len() > 0 && line[0] == '{'
}

/// The outcome of normalizing one stdout line against an aggregate: the
/// Content payload forwarded to the caller (if any) and the new aggregate.
/// An empty line is ignored; a non-JSON line is forwarded raw and
/// newline-joined only in fallback mode; a parsed line goes through the
/// extraction table and is space-joined.
pub open spec fn spec_line_step(line: Seq<char>, agg: Seq<char>, fallback: bool) -> (Option<
    Seq<char>,
>, Seq<char>) {
    if line.len() == 0 {
        (None, agg)
    } else if !spec_starts_brace(line) || fields_of(line) is None {
        if fallback {
            (Some(line), spec_append_line(agg, line))
        } else {
            (None, agg)
        }
    } else {
        match spec_payload(fields_of(line)->0, blocks_of(line), agg.len() == 0) {
            Some(t) => (Some(t), spec_append(agg, t)),
            None => (None, agg),
        }
    }
}

/// Normalizes one stdout line: classifies it, extracts its payload if any,
/// folds the payload into the aggregate, and returns the Content event to
/// forward to the caller.
pub fn process_line(line: &str, fallback: bool, agg: &mut ResponseAggregator) -> (ev: Option<
    NormalizedEvent,
>)
    ensures
        ({
            let step = spec_line_step(line@, old(agg)@, fallback);
            &&& final(agg)@ == step.1
            &&& (ev is Some) == (step.0 is Some)
            &&& (ev matches Some(e) ==> e is Content && e->Content_0@ == step.0->0)
        }),
{
    if line.is_empty() {
        return None;
    }
    if line.get_char(0) != '{' {
        if fallback {
            agg.append_line(line);
            return Some(NormalizedEvent::Content(line.to_owned()));
        } else {
            return None;
        }
    }
    match parse_line_fields(line) {
        None => {
            if fallback {
                agg.append_line(line);
                Some(NormalizedEvent::Content(line.to_owned()))
            } else {
                None
            }
        },
        Some(f) => {
            let blocks = parse_blocks(line);
            let agg_empty = agg.is_empty();
            match extract_payload(&f, &blocks, agg_empty) {
                Some(t) => {
                    agg.append(t.as_str());
                    Some(NormalizedEvent::Content(t))
                },
                None => None,
            }
        },
    }
}

/// Law: a completed item whose type is `reasoning` never yields a payload,
/// whatever text it carries — internal reasoning never reaches the caller.
pub proof fn lemma_reasoning_suppressed(f: LineFields, blocks: Seq<ContentBlock>, agg_empty: bool)
    requires
        opt_view(f.discriminant) == Some("item.completed"@),
        opt_view(f.item_type) == Some("reasoning"@),
    ensures
        spec_payload(f, blocks, agg_empty) is None,
{
    reveal_strlit("item.completed");
    reveal_strlit("assistant");
    reveal_strlit("agent_message");
    reveal_strlit("reasoning");
    assert("item.completed"@.len() != "assistant"@.len());
    assert("reasoning"@.len() != "agent_message"@.len());
}

/// Law: a `reasoning` item line leaves the stream and the aggregate
/// untouched, whatever text it carries.
pub proof fn lemma_reasoning_line_dropped(line: Seq<char>, agg: Seq<char>, fallback: bool)
    requires
        spec_starts_brace(line),
        fields_of(line) is Some,
        opt_view(fields_of(line)->0.discriminant) == Some("item.completed"@),
        opt_view(fields_of(line)->0.item_type) == Some("reasoning"@),
    ensures
        spec_line_step(line, agg, fallback).0 is None,
        spec_line_step(line, agg, fallback).1 == agg,
{
    lemma_reasoning_suppressed(fields_of(line)->0, blocks_of(line), agg.len() == 0);
}

/// Law: a `result` line yields a payload only while the aggregate is still
/// empty; once content has streamed, it yields none.
pub proof fn lemma_result_gated(f: LineFields, blocks: Seq<ContentBlock>)
    requires
        opt_view(f.discriminant) == Some("result"@),
    ensures
        spec_payload(f, blocks, false) is None,
{
    reveal_strlit("result");
    reveal_strlit("assistant");
    reveal_strlit("item.completed");
    reveal_strlit("message");
    assert("result"@.len() != "assistant"@.len());
    assert("result"@.len() != "item.completed"@.len());
    assert("result"@.len() != "message"@.len());
}

/// Law: after streamed content, an additional `result` line produces no
/// Content event and leaves the aggregate unchanged.
pub proof fn lemma_result_line_after_content(line: Seq<char>, agg: Seq<char>, fallback: bool)
    requires
        agg.len() > 0,
        spec_starts_brace(line),
        fields_of(line) is Some,
        opt_view(fields_of(line)->0.discriminant) == Some("result"@),
    ensures
        spec_line_step(line, agg, fallback).0 is None,
        spec_line_step(line, agg, fallback).1 == agg,
{
    lemma_result_gated(fields_of(line)->0, blocks_of(line));
}

} // verus!
