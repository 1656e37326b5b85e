use vstd::prelude::*;
use vstd::string::StringExecFns;
use crate::agent::PmChatAgent;
use crate::json::json_string;
use crate::json::spec_json_str;
use crate::normalize::NormalizedEvent;
use crate::normalize::opt_view;

verus! {

/// Request payload for sending a chat message.
pub struct SendMessageRequest {
    pub content: String,
    pub role: Option<String>,
}

/// Request payload for a chat turn answered by an agent.
pub struct AiChatRequest {
    pub content: String,
    pub model: Option<String>,
    pub agent: Option<PmChatAgent>,
}

/// One wire event of the outward stream, as the caller receives it.
pub struct AiChatStreamEvent {
    pub event_type: String,
    pub content: Option<String>,
    pub error: Option<String>,
    pub task_id: Option<String>,
    pub task_title: Option<String>,
}

/// A workspace document served to the caller.
pub struct WorkspaceDoc {
    pub path: String,
    pub repo_name: String,
    pub content: String,
}

/// The workspace documents of every repository of a project.
pub struct WorkspaceDocsResponse {
    pub docs: Vec<WorkspaceDoc>,
}

/// One task with its dependency links, for the summary report.
pub struct TaskWithDependencies {
    pub id: String,
    pub title: String,
    pub description: Option<String>,
    pub status: String,
    pub priority: String,
    pub depends_on: Vec<String>,
    pub depended_by: Vec<String>,
}

/// The task summary report: the tasks and a formatted rendering.
pub struct TaskSummaryResponse {
    pub tasks: Vec<TaskWithDependencies>,
    pub summary_text: String,
}

/// Resolves a chat request's agent and model: the named ones, or the
/// default agent and the default model name.
pub fn request_defaults(req: &AiChatRequest) -> (r: (PmChatAgent, String))
    ensures
        req.agent matches Some(a) ==> r.0 == a,
        req.agent is None ==> r.0 == PmChatAgent::PrimaryCli,
        req.model matches Some(m) ==> r.1@ == m@,
        req.model is None ==> r.1@ == "sonnet"@,
{
    let agent = match req.agent {
        Some(a) => a,
        None => PmChatAgent::default(),
    };
    let model = match &req.model {
        Some(m) => m.clone(),
        None => "sonnet".to_owned(),
    };
    (agent, model)
}

/// The wire tag of each normalized event kind.
pub open spec fn spec_event_tag(ev: NormalizedEvent) -> Seq<char> {
    match ev {
        NormalizedEvent::Content(_) => "content"@,
        NormalizedEvent::Thinking(_) => "thinking"@,
        NormalizedEvent::Error(_) => "error"@,
        NormalizedEvent::Done => "done"@,
    }
}

impl AiChatStreamEvent {
    /// Shapes one normalized event for the wire: the tag, with the text in
    /// the content field or the message in the error field.
    pub fn from_normalized(ev: NormalizedEvent) -> (r: AiChatStreamEvent)
        ensures
            r.event_type@ == spec_event_tag(ev),
            ev matches NormalizedEvent::Content(t) ==> (r.content == Some(t) && r.error is None),
            ev matches NormalizedEvent::Thinking(t) ==> (r.content == Some(t) && r.error is None),
            ev matches NormalizedEvent::Error(m) ==> (r.content is None && r.error == Some(m)),
            ev is Done ==> (r.content is None && r.error is None),
            r.task_id is None,
            r.task_title is None,
    {
        match ev {
            NormalizedEvent::Content(t) => AiChatStreamEvent {
                event_type: "content".to_owned(),
                content: Some(t),
                error: None,
                task_id: None,
                task_title: None,
            },
            NormalizedEvent::Thinking(t) => AiChatStreamEvent {
                event_type: "thinking".to_owned(),
                content: Some(t),
                error: None,
                task_id: None,
                task_title: None,
            },
            NormalizedEvent::Error(m) => AiChatStreamEvent {
                event_type: "error".to_owned(),
                content: None,
                error: Some(m),
                task_id: None,
                task_title: None,
            },
            NormalizedEvent::Done => AiChatStreamEvent {
                event_type: "done".to_owned(),
                content: None,
                error: None,
                task_id: None,
                task_title: None,
            },
        }
    }

    /// Renders this event as its JSON wire form.
    pub fn to_json(&self) -> (r: String)
        ensures
            r@ == spec_event_json(*self),
    {
        let mut out = "{\"type\":".to_owned();
        out.append(json_string(self.event_type.as_str()).as_str());
        out.append(",\"content\":");
        match &self.content {
            Some(c) => out.append(json_string(c.as_str()).as_str()),
            None => out.append("null"),
        }
        out.append(",\"error\":");
        match &self.error {
            Some(e) => out.append(json_string(e.as_str()).as_str()),
            None => out.append("null"),
        }
        match &self.task_id {
            Some(t) => {
                out.append(",\"task_id\":");
                out.append(json_string(t.as_str()).as_str());
            },
            None => {},
        }
        match &self.task_title {
            Some(t) => {
                out.append(",\"task_title\":");
                out.append(json_string(t.as_str()).as_str());
            },
            None => {},
        }
        out.append("}");
        proof {
            reveal_strlit("}");
            assert(out@ =~= spec_event_json(*self));
        }
        out
    }
}

/// A JSON value that is a string when present and `null` when absent.
pub open spec fn spec_json_opt(o: Option<Seq<char>>) -> Seq<char> {
    match o {
        Some(s) => spec_json_str(s),
        None => "null"@,
    }
}

/// The JSON wire form of one stream event: type, content and error always,
/// the task fields only when present.
pub open spec fn spec_event_json(e: AiChatStreamEvent) -> Seq<char> {
    "{\"type\":"@ + spec_json_str(e.event_type@) + ",\"content\":"@ + spec_json_opt(
        opt_view(e.content),
    ) + ",\"error\":"@ + spec_json_opt(opt_view(e.error)) + (match e.task_id {
        Some(t) => ",\"task_id\":"@ + spec_json_str(t@),
        None => Seq::<char>::empty(),
    }) + (match e.task_title {
        Some(t) => ",\"task_title\":"@ + spec_json_str(t@),
        None => Seq::<char>::empty(),
    }) + "}"@
}

} // verus!
