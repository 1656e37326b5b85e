use vstd::prelude::*;
use crate::text::str_eq;

verus! {

/// The four supported agent command-line families.
#[derive(Clone, Copy, PartialEq, Eq, Structural, Debug)]
pub enum PmChatAgent {
    PrimaryCli,
    CodexCli,
    GeminiCli,
    OpencodeCli,
}

pub open spec fn spec_command_name(a: PmChatAgent) -> Seq<char> {
    match a {
        PmChatAgent::PrimaryCli => "primary"@,
        PmChatAgent::CodexCli => "codex"@,
        PmChatAgent::GeminiCli => "gemini"@,
        PmChatAgent::OpencodeCli => "opencode"@,
    }
}

pub open spec fn spec_display_name(a: PmChatAgent) -> Seq<char> {
    match a {
        PmChatAgent::PrimaryCli => "Primary CLI"@,
        PmChatAgent::CodexCli => "Codex CLI"@,
        PmChatAgent::GeminiCli => "Gemini CLI"@,
        PmChatAgent::OpencodeCli => "OpenCode CLI"@,
    }
}

pub open spec fn spec_identifier(a: PmChatAgent) -> Seq<char> {
    match a {
        PmChatAgent::PrimaryCli => "PRIMARY_CLI"@,
        PmChatAgent::CodexCli => "CODEX_CLI"@,
        PmChatAgent::GeminiCli => "GEMINI_CLI"@,
        PmChatAgent::OpencodeCli => "OPENCODE_CLI"@,
    }
}

/// The catalogue order in which the agent families are listed.
pub open spec fn spec_all_agents() -> Seq<PmChatAgent> {
    seq![
        PmChatAgent::PrimaryCli,
        PmChatAgent::CodexCli,
        PmChatAgent::GeminiCli,
        PmChatAgent::OpencodeCli,
    ]
}

impl PmChatAgent {
    /// The executable name used to resolve and launch this agent.
    pub fn command_name(&self) -> (r: &'static str)
        ensures
            r@ == spec_command_name(*self),
    {
        match self {
            PmChatAgent::PrimaryCli => "primary",
            PmChatAgent::CodexCli => "codex",
            PmChatAgent::GeminiCli => "gemini",
            PmChatAgent::OpencodeCli => "opencode",
        }
    }

    /// The human-readable name shown for this agent.
    pub fn display_name(&self) -> (r: &'static str)
        ensures
            r@ == spec_display_name(*self),
    {
        match self {
            PmChatAgent::PrimaryCli => "Primary CLI",
            PmChatAgent::CodexCli => "Codex CLI",
            PmChatAgent::GeminiCli => "Gemini CLI",
            PmChatAgent::OpencodeCli => "OpenCode CLI",
        }
    }

    /// Whether this agent can stream line-oriented output; true for every
    /// supported family.
    pub fn supports_streaming(&self) -> (r: bool)
        ensures
            r == true,
    {
        match self {
            PmChatAgent::PrimaryCli => true,
            PmChatAgent::CodexCli => true,
            PmChatAgent::GeminiCli => true,
            PmChatAgent::OpencodeCli => true,
        }
    }

    /// The wire identifier of this agent family.
    pub fn identifier(&self) -> (r: &'static str)
        ensures
            r@ == spec_identifier(*self),
    {
        match self {
            PmChatAgent::PrimaryCli => "PRIMARY_CLI",
            PmChatAgent::CodexCli => "CODEX_CLI",
            PmChatAgent::GeminiCli => "GEMINI_CLI",
            PmChatAgent::OpencodeCli => "OPENCODE_CLI",
        }
    }

    /// Every supported agent family, in catalogue order.
    pub fn all_agents() -> (r: Vec<PmChatAgent>)
        ensures
            r@ == spec_all_agents(),
    {
        let mut v: Vec<PmChatAgent> = Vec::new();
        v.push(PmChatAgent::PrimaryCli);
        v.push(PmChatAgent::CodexCli);
        v.push(PmChatAgent::GeminiCli);
        v.push(PmChatAgent::OpencodeCli);
        proof {
            assert(v@ =~= spec_all_agents());
        }
        v
    }

    /// The agent families whose executables resolved, in catalogue order.
    /// The probe results are supplied by the caller, one per family.
    pub fn available_agents(primary: bool, codex: bool, gemini: bool, opencode: bool) -> (r: Vec<
        PmChatAgent,
    >)
        ensures
            r@ == spec_available_agents(primary, codex, gemini, opencode),
    {
        let mut v: Vec<PmChatAgent> = Vec::new();
        if primary {
            v.push(PmChatAgent::PrimaryCli);
        }
        if codex {
            v.push(PmChatAgent::CodexCli);
        }
        if gemini {
            v.push(PmChatAgent::GeminiCli);
        }
        if opencode {
            v.push(PmChatAgent::OpencodeCli);
        }
        proof {
            assert(v@ =~= spec_available_agents(primary, codex, gemini, opencode));
        }
        v
    }
}

pub open spec fn spec_available_agents(primary: bool, codex: bool, gemini: bool, opencode: bool) -> Seq<
    PmChatAgent,
> {
    (if primary {
        seq![PmChatAgent::PrimaryCli]
    } else {
        Seq::<PmChatAgent>::empty()
    }) + (if codex {
        seq![PmChatAgent::CodexCli]
    } else {
        Seq::<PmChatAgent>::empty()
    }) + (if gemini {
        seq![PmChatAgent::GeminiCli]
    } else {
        Seq::<PmChatAgent>::empty()
    }) + (if opencode {
        seq![PmChatAgent::OpencodeCli]
    } else {
        Seq::<PmChatAgent>::empty()
    })
}

impl Default for PmChatAgent {
    /// The agent used when a request names none.
    fn default() -> (r: Self)
        ensures
            r == PmChatAgent::PrimaryCli,
    {
        PmChatAgent::PrimaryCli
    }
}

/// Parses a wire identifier back into an agent family; only the exact
/// identifier spelling is accepted.
pub fn parse_agent(s: &str) -> (r: Option<PmChatAgent>)
    ensures
        r == spec_parse_agent(s@),
{
    if str_eq(s, "PRIMARY_CLI") {
        Some(PmChatAgent::PrimaryCli)
    } else if str_eq(s, "CODEX_CLI") {
        Some(PmChatAgent::CodexCli)
    } else if str_eq(s, "GEMINI_CLI") {
        Some(PmChatAgent::GeminiCli)
    } else if str_eq(s, "OPENCODE_CLI") {
        Some(PmChatAgent::OpencodeCli)
    } else {
        None
    }
}

pub open spec fn spec_parse_agent(s: Seq<char>) -> Option<PmChatAgent> {
    if s == "PRIMARY_CLI"@ {
        Some(PmChatAgent::PrimaryCli)
    } else if s == "CODEX_CLI"@ {
        Some(PmChatAgent::CodexCli)
    } else if s == "GEMINI_CLI"@ {
        Some(PmChatAgent::GeminiCli)
    } else if s == "OPENCODE_CLI"@ {
        Some(PmChatAgent::OpencodeCli)
    } else {
        None
    }
}

/// The registry's immutable record of one agent family: its wire
/// identifier, executable name, display name, capability flag and config
/// dialect tag.
pub struct AgentDescriptor {
    pub identifier: String,
    pub executable: String,
    pub display_name: String,
    pub supports_streaming: bool,
    pub config_dialect: String,
}

/// The catalogue entry for one agent family.
pub fn descriptor(agent: PmChatAgent) -> (r: AgentDescriptor)
    ensures
        r.identifier@ == spec_identifier(agent),
        r.executable@ == spec_command_name(agent),
        r.display_name@ == spec_display_name(agent),
        r.supports_streaming == true,
        r.config_dialect@ == crate::config::spec_config_key(agent),
{
    AgentDescriptor {
        identifier: agent.identifier().to_owned(),
        executable: agent.command_name().to_owned(),
        display_name: agent.display_name().to_owned(),
        supports_streaming: agent.supports_streaming(),
        config_dialect: crate::config::config_key(agent).to_owned(),
    }
}

/// Information reported about one agent family.
pub struct PmChatAgentInfo {
    pub agent: PmChatAgent,
    pub display_name: String,
    pub available: bool,
    pub supports_streaming: bool,
}

/// The report listing every agent family with its availability.
pub struct AvailablePmChatAgentsResponse {
    pub agents: Vec<PmChatAgentInfo>,
}

/// Assembles the information record for one agent family from its probe
/// result.
pub fn agent_info(agent: PmChatAgent, available: bool) -> (r: PmChatAgentInfo)
    ensures
        r.agent == agent,
        r.display_name@ == spec_display_name(agent),
        r.available == available,
        r.supports_streaming == true,
{
    let name = agent.display_name();
    PmChatAgentInfo {
        agent,
        display_name: name.to_owned(),
        available,
        supports_streaming: agent.supports_streaming(),
    }
}

/// Assembles the availability report for all four families from their probe
/// results, in catalogue order.
pub fn available_agents_response(primary: bool, codex: bool, gemini: bool, opencode: bool) -> (r:
    AvailablePmChatAgentsResponse)
    ensures
        r.agents@.len() == 4,
        forall|i: int|
            0 <= i < 4 ==> (#[trigger] r.agents@[i]).agent == spec_all_agents()[i]
                && r.agents@[i].display_name@ == spec_display_name(spec_all_agents()[i])
                && r.agents@[i].supports_streaming == true,
        r.agents@[0].available == primary,
        r.agents@[1].available == codex,
        r.agents@[2].available == gemini,
        r.agents@[3].available == opencode,
{
    let mut agents: Vec<PmChatAgentInfo> = Vec::new();
    agents.push(agent_info(PmChatAgent::PrimaryCli, primary));
    agents.push(agent_info(PmChatAgent::CodexCli, codex));
    agents.push(agent_info(PmChatAgent::GeminiCli, gemini));
    agents.push(agent_info(PmChatAgent::OpencodeCli, opencode));
    AvailablePmChatAgentsResponse { agents }
}

} // verus!
