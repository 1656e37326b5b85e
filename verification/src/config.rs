use vstd::prelude::*;
use vstd::string::StringExecFns;
use crate::agent::PmChatAgent;
use crate::json::json_string;
use crate::json::spec_json_str;

verus! {

/// The comma-separated JSON string literals of an argument list.
pub open spec fn spec_args_json(args: Seq<Seq<char>>) -> Seq<char>
    decreases args.len(),
{
    if args.len() == 0 {
        Seq::<char>::empty()
    } else if args.len() == 1 {
        spec_json_str(args[0])
    } else {
        spec_args_json(args.drop_last()) + seq![','] + spec_json_str(args.last())
    }
}

/// The tool-bridge entry shared by every dialect: how to invoke the bridge
/// process and the backend URL handed to it.
pub open spec fn spec_bridge_json(command: Seq<char>, args: Seq<Seq<char>>, url: Seq<char>) -> Seq<
    char,
> {
    "{\"command\":"@ + spec_json_str(command) + ",\"args\":["@ + spec_args_json(args)
        + "],\"env\":{\"VIBE_BACKEND_URL\":"@ + spec_json_str(url) + "}}"@
}

/// The top-level key under which each agent family expects its tool-access
/// configuration.
pub open spec fn spec_config_key(a: PmChatAgent) -> Seq<char> {
    match a {
        PmChatAgent::PrimaryCli => "mcpServers"@,
        PmChatAgent::CodexCli => "mcp_servers"@,
        PmChatAgent::GeminiCli => "mcpServers"@,
        PmChatAgent::OpencodeCli => "mcp"@,
    }
}

/// The top-level key under which each agent family expects its tool-access
/// configuration.
pub fn config_key(agent: PmChatAgent) -> (r: &'static str)
    ensures
        r@ == spec_config_key(agent),
{
    match agent {
        PmChatAgent::PrimaryCli => "mcpServers",
        PmChatAgent::CodexCli => "mcp_servers",
        PmChatAgent::GeminiCli => "mcpServers",
        PmChatAgent::OpencodeCli => "mcp",
    }
}

/// The whole ephemeral config document for one agent family: the bridge
/// entry under the family's key, named `vibe_kanban`; one family also
/// carries its schema reference.
pub open spec fn spec_render_config(
    a: PmChatAgent,
    command: Seq<char>,
    args: Seq<Seq<char>>,
    url: Seq<char>,
) -> Seq<char> {
    match a {
        PmChatAgent::PrimaryCli => "{\"mcpServers\":{\"vibe_kanban\":"@ + spec_bridge_json(
            command,
            args,
            url,
        ) + "}}"@,
        PmChatAgent::CodexCli => "{\"mcp_servers\":{\"vibe_kanban\":"@ + spec_bridge_json(
            command,
            args,
            url,
        ) + "}}"@,
        PmChatAgent::GeminiCli => "{\"mcpServers\":{\"vibe_kanban\":"@ + spec_bridge_json(
            command,
            args,
            url,
        ) + "}}"@,
        PmChatAgent::OpencodeCli => "{\"mcp\":{\"vibe_kanban\":"@ + spec_bridge_json(
            command,
            args,
            url,
        ) + "},\"$schema\":\"https://opencode.ai/config.json\"}"@,
    }
}

fn args_json(args: &Vec<String>) -> (r: String)
    ensures
        r@ == spec_args_json(args.deep_view()),
{
    let mut out = String::new();
    let n = args.len();
    let mut i: usize = 0;
    while i < n
        invariant
            n == args@.len(),
            i <= n,
            out@ == spec_args_json(args.deep_view().subrange(0, i as int)),
        decreases n - i,
    {
        if i > 0 {
            out.append(",");
            proof {
                reveal_strlit(",");
            }
        }
        out.append(json_string(args[i].as_str()).as_str());
        i += 1;
        proof {
            let dv = args.deep_view();
            let pre = dv.subrange(0, i - 1);
            let cur = dv.subrange(0, i as int);
            assert(cur.drop_last() =~= pre);
            assert(cur.last() == dv[i - 1]);
            assert(dv[i - 1] == args@[i - 1]@);
            assert(out@ =~= spec_args_json(cur));
        }
    }
    proof {
        assert(args.deep_view().subrange(0, n as int) =~= args.deep_view());
    }
    out
}

/// Renders the ephemeral tool-access config document for one agent family.
pub fn render_config(agent: PmChatAgent, command: &str, args: &Vec<String>, backend_url: &str) -> (r:
    String)
    ensures
        r@ == spec_render_config(agent, command@, args.deep_view(), backend_url@),
{
    let mut out = match agent {
        PmChatAgent::PrimaryCli => "{\"mcpServers\":{\"vibe_kanban\":".to_owned(),
        PmChatAgent::CodexCli => "{\"mcp_servers\":{\"vibe_kanban\":".to_owned(),
        PmChatAgent::GeminiCli => "{\"mcpServers\":{\"vibe_kanban\":".to_owned(),
        PmChatAgent::OpencodeCli => "{\"mcp\":{\"vibe_kanban\":".to_owned(),
    };
    out.append("{\"command\":");
    out.append(json_string(command).as_str());
    out.append(",\"args\":[");
    out.append(args_json(args).as_str());
    out.append("],\"env\":{\"VIBE_BACKEND_URL\":");
    out.append(json_string(backend_url).as_str());
    out.append("}}");
    match agent {
        PmChatAgent::OpencodeCli => {
            out.append("},\"$schema\":\"https://opencode.ai/config.json\"}");
        },
        _ => {
            out.append("}}");
        },
    }
    proof {
        assert(out@ =~= spec_render_config(agent, command@, args.deep_view(), backend_url@));
    }
    out
}

/// How the tool bridge is invoked: the compiled bridge binary directly when
/// one is at hand, else the published package through `npx`.
pub fn bridge_invocation(binary_path: Option<String>) -> (r: (String, Vec<String>))
    ensures
        binary_path matches Some(p) ==> r.0 == p && r.1@.len() == 0,
        binary_path is None ==> r.0@ == "npx"@ && r.1.deep_view() =~~= seq![
            "-y"@,
            "vibe-kanban@latest"@,
            "--mcp"@,
        ],
{
    match binary_path {
        Some(p) => (p, Vec::new()),
        None => {
            let mut args: Vec<String> = Vec::new();
            args.push("-y".to_owned());
            args.push("vibe-kanban@latest".to_owned());
            args.push("--mcp".to_owned());
            proof {
                assert(args.deep_view() =~~= seq!["-y"@, "vibe-kanban@latest"@, "--mcp"@]);
            }
            ("npx".to_owned(), args)
        },
    }
}

/// The session-scoped file name under which the ephemeral config is written.
pub fn config_file_name(session_id: &str) -> (r: String)
    ensures
        r@ == "vibe-pm-mcp-"@ + session_id@ + ".json"@,
{
    let mut out = "vibe-pm-mcp-".to_owned();
    out.append(session_id);
    out.append(".json");
    out
}

/// The backend URL the tool bridge connects to, from the configured port.
pub fn backend_url(port: &str) -> (r: String)
    ensures
        r@ == "http://localhost:"@ + port@,
{
    let mut out = "http://localhost:".to_owned();
    out.append(port);
    out
}

} // verus!
