use vstd::prelude::*;
use vstd::string::StringExecFns;
use crate::agent::PmChatAgent;
use crate::text::str_eq;

verus! {

/// The single positional prompt handed to the families that take no
/// dedicated system-prompt flag: system prompt, a blank line, the user
/// message.
pub open spec fn spec_joined_prompt(system_prompt: Seq<char>, user_content: Seq<char>) -> Seq<
    char,
> {
    system_prompt + "\n\n"@ + user_content
}

/// Concatenates system prompt and user message into one positional
/// argument, separated by a blank line.
pub fn joined_prompt(system_prompt: &str, user_content: &str) -> (r: String)
    ensures
        r@ == spec_joined_prompt(system_prompt@, user_content@),
{
    let mut out = system_prompt.to_owned();
    out.append("\n\n");
    out.append(user_content);
    out
}

/// Whether a model name earns a `--model` flag: it must be non-empty and
/// not the sentinel `default`; an absent model is omitted entirely, never
/// passed empty.
pub open spec fn spec_model_named(model: Seq<char>) -> bool {
    model.len() > 0 && model != "default"@
}

/// The optional `--model` pair for the families whose model flag is
/// conditional.
pub open spec fn spec_model_args(model: Seq<char>) -> Seq<Seq<char>> {
    if spec_model_named(model) {
        seq!["--model"@, model]
    } else {
        Seq::<Seq<char>>::empty()
    }
}

/// The exact argument vector for one agent family. Families differ
/// materially: one takes a dedicated system-prompt flag plus a trailing
/// positional user message; the others concatenate both into one
/// positional argument; two pass `--model` only for a named model; the
/// `npx` fallback prefixes the published package selection.
pub open spec fn spec_argv(
    agent: PmChatAgent,
    model: Seq<char>,
    system_prompt: Seq<char>,
    user_content: Seq<char>,
    config_path: Seq<char>,
    npx_fallback: bool,
) -> Seq<Seq<char>> {
    let prefix = if npx_fallback {
        seq!["-y"@, "primary-cli@latest"@]
    } else {
        Seq::<Seq<char>>::empty()
    };
    match agent {
        PmChatAgent::PrimaryCli => prefix + seq![
            "--print"@,
            "--verbose"@,
            "--output-format"@,
            "stream-json"@,
            "--no-session-persistence"@,
            "--dangerously-skip-permissions"@,
            "--mcp-config"@,
            config_path,
            "--model"@,
            model,
            "--system-prompt"@,
            system_prompt,
            user_content,
        ],
        PmChatAgent::CodexCli => prefix + seq!["exec"@, "--json"@, "--full-auto"@]
            + spec_model_args(model) + seq![spec_joined_prompt(system_prompt, user_content)],
        PmChatAgent::GeminiCli => prefix + seq!["--output-format"@, "stream-json"@, "--yolo"@]
            + spec_model_args(model) + seq![spec_joined_prompt(system_prompt, user_content)],
        PmChatAgent::OpencodeCli => prefix + seq![
            "run"@,
            "--format"@,
            "json"@,
            "--model"@,
            model,
            spec_joined_prompt(system_prompt, user_content),
        ],
    }
}

/// Builds the per-family argument vector, reproducing each family's calling
/// convention exactly.
pub fn build_argv(
    agent: PmChatAgent,
    model: &str,
    system_prompt: &str,
    user_content: &str,
    config_path: &str,
    use_npx_fallback: bool,
) -> (r: Vec<String>)
    ensures
        r.deep_view() == spec_argv(
            agent,
            model@,
            system_prompt@,
            user_content@,
            config_path@,
            use_npx_fallback,
        ),
{
    let mut argv: Vec<String> = Vec::new();
    if use_npx_fallback {
        argv.push("-y".to_owned());
        argv.push("primary-cli@latest".to_owned());
    }
    match agent {
        PmChatAgent::PrimaryCli => {
            argv.push("--print".to_owned());
            argv.push("--verbose".to_owned());
            argv.push("--output-format".to_owned());
            argv.push("stream-json".to_owned());
            argv.push("--no-session-persistence".to_owned());
            argv.push("--dangerously-skip-permissions".to_owned());
            argv.push("--mcp-config".to_owned());
            argv.push(config_path.to_owned());
            argv.push("--model".to_owned());
            argv.push(model.to_owned());
            argv.push("--system-prompt".to_owned());
            argv.push(system_prompt.to_owned());
            argv.push(user_content.to_owned());
        },
        PmChatAgent::CodexCli => {
            argv.push("exec".to_owned());
            argv.push("--json".to_owned());
            argv.push("--full-auto".to_owned());
            if !model.is_empty() && !str_eq(model, "default") {
                argv.push("--model".to_owned());
                argv.push(model.to_owned());
            }
            argv.push(joined_prompt(system_prompt, user_content));
        },
        PmChatAgent::GeminiCli => {
            argv.push("--output-format".to_owned());
            argv.push("stream-json".to_owned());
            argv.push("--yolo".to_owned());
            if !model.is_empty() && !str_eq(model, "default") {
                argv.push("--model".to_owned());
                argv.push(model.to_owned());
            }
            argv.push(joined_prompt(system_prompt, user_content));
        },
        PmChatAgent::OpencodeCli => {
            argv.push("run".to_owned());
            argv.push("--format".to_owned());
            argv.push("json".to_owned());
            argv.push("--model".to_owned());
            argv.push(model.to_owned());
            argv.push(joined_prompt(system_prompt, user_content));
        },
    }
    proof {
        assert(argv.deep_view() =~~= spec_argv(
            agent,
            model@,
            system_prompt@,
            user_content@,
            config_path@,
            use_npx_fallback,
        ));
    }
    argv
}

/// How a session's process will be launched, after executable resolution.
pub enum LaunchPlan {
    Direct(String),
    NpxFallback(String),
    NotAvailable,
}

/// Decides how to launch the agent from the resolved executable paths: the
/// agent's own executable when it resolved; only the first family may fall
/// back to a resolved `npx`; otherwise the agent is not available.
pub fn resolve_launch(agent: PmChatAgent, cli_path: Option<String>, npx_path: Option<String>) -> (r:
    LaunchPlan)
    ensures
        cli_path matches Some(p) ==> (r matches LaunchPlan::Direct(q) && q == p),
        cli_path is None && agent is PrimaryCli ==> (npx_path matches Some(p) ==> (r matches LaunchPlan::NpxFallback(
            q,
        ) && q == p)),
        cli_path is None && !(agent is PrimaryCli && npx_path is Some) ==> r is NotAvailable,
{
    match cli_path {
        Some(p) => LaunchPlan::Direct(p),
        None => {
            if let PmChatAgent::PrimaryCli = agent {
                match npx_path {
                    Some(np) => LaunchPlan::NpxFallback(np),
                    None => LaunchPlan::NotAvailable,
                }
            } else {
                LaunchPlan::NotAvailable
            }
        },
    }
}

} // verus!
