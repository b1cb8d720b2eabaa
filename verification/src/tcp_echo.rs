//! TCP echo server: configuration, canonical context and emission plan.

use vstd::prelude::*;
use crate::emit::{emission_plan, planned_steps, EmitStep, ServiceKind};
use crate::read_mode::{
    lines_fields, mode_accepted, resolve_outcome, resolved_fields, well_formed, ReadModeError,
    ReadModeFields, ReadModeTemplateCtx, YamlReadMode,
};
use crate::util::{clone_opt_string, opt_text, out_dir_choice, resolve_out_dir};

verus! {

/// Command-line parameters for generating a TCP echo server: either the
/// path of a configuration file, or the reduced set of direct parameters.
#[derive(Debug, Clone, PartialEq, Eq)]
pub struct EchoCmd {
    pub config: Option<String>,
    pub name: String,
    pub port: u16,
    pub tracing: bool,
    pub github_actions: bool,
    pub max_line_len: Option<usize>,
    pub out_dir: Option<String>,
}

/// Configuration of a TCP echo server as it is written in a file.
#[derive(Debug, Clone, PartialEq, Eq)]
pub struct TcpEchoYamlConfig {
    pub project_name: String,
    pub port: u16,
    pub tracing: bool,
    pub read_mode: YamlReadMode,
    pub out_dir: Option<String>,
    pub github_actions: bool,
}

/// Canonical context of a TCP echo server, as the templates read it.
#[derive(Debug, Clone, PartialEq, Eq)]
pub struct TcpEchoTemplateCtx {
    pub project_name: String,
    pub port: u16,
    pub tracing_enabled: bool,
    /// Everything related to the frame mode; flattened to the top level
    /// when the context is handed to a template.
    pub read_mode: ReadModeTemplateCtx,
    pub github_actions: bool,
}

/// What a `TcpEchoTemplateCtx` holds.
pub struct TcpEchoFields {
    pub project_name: Seq<char>,
    pub port: u16,
    pub tracing_enabled: bool,
    pub read_mode: ReadModeFields,
    pub github_actions: bool,
}

impl View for TcpEchoTemplateCtx {
    type V = TcpEchoFields;

    open spec fn view(&self) -> TcpEchoFields {
        TcpEchoFields {
            project_name: self.project_name@,
            port: self.port,
            tracing_enabled: self.tracing_enabled,
            read_mode: self.read_mode@,
            github_actions: self.github_actions,
        }
    }
}

/// The context that a file-based configuration stands for.
pub open spec fn echo_context(cfg: TcpEchoYamlConfig) -> TcpEchoFields
    recommends
        mode_accepted(cfg.read_mode),
{
    TcpEchoFields {
        project_name: cfg.project_name@,
        port: cfg.port,
        tracing_enabled: cfg.tracing,
        read_mode: resolved_fields(cfg.read_mode),
        github_actions: cfg.github_actions,
    }
}

/// The context that the direct parameters stand for: always lines mode.
pub open spec fn echo_context_from_cmd(cli: EchoCmd) -> TcpEchoFields {
    TcpEchoFields {
        project_name: cli.name@,
        port: cli.port,
        tracing_enabled: cli.tracing,
        read_mode: lines_fields(cli.max_line_len),
        github_actions: cli.github_actions,
    }
}

/// The destination of a generation: the command's override, then the
/// configuration's, then the project name.
pub open spec fn echo_destination(cmd: EchoCmd, cfg: Option<TcpEchoYamlConfig>) -> Seq<char> {
    match cfg {
        Some(c) => out_dir_choice(opt_text(cmd.out_dir), opt_text(c.out_dir), c.project_name@),
        None => out_dir_choice(opt_text(cmd.out_dir), None, cmd.name@),
    }
}

impl TcpEchoTemplateCtx {
    /// Builds the context from a file-based configuration. Fails exactly
    /// when the frame mode is rejected.
    pub fn from_config(cfg: TcpEchoYamlConfig) -> (res: Result<Self, ReadModeError>)
        ensures
            res is Ok <==> mode_accepted(cfg.read_mode),
            match res {
                Ok(ctx) => ctx@ == echo_context(cfg) && well_formed(ctx@.read_mode),
                Err(e) => resolve_outcome(cfg.read_mode) == Err::<ReadModeFields, ReadModeError>(e),
            },
    {
        match ReadModeTemplateCtx::resolve(cfg.read_mode) {
            Ok(read_mode) => Ok(
                TcpEchoTemplateCtx {
                    project_name: cfg.project_name,
                    port: cfg.port,
                    tracing_enabled: cfg.tracing,
                    read_mode,
                    github_actions: cfg.github_actions,
                },
            ),
            Err(e) => Err(e),
        }
    }

    /// Builds the context from the direct parameters of the command line,
    /// which reach lines mode only.
    pub fn from_cmd(cli: &EchoCmd) -> (ctx: Self)
        ensures
            ctx@ == echo_context_from_cmd(*cli),
            well_formed(ctx@.read_mode),
    {
        TcpEchoTemplateCtx {
            project_name: cli.name.clone(),
            port: cli.port,
            tracing_enabled: cli.tracing,
            read_mode: ReadModeTemplateCtx::lines(cli.max_line_len),
            github_actions: cli.github_actions,
        }
    }
}

/// Plans the emission of a TCP echo project: manifest and entry point, and
/// the CI workflow if the context asks for it. No container files.
pub fn plan_tcp_echo_project(ctx: &TcpEchoTemplateCtx) -> (plan: Vec<EmitStep>)
    ensures
        plan@ == planned_steps(ServiceKind::TcpEcho, false, false, ctx.github_actions),
{
    emission_plan(ServiceKind::TcpEcho, false, false, ctx.github_actions)
}

/// Derives what a run of the command generates: the context, from the
/// configuration if one was read and else from the direct parameters, and
/// the destination directory. Absent overrides are no error.
pub fn prepare(cmd: &EchoCmd, cfg: Option<TcpEchoYamlConfig>) -> (res: Result<
    (TcpEchoTemplateCtx, String),
    ReadModeError,
>)
    ensures
        res is Err <==> cfg is Some && !mode_accepted(cfg->0.read_mode),
        match res {
            Ok((ctx, out_dir)) => {
                &&& ctx@ == match cfg {
                    Some(c) => echo_context(c),
                    None => echo_context_from_cmd(*cmd),
                }
                &&& well_formed(ctx@.read_mode)
                &&& out_dir@ == echo_destination(*cmd, cfg)
            },
            Err(e) => resolve_outcome(cfg->0.read_mode) == Err::<ReadModeFields, ReadModeError>(e),
        },
{
    match cfg {
        Some(c) => {
            let cfg_out_dir = clone_opt_string(&c.out_dir);
            match TcpEchoTemplateCtx::from_config(c) {
                Ok(ctx) => {
                    let out_dir = resolve_out_dir(
                        clone_opt_string(&cmd.out_dir),
                        cfg_out_dir,
                        ctx.project_name.as_str(),
                    );
                    Ok((ctx, out_dir))
                },
                Err(e) => Err(e),
            }
        },
        None => {
            let ctx = TcpEchoTemplateCtx::from_cmd(cmd);
            let out_dir = resolve_out_dir(
                clone_opt_string(&cmd.out_dir),
                None,
                ctx.project_name.as_str(),
            );
            Ok((ctx, out_dir))
        },
    }
}

} // verus!
