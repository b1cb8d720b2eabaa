//! TCP worker-pool server: configuration, canonical context and emission
//! plan.

use vstd::prelude::*;
use crate::emit::{emission_plan, planned_steps, EmitStep, ServiceKind};
use crate::read_mode::{
    mode_accepted, resolve_outcome, resolved_fields, well_formed, ReadModeError, ReadModeFields,
    ReadModeTemplateCtx, YamlReadMode,
};
use crate::util::{clone_opt_string, opt_text, out_dir_choice, resolve_out_dir};

verus! {

/// Command-line parameters for generating a TCP worker-pool server.
#[derive(Debug, Clone, PartialEq, Eq)]
pub struct WorkerCmd {
    pub config: String,
    pub out_dir: Option<String>,
}

/// Configuration of a TCP worker-pool server as it is written in a file.
#[derive(Debug, Clone, PartialEq, Eq)]
pub struct TcpWorkerYamlConfig {
    pub project_name: String,
    pub port: u16,
    pub tracing: bool,
    pub workers: usize,
    pub event_buffer: usize,
    pub read_mode: YamlReadMode,
    pub out_dir: Option<String>,
    pub github_actions: bool,
}

/// Canonical context of a TCP worker-pool server, as the templates read it.
#[derive(Debug, Clone, PartialEq, Eq)]
pub struct TcpWorkerTemplateCtx {
    pub project_name: String,
    pub port: u16,
    pub tracing_enabled: bool,
    pub workers: usize,
    pub event_buffer: usize,
    /// Everything related to the frame mode; flattened to the top level
    /// when the context is handed to a template.
    pub read_mode: ReadModeTemplateCtx,
    pub github_actions: bool,
}

/// What a `TcpWorkerTemplateCtx` holds.
pub struct TcpWorkerFields {
    pub project_name: Seq<char>,
    pub port: u16,
    pub tracing_enabled: bool,
    pub workers: usize,
    pub event_buffer: usize,
    pub read_mode: ReadModeFields,
    pub github_actions: bool,
}

impl View for TcpWorkerTemplateCtx {
    type V = TcpWorkerFields;

    open spec fn view(&self) -> TcpWorkerFields {
        TcpWorkerFields {
            project_name: self.project_name@,
            port: self.port,
            tracing_enabled: self.tracing_enabled,
            workers: self.workers,
            event_buffer: self.event_buffer,
            read_mode: self.read_mode@,
            github_actions: self.github_actions,
        }
    }
}

/// The context that a configuration stands for.
pub open spec fn worker_context(cfg: TcpWorkerYamlConfig) -> TcpWorkerFields
    recommends
        mode_accepted(cfg.read_mode),
{
    TcpWorkerFields {
        project_name: cfg.project_name@,
        port: cfg.port,
        tracing_enabled: cfg.tracing,
        workers: cfg.workers,
        event_buffer: cfg.event_buffer,
        read_mode: resolved_fields(cfg.read_mode),
        github_actions: cfg.github_actions,
    }
}

/// The destination of a generation: the command's override, then the
/// configuration's, then the project name.
pub open spec fn worker_destination(cmd: WorkerCmd, cfg: TcpWorkerYamlConfig) -> Seq<char> {
    out_dir_choice(opt_text(cmd.out_dir), opt_text(cfg.out_dir), cfg.project_name@)
}

impl TcpWorkerTemplateCtx {
    /// Builds the context from a configuration. Fails exactly when the
    /// frame mode is rejected.
    pub fn from_config(cfg: TcpWorkerYamlConfig) -> (res: Result<Self, ReadModeError>)
        ensures
            res is Ok <==> mode_accepted(cfg.read_mode),
            match res {
                Ok(ctx) => ctx@ == worker_context(cfg) && well_formed(ctx@.read_mode),
                Err(e) => resolve_outcome(cfg.read_mode) == Err::<ReadModeFields, ReadModeError>(e),
            },
    {
        match ReadModeTemplateCtx::resolve(cfg.read_mode) {
            Ok(read_mode) => Ok(
                TcpWorkerTemplateCtx {
                    project_name: cfg.project_name,
                    port: cfg.port,
                    tracing_enabled: cfg.tracing,
                    workers: cfg.workers,
                    event_buffer: cfg.event_buffer,
                    read_mode,
                    github_actions: cfg.github_actions,
                },
            ),
            Err(e) => Err(e),
        }
    }
}

/// Plans the emission of a TCP worker-pool project: manifest and entry
/// point, and the CI workflow if the context asks for it. No container
/// files.
pub fn plan_tcp_worker_project(ctx: &TcpWorkerTemplateCtx) -> (plan: Vec<EmitStep>)
    ensures
        plan@ == planned_steps(ServiceKind::TcpWorker, false, false, ctx.github_actions),
{
    emission_plan(ServiceKind::TcpWorker, false, false, ctx.github_actions)
}

/// Derives what a run of the command generates: the context and the
/// destination directory.
pub fn prepare(cmd: &WorkerCmd, cfg: TcpWorkerYamlConfig) -> (res: Result<
    (TcpWorkerTemplateCtx, String),
    ReadModeError,
>)
    ensures
        res is Ok <==> mode_accepted(cfg.read_mode),
        match res {
            Ok((ctx, out_dir)) => {
                &&& ctx@ == worker_context(cfg)
                &&& well_formed(ctx@.read_mode)
                &&& out_dir@ == worker_destination(*cmd, cfg)
            },
            Err(e) => resolve_outcome(cfg.read_mode) == Err::<ReadModeFields, ReadModeError>(e),
        },
{
    let cfg_out_dir = clone_opt_string(&cfg.out_dir);
    match TcpWorkerTemplateCtx::from_config(cfg) {
        Ok(ctx) => {
            let out_dir = resolve_out_dir(
                clone_opt_string(&cmd.out_dir),
                cfg_out_dir,
                ctx.project_name.as_str(),
            );
            Ok((ctx, out_dir))
        },
        Err(e) => Err(e),
    }
}

} // verus!
