//! HTTP service: configuration, canonical context and emission plan.

use vstd::prelude::*;
use crate::emit::{emission_plan, planned_steps, EmitStep, ServiceKind};
use crate::util::{clone_opt_string, opt_text, out_dir_choice, resolve_out_dir};

verus! {

/// Command-line parameters for generating an HTTP service.
#[derive(Debug, Clone, PartialEq, Eq)]
pub struct HttpAxumCmd {
    /// Path to the configuration file (required).
    pub config: String,
    /// Override of the output directory.
    pub out_dir: Option<String>,
}

/// HTTP method of a route.
#[derive(Debug, Clone, Copy, PartialEq, Eq)]
pub enum HttpMethod {
    GET,
    POST,
    PUT,
    DELETE,
}

/// Description of a single route in a configuration.
#[derive(Debug, Clone, PartialEq, Eq)]
pub struct HttpRouteYaml {
    pub path: String,
    pub method: HttpMethod,
    /// Name of the handler that will be generated.
    pub handler: String,
    /// Response text.
    pub response: String,
}

/// Database block of a configuration.
#[derive(Debug, Clone, PartialEq, Eq)]
pub struct DatabaseYamlConfig {
    /// Gate of the whole block: when false, nothing of it is used.
    pub enabled: bool,
    /// Database type; informational.
    pub kind: String,
    /// Name of the environment variable that holds the URL.
    pub url_env: String,
    /// Maximum number of connections in the pool.
    pub max_connections: Option<u32>,
}

/// Infrastructure block of a configuration: three independent gates.
#[derive(Debug, Clone, Copy, PartialEq, Eq)]
pub struct InfraYamlConfig {
    pub docker: bool,
    pub docker_compose: bool,
    pub github_actions: bool,
}

/// Configuration of an HTTP service as it is written in a file.
#[derive(Debug, Clone, PartialEq, Eq)]
pub struct HttpAxumYamlConfig {
    pub project_name: String,
    pub port: u16,
    pub tracing: bool,
    pub routes: Vec<HttpRouteYaml>,
    pub out_dir: Option<String>,
    pub database: Option<DatabaseYamlConfig>,
    pub infra: Option<InfraYamlConfig>,
}

/// A route as the templates read it.
#[derive(Debug, Clone, PartialEq, Eq)]
pub struct RouteTemplate {
    pub path: String,
    /// Name of the routing builder: get / post / put / delete.
    pub method_fn: String,
    /// Name of the handler in the handlers module.
    pub handler_name: String,
    /// Response text.
    pub response: String,
}

/// Canonical context of an HTTP service, as the templates read it.
#[derive(Debug, Clone, PartialEq, Eq)]
pub struct HttpAxumTemplateCtx {
    pub project_name: String,
    pub port: u16,
    pub tracing_enabled: bool,
    pub routes: Vec<RouteTemplate>,
    // ---- Database ----
    pub db_enabled: bool,
    pub db_url_env: Option<String>,
    pub db_max_connections: Option<u32>,
    // ---- Infra ----
    pub docker_enabled: bool,
    pub docker_compose_enabled: bool,
    pub github_actions_enabled: bool,
}

/// What a `RouteTemplate` holds.
pub struct RouteFields {
    pub path: Seq<char>,
    pub method_fn: Seq<char>,
    pub handler_name: Seq<char>,
    pub response: Seq<char>,
}

/// The database part of a context.
pub struct DatabaseFields {
    pub db_enabled: bool,
    pub db_url_env: Option<Seq<char>>,
    pub db_max_connections: Option<u32>,
}

/// The infrastructure part of a context.
pub struct InfraFields {
    pub docker_enabled: bool,
    pub docker_compose_enabled: bool,
    pub github_actions_enabled: bool,
}

/// What an `HttpAxumTemplateCtx` holds.
pub struct HttpAxumFields {
    pub project_name: Seq<char>,
    pub port: u16,
    pub tracing_enabled: bool,
    pub routes: Seq<RouteFields>,
    pub database: DatabaseFields,
    pub infra: InfraFields,
}

impl View for RouteTemplate {
    type V = RouteFields;

    open spec fn view(&self) -> RouteFields {
        RouteFields {
            path: self.path@,
            method_fn: self.method_fn@,
            handler_name: self.handler_name@,
            response: self.response@,
        }
    }
}

impl View for HttpAxumTemplateCtx {
    type V = HttpAxumFields;

    open spec fn view(&self) -> HttpAxumFields {
        HttpAxumFields {
            project_name: self.project_name@,
            port: self.port,
            tracing_enabled: self.tracing_enabled,
            routes: Seq::new(self.routes@.len(), |i: int| self.routes@[i]@),
            database: DatabaseFields {
                db_enabled: self.db_enabled,
                db_url_env: opt_text(self.db_url_env),
                db_max_connections: self.db_max_connections,
            },
            infra: InfraFields {
                docker_enabled: self.docker_enabled,
                docker_compose_enabled: self.docker_compose_enabled,
                github_actions_enabled: self.github_actions_enabled,
            },
        }
    }
}

/// The lowercase verb that selects the routing builder of a method.
pub open spec fn method_fn_text(method: HttpMethod) -> Seq<char> {
    match method {
        HttpMethod::GET => "get"@,
        HttpMethod::POST => "post"@,
        HttpMethod::PUT => "put"@,
        HttpMethod::DELETE => "delete"@,
    }
}

/// The template form of a configured route: path, handler and response
/// verbatim, the method as its verb.
pub open spec fn route_fields(route: HttpRouteYaml) -> RouteFields {
    RouteFields {
        path: route.path@,
        method_fn: method_fn_text(route.method),
        handler_name: route.handler@,
        response: route.response@,
    }
}

/// Nothing of a database: the projection of an absent or disabled block.
pub open spec fn no_database() -> DatabaseFields {
    DatabaseFields { db_enabled: false, db_url_env: None, db_max_connections: None }
}

/// Gate, then project: a database block reaches the context only if it is
/// present and enabled; its kind never does.
pub open spec fn database_fields(db: Option<DatabaseYamlConfig>) -> DatabaseFields {
    match db {
        Some(block) if block.enabled => DatabaseFields {
            db_enabled: true,
            db_url_env: Some(block.url_env@),
            db_max_connections: block.max_connections,
        },
        _ => no_database(),
    }
}

/// An absent infrastructure block means that every gate is off; a present
/// one has each gate copied on its own.
pub open spec fn infra_fields(infra: Option<InfraYamlConfig>) -> InfraFields {
    match infra {
        Some(block) => InfraFields {
            docker_enabled: block.docker,
            docker_compose_enabled: block.docker_compose,
            github_actions_enabled: block.github_actions,
        },
        None => InfraFields {
            docker_enabled: false,
            docker_compose_enabled: false,
            github_actions_enabled: false,
        },
    }
}

/// The context that a configuration stands for. Routes keep their order,
/// duplicates included.
pub open spec fn http_context(cfg: HttpAxumYamlConfig) -> HttpAxumFields {
    HttpAxumFields {
        project_name: cfg.project_name@,
        port: cfg.port,
        tracing_enabled: cfg.tracing,
        routes: Seq::new(cfg.routes@.len(), |i: int| route_fields(cfg.routes@[i])),
        database: database_fields(cfg.database),
        infra: infra_fields(cfg.infra),
    }
}

/// The destination of a generation: the command's override, then the
/// configuration's, then the project name.
pub open spec fn http_destination(cmd: HttpAxumCmd, cfg: HttpAxumYamlConfig) -> Seq<char> {
    out_dir_choice(opt_text(cmd.out_dir), opt_text(cfg.out_dir), cfg.project_name@)
}

/// The database type that a configuration has when it names none.
pub fn default_db_kind() -> (kind: String)
    ensures
        kind@ == "postgres"@,
{
    "postgres".to_owned()
}

impl HttpMethod {
    /// The lowercase verb that selects the routing builder.
    pub fn method_fn(&self) -> (verb: &'static str)
        ensures
            verb@ == method_fn_text(*self),
    {
        match self {
            HttpMethod::GET => "get",
            HttpMethod::POST => "post",
            HttpMethod::PUT => "put",
            HttpMethod::DELETE => "delete",
        }
    }
}

impl RouteTemplate {
    /// The template form of a configured route.
    pub fn from_route(route: &HttpRouteYaml) -> (out: Self)
        ensures
            out@ == route_fields(*route),
    {
        RouteTemplate {
            path: route.path.clone(),
            method_fn: route.method.method_fn().to_owned(),
            handler_name: route.handler.clone(),
            response: route.response.clone(),
        }
    }
}

impl HttpAxumTemplateCtx {
    /// Builds the context from a configuration: routes in order, the
    /// database block gated and projected, the infrastructure gates copied.
    pub fn from_config(cfg: HttpAxumYamlConfig) -> (ctx: Self)
        ensures
            ctx@ == http_context(cfg),
            ctx.routes@.len() == cfg.routes@.len(),
            forall|i: int|
                0 <= i < cfg.routes@.len() ==> (#[trigger] ctx.routes@[i])@ == route_fields(
                    cfg.routes@[i],
                ),
    {
        let mut routes: Vec<RouteTemplate> = Vec::new();
        let mut i: usize = 0;
        while i < cfg.routes.len()
            invariant
                i <= cfg.routes.len(),
                routes@.len() == i,
                forall|j: int| 0 <= j < i ==> (#[trigger] routes@[j])@ == route_fields(cfg.routes@[j]),
            decreases cfg.routes.len() - i,
        {
            routes.push(RouteTemplate::from_route(&cfg.routes[i]));
            i = i + 1;
        }
        let (db_enabled, db_url_env, db_max_connections) = match cfg.database {
            Some(db) => {
                if db.enabled {
                    (true, Some(db.url_env), db.max_connections)
                } else {
                    (false, None, None)
                }
            },
            None => (false, None, None),
        };
        let (docker_enabled, docker_compose_enabled, github_actions_enabled) = match cfg.infra {
            Some(infra) => (infra.docker, infra.docker_compose, infra.github_actions),
            None => (false, false, false),
        };
        let ctx = HttpAxumTemplateCtx {
            project_name: cfg.project_name,
            port: cfg.port,
            tracing_enabled: cfg.tracing,
            routes,
            db_enabled,
            db_url_env,
            db_max_connections,
            docker_enabled,
            docker_compose_enabled,
            github_actions_enabled,
        };
        assert(ctx@.routes =~= http_context(cfg).routes);
        ctx
    }
}

/// Plans the emission of an HTTP project: manifest, entry point and
/// handlers, then the container build file, the compose file and the CI
/// workflow, each if its own gate is set.
pub fn plan_http_axum_project(ctx: &HttpAxumTemplateCtx) -> (plan: Vec<EmitStep>)
    ensures
        plan@ == planned_steps(
            ServiceKind::HttpAxum,
            ctx.docker_enabled,
            ctx.docker_compose_enabled,
            ctx.github_actions_enabled,
        ),
{
    emission_plan(
        ServiceKind::HttpAxum,
        ctx.docker_enabled,
        ctx.docker_compose_enabled,
        ctx.github_actions_enabled,
    )
}

/// Derives what a run of the command generates: the context and the
/// destination directory.
pub fn prepare(cmd: &HttpAxumCmd, cfg: HttpAxumYamlConfig) -> (res: (HttpAxumTemplateCtx, String))
    ensures
        res.0@ == http_context(cfg),
        res.0.routes@.len() == cfg.routes@.len(),
        forall|i: int|
            0 <= i < cfg.routes@.len() ==> (#[trigger] res.0.routes@[i])@ == route_fields(
                cfg.routes@[i],
            ),
        res.1@ == http_destination(*cmd, cfg),
{
    let cfg_out_dir = clone_opt_string(&cfg.out_dir);
    let ctx = HttpAxumTemplateCtx::from_config(cfg);
    let out_dir = resolve_out_dir(
        clone_opt_string(&cmd.out_dir),
        cfg_out_dir,
        ctx.project_name.as_str(),
    );
    (ctx, out_dir)
}

/// A database block that is absent or not enabled leaves no trace,
/// whatever its other fields hold.
pub proof fn lemma_database_gate(db: Option<DatabaseYamlConfig>)
    requires
        db is None || !db->0.enabled,
    ensures
        database_fields(db) == no_database(),
        !database_fields(db).db_enabled,
        database_fields(db).db_url_env is None,
        database_fields(db).db_max_connections is None,
{
}

/// An enabled database block is projected field by field.
pub proof fn lemma_database_enabled(block: DatabaseYamlConfig)
    requires
        block.enabled,
    ensures
        database_fields(Some(block)).db_enabled,
        database_fields(Some(block)).db_url_env == Some(block.url_env@),
        database_fields(Some(block)).db_max_connections == block.max_connections,
{
}

/// The database part of a context is consistent: a URL variable or a
/// connection limit is present only when the database is enabled.
pub proof fn lemma_database_consistent(db: Option<DatabaseYamlConfig>)
    ensures
        database_fields(db).db_enabled <==> database_fields(db).db_url_env is Some,
        database_fields(db).db_max_connections is Some ==> database_fields(db).db_enabled,
{
}

/// The infrastructure gates are independent: each gate of the context
/// equals the same gate of the block, whatever the other two hold.
pub proof fn lemma_infra_independent(block: InfraYamlConfig)
    ensures
        infra_fields(Some(block)).docker_enabled == block.docker,
        infra_fields(Some(block)).docker_compose_enabled == block.docker_compose,
        infra_fields(Some(block)).github_actions_enabled == block.github_actions,
{
}

/// Without an infrastructure block every gate is off.
pub proof fn lemma_infra_absent()
    ensures
        !infra_fields(None).docker_enabled,
        !infra_fields(None).docker_compose_enabled,
        !infra_fields(None).github_actions_enabled,
{
}

} // verus!
