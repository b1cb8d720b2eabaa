use netgen::http_axum::{
    self, default_db_kind, DatabaseYamlConfig, HttpAxumCmd, HttpAxumTemplateCtx,
    HttpAxumYamlConfig, HttpMethod, HttpRouteYaml, InfraYamlConfig, RouteTemplate,
};
use netgen::read_mode::{ReadModeError, ReadModeTemplateCtx, YamlReadMode};
use netgen::tcp_echo::{self, EchoCmd, TcpEchoTemplateCtx, TcpEchoYamlConfig};
use netgen::tcp_worker::{self, TcpWorkerTemplateCtx, TcpWorkerYamlConfig, WorkerCmd};

fn echo_config(read_mode: YamlReadMode) -> TcpEchoYamlConfig {
    TcpEchoYamlConfig {
        project_name: "echo".to_string(),
        port: 4000,
        tracing: true,
        read_mode,
        out_dir: None,
        github_actions: false,
    }
}

fn echo_cmd() -> EchoCmd {
    EchoCmd {
        config: None,
        name: "tcp-echo-server".to_string(),
        port: 4000,
        tracing: false,
        github_actions: false,
        max_line_len: None,
        out_dir: None,
    }
}

fn worker_config(read_mode: YamlReadMode) -> TcpWorkerYamlConfig {
    TcpWorkerYamlConfig {
        project_name: "pool".to_string(),
        port: 5001,
        tracing: false,
        workers: 4,
        event_buffer: 1024,
        read_mode,
        out_dir: None,
        github_actions: false,
    }
}

fn route(path: &str, method: HttpMethod, handler: &str, response: &str) -> HttpRouteYaml {
    HttpRouteYaml {
        path: path.to_string(),
        method,
        handler: handler.to_string(),
        response: response.to_string(),
    }
}

fn http_config() -> HttpAxumYamlConfig {
    HttpAxumYamlConfig {
        project_name: "web".to_string(),
        port: 3000,
        tracing: true,
        routes: vec![
            route("/", HttpMethod::GET, "root", "Hello from Axum!"),
            route("/health", HttpMethod::GET, "health", "OK"),
        ],
        out_dir: None,
        database: None,
        infra: None,
    }
}

#[test]
fn echo_context_from_config() {
    let cfg = TcpEchoYamlConfig {
        project_name: "echo".to_string(),
        port: 4000,
        tracing: true,
        read_mode: YamlReadMode::Lines { max_line_len: Some(8192) },
        out_dir: Some("elsewhere".to_string()),
        github_actions: true,
    };
    let ctx = TcpEchoTemplateCtx::from_config(cfg).unwrap();
    let expected = TcpEchoTemplateCtx {
        project_name: "echo".to_string(),
        port: 4000,
        tracing_enabled: true,
        read_mode: ReadModeTemplateCtx {
            is_lines: true,
            max_line_len: Some(8192),
            ..Default::default()
        },
        github_actions: true,
    };
    assert_eq!(ctx, expected);
}

#[test]
fn echo_context_rejects_bad_prefix_width() {
    let cfg = echo_config(YamlReadMode::LengthPrefixed {
        len_bytes: 3,
        big_endian: true,
        max_len: None,
    });
    assert_eq!(
        TcpEchoTemplateCtx::from_config(cfg),
        Err(ReadModeError::InvalidLenBytes { len_bytes: 3 })
    );
}

#[test]
fn echo_context_from_direct_parameters_is_lines_mode() {
    let mut cmd = echo_cmd();
    cmd.name = "direct".to_string();
    cmd.port = 4100;
    cmd.tracing = true;
    cmd.github_actions = true;
    cmd.max_line_len = Some(256);
    let ctx = TcpEchoTemplateCtx::from_cmd(&cmd);
    let expected = TcpEchoTemplateCtx {
        project_name: "direct".to_string(),
        port: 4100,
        tracing_enabled: true,
        read_mode: ReadModeTemplateCtx {
            is_lines: true,
            max_line_len: Some(256),
            ..Default::default()
        },
        github_actions: true,
    };
    assert_eq!(ctx, expected);
}

#[test]
fn echo_prepare_without_any_override_uses_the_name() {
    let cmd = echo_cmd();
    let (ctx, out_dir) = tcp_echo::prepare(&cmd, None).unwrap();
    assert_eq!(out_dir, "tcp-echo-server");
    assert_eq!(ctx, TcpEchoTemplateCtx::from_cmd(&cmd));
    assert!(ctx.read_mode.is_lines);
    assert_eq!(ctx.read_mode.max_line_len, None);
}

#[test]
fn echo_prepare_direct_parameters_with_override() {
    let mut cmd = echo_cmd();
    cmd.out_dir = Some("target-dir".to_string());
    let (_, out_dir) = tcp_echo::prepare(&cmd, None).unwrap();
    assert_eq!(out_dir, "target-dir");
}

#[test]
fn echo_prepare_from_config_follows_precedence() {
    let mut cfg = echo_config(YamlReadMode::FixedSize { frame_size: 1024 });
    let mut cmd = echo_cmd();
    let (ctx, out_dir) = tcp_echo::prepare(&cmd, Some(cfg.clone())).unwrap();
    assert_eq!(out_dir, "echo");
    assert_eq!(ctx, TcpEchoTemplateCtx::from_config(cfg.clone()).unwrap());

    cfg.out_dir = Some("from-config".to_string());
    let (_, out_dir) = tcp_echo::prepare(&cmd, Some(cfg.clone())).unwrap();
    assert_eq!(out_dir, "from-config");

    cmd.out_dir = Some("from-cli".to_string());
    let (_, out_dir) = tcp_echo::prepare(&cmd, Some(cfg)).unwrap();
    assert_eq!(out_dir, "from-cli");
}

#[test]
fn echo_prepare_fails_on_bad_prefix_width() {
    let cfg = echo_config(YamlReadMode::LengthPrefixed {
        len_bytes: 8,
        big_endian: false,
        max_len: Some(1),
    });
    let res = tcp_echo::prepare(&echo_cmd(), Some(cfg));
    assert_eq!(res, Err(ReadModeError::InvalidLenBytes { len_bytes: 8 }));
}

#[test]
fn worker_context_with_fixed_size_frames() {
    let mut cfg = worker_config(YamlReadMode::FixedSize { frame_size: 512 });
    cfg.tracing = true;
    cfg.github_actions = true;
    let ctx = TcpWorkerTemplateCtx::from_config(cfg).unwrap();
    assert_eq!(ctx.project_name, "pool");
    assert_eq!(ctx.port, 5001);
    assert!(ctx.tracing_enabled);
    assert!(ctx.github_actions);
    assert_eq!(ctx.workers, 4);
    assert_eq!(ctx.event_buffer, 1024);
    assert!(ctx.read_mode.is_fixed_size);
    assert_eq!(ctx.read_mode.frame_size, Some(512));
    assert!(!ctx.read_mode.is_lines);
    assert!(!ctx.read_mode.is_delimited);
    assert!(!ctx.read_mode.is_length_prefixed);
    assert_eq!(ctx.read_mode.max_line_len, None);
    assert_eq!(ctx.read_mode.delim_byte, None);
    assert_eq!(ctx.read_mode.delim_max_len, None);
    assert_eq!(ctx.read_mode.lp_len_bytes, None);
    assert_eq!(ctx.read_mode.lp_big_endian, None);
    assert_eq!(ctx.read_mode.lp_max_len, None);
    assert_eq!(ctx.read_mode.lp_parse_len_code, "");
}

#[test]
fn worker_context_rejects_bad_prefix_width() {
    let cfg = worker_config(YamlReadMode::LengthPrefixed {
        len_bytes: 0,
        big_endian: true,
        max_len: None,
    });
    assert_eq!(
        TcpWorkerTemplateCtx::from_config(cfg.clone()),
        Err(ReadModeError::InvalidLenBytes { len_bytes: 0 })
    );
    let cmd = WorkerCmd { config: "worker.yaml".to_string(), out_dir: None };
    assert_eq!(
        tcp_worker::prepare(&cmd, cfg),
        Err(ReadModeError::InvalidLenBytes { len_bytes: 0 })
    );
}

#[test]
fn worker_prepare_follows_precedence() {
    let mut cfg = worker_config(YamlReadMode::Lines { max_line_len: None });
    let mut cmd = WorkerCmd { config: "worker.yaml".to_string(), out_dir: None };
    let (ctx, out_dir) = tcp_worker::prepare(&cmd, cfg.clone()).unwrap();
    assert_eq!(out_dir, "pool");
    assert_eq!(ctx, TcpWorkerTemplateCtx::from_config(cfg.clone()).unwrap());
    cfg.out_dir = Some("b".to_string());
    assert_eq!(tcp_worker::prepare(&cmd, cfg.clone()).unwrap().1, "b");
    cmd.out_dir = Some("a".to_string());
    assert_eq!(tcp_worker::prepare(&cmd, cfg).unwrap().1, "a");
}

#[test]
fn methods_map_to_lowercase_verbs() {
    assert_eq!(HttpMethod::GET.method_fn(), "get");
    assert_eq!(HttpMethod::POST.method_fn(), "post");
    assert_eq!(HttpMethod::PUT.method_fn(), "put");
    assert_eq!(HttpMethod::DELETE.method_fn(), "delete");
}

#[test]
fn route_is_projected_verbatim() {
    let r = route("/api/users", HttpMethod::POST, "create_user", "User created");
    let expected = RouteTemplate {
        path: "/api/users".to_string(),
        method_fn: "post".to_string(),
        handler_name: "create_user".to_string(),
        response: "User created".to_string(),
    };
    assert_eq!(RouteTemplate::from_route(&r), expected);
}

#[test]
fn http_context_keeps_routes_in_order_with_duplicates() {
    let mut cfg = http_config();
    cfg.routes = vec![
        route("/resource", HttpMethod::GET, "get_resource", "GET response"),
        route("/resource", HttpMethod::POST, "create_resource", "POST response"),
        route("/resource", HttpMethod::PUT, "update_resource", "PUT response"),
        route("/resource", HttpMethod::DELETE, "delete_resource", "DELETE response"),
        route("/resource", HttpMethod::GET, "get_resource", "GET response"),
    ];
    let ctx = HttpAxumTemplateCtx::from_config(cfg);
    let verbs: Vec<&str> = ctx.routes.iter().map(|r| r.method_fn.as_str()).collect();
    assert_eq!(verbs, vec!["get", "post", "put", "delete", "get"]);
    let handlers: Vec<&str> = ctx.routes.iter().map(|r| r.handler_name.as_str()).collect();
    assert_eq!(
        handlers,
        vec!["get_resource", "create_resource", "update_resource", "delete_resource", "get_resource"]
    );
    assert!(ctx.routes.iter().all(|r| r.path == "/resource"));
    assert_eq!(ctx.routes[2].response, "PUT response");
}

#[test]
fn http_context_without_routes() {
    let mut cfg = http_config();
    cfg.routes = Vec::new();
    let ctx = HttpAxumTemplateCtx::from_config(cfg);
    assert!(ctx.routes.is_empty());
    assert_eq!(ctx.project_name, "web");
    assert_eq!(ctx.port, 3000);
    assert!(ctx.tracing_enabled);
}

#[test]
fn absent_database_is_cleared() {
    let ctx = HttpAxumTemplateCtx::from_config(http_config());
    assert!(!ctx.db_enabled);
    assert_eq!(ctx.db_url_env, None);
    assert_eq!(ctx.db_max_connections, None);
}

#[test]
fn disabled_database_is_cleared_whatever_it_holds() {
    let mut cfg = http_config();
    cfg.database = Some(DatabaseYamlConfig {
        enabled: false,
        kind: "mysql".to_string(),
        url_env: "DATABASE_URL".to_string(),
        max_connections: Some(10),
    });
    let ctx = HttpAxumTemplateCtx::from_config(cfg);
    assert!(!ctx.db_enabled);
    assert_eq!(ctx.db_url_env, None);
    assert_eq!(ctx.db_max_connections, None);
}

#[test]
fn enabled_database_is_projected() {
    let mut cfg = http_config();
    cfg.database = Some(DatabaseYamlConfig {
        enabled: true,
        kind: default_db_kind(),
        url_env: "DATABASE_URL".to_string(),
        max_connections: Some(10),
    });
    let ctx = HttpAxumTemplateCtx::from_config(cfg.clone());
    assert!(ctx.db_enabled);
    assert_eq!(ctx.db_url_env, Some("DATABASE_URL".to_string()));
    assert_eq!(ctx.db_max_connections, Some(10));

    cfg.database.as_mut().unwrap().max_connections = None;
    let ctx = HttpAxumTemplateCtx::from_config(cfg);
    assert!(ctx.db_enabled);
    assert_eq!(ctx.db_max_connections, None);
}

#[test]
fn default_database_kind_is_postgres() {
    assert_eq!(default_db_kind(), "postgres");
}

#[test]
fn absent_infra_means_all_gates_off() {
    let ctx = HttpAxumTemplateCtx::from_config(http_config());
    assert!(!ctx.docker_enabled);
    assert!(!ctx.docker_compose_enabled);
    assert!(!ctx.github_actions_enabled);
}

#[test]
fn compose_alone_sets_nothing_else() {
    let mut cfg = http_config();
    cfg.infra = Some(InfraYamlConfig { docker: false, docker_compose: true, github_actions: false });
    let ctx = HttpAxumTemplateCtx::from_config(cfg);
    assert!(!ctx.docker_enabled);
    assert!(ctx.docker_compose_enabled);
    assert!(!ctx.github_actions_enabled);
}

#[test]
fn infra_gates_are_copied_one_by_one() {
    for docker in [false, true] {
        for docker_compose in [false, true] {
            for github_actions in [false, true] {
                let mut cfg = http_config();
                cfg.infra = Some(InfraYamlConfig { docker, docker_compose, github_actions });
                let ctx = HttpAxumTemplateCtx::from_config(cfg);
                assert_eq!(ctx.docker_enabled, docker);
                assert_eq!(ctx.docker_compose_enabled, docker_compose);
                assert_eq!(ctx.github_actions_enabled, github_actions);
            }
        }
    }
}

#[test]
fn http_prepare_follows_precedence() {
    let mut cfg = http_config();
    let mut cmd = HttpAxumCmd { config: "web.yaml".to_string(), out_dir: None };
    let (ctx, out_dir) = http_axum::prepare(&cmd, cfg.clone());
    assert_eq!(out_dir, "web");
    assert_eq!(ctx, HttpAxumTemplateCtx::from_config(cfg.clone()));
    cfg.out_dir = Some("b".to_string());
    assert_eq!(http_axum::prepare(&cmd, cfg.clone()).1, "b");
    cmd.out_dir = Some("a".to_string());
    assert_eq!(http_axum::prepare(&cmd, cfg).1, "a");
}
