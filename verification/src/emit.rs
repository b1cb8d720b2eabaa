//! Emission planning: which artifacts a project is made of, where each one
//! goes, and in which order directories are created and files rendered.

use vstd::prelude::*;

verus! {

/// The kinds of service that can be generated.
#[derive(Debug, Clone, Copy, PartialEq, Eq)]
pub enum ServiceKind {
    TcpEcho,
    TcpWorker,
    HttpAxum,
}

/// One output file of a generated project.
#[derive(Debug, Clone, Copy, PartialEq, Eq)]
pub enum Artifact {
    Manifest,
    EntryPoint,
    Handlers,
    Dockerfile,
    DockerCompose,
    CiWorkflow,
}

/// A directory of the generated project, relative to its root.
#[derive(Debug, Clone, Copy, PartialEq, Eq)]
pub enum OutputDir {
    Root,
    Src,
    Workflows,
}

/// One step of an emission: create a directory (with its parents, and
/// without complaint if it exists), or render one artifact and write it.
#[derive(Debug, Clone, Copy, PartialEq, Eq)]
pub enum EmitStep {
    CreateDir(OutputDir),
    Render(Artifact),
}

/// The directory that an artifact is written into.
pub open spec fn artifact_dir(a: Artifact) -> OutputDir {
    match a {
        Artifact::Manifest => OutputDir::Root,
        Artifact::EntryPoint => OutputDir::Src,
        Artifact::Handlers => OutputDir::Src,
        Artifact::Dockerfile => OutputDir::Root,
        Artifact::DockerCompose => OutputDir::Root,
        Artifact::CiWorkflow => OutputDir::Workflows,
    }
}

/// The name under which an artifact's template is registered.
pub open spec fn template_name_text(a: Artifact) -> Seq<char> {
    match a {
        Artifact::Manifest => "cargo_toml"@,
        Artifact::EntryPoint => "main_rs"@,
        Artifact::Handlers => "handlers_rs"@,
        Artifact::Dockerfile => "dockerfile"@,
        Artifact::DockerCompose => "docker_compose"@,
        Artifact::CiWorkflow => "github_actions"@,
    }
}

/// The path of an artifact below the project root.
pub open spec fn relative_path_text(a: Artifact) -> Seq<char> {
    match a {
        Artifact::Manifest => "Cargo.toml"@,
        Artifact::EntryPoint => "src/main.rs"@,
        Artifact::Handlers => "src/handlers.rs"@,
        Artifact::Dockerfile => "Dockerfile"@,
        Artifact::DockerCompose => "docker-compose.yml"@,
        Artifact::CiWorkflow => ".github/workflows/ci.yml"@,
    }
}

/// The path of a directory below the project root; empty for the root.
pub open spec fn dir_path_text(d: OutputDir) -> Seq<char> {
    match d {
        OutputDir::Root => ""@,
        OutputDir::Src => "src"@,
        OutputDir::Workflows => ".github/workflows"@,
    }
}

/// Whether a kind of service can have an artifact at all. Handlers and the
/// container files exist for HTTP services only.
pub open spec fn available(kind: ServiceKind, a: Artifact) -> bool {
    match a {
        Artifact::Manifest | Artifact::EntryPoint | Artifact::CiWorkflow => true,
        Artifact::Handlers | Artifact::Dockerfile | Artifact::DockerCompose => kind
            is HttpAxum,
    }
}

/// Whether an artifact is emitted under the given gates.
pub open spec fn emitted(
    kind: ServiceKind,
    docker: bool,
    docker_compose: bool,
    github_actions: bool,
    a: Artifact,
) -> bool {
    available(kind, a) && match a {
        Artifact::Dockerfile => docker,
        Artifact::DockerCompose => docker_compose,
        Artifact::CiWorkflow => github_actions,
        _ => true,
    }
}

/// The steps that every project of a kind takes: the source directory, the
/// manifest, the entry point and, for HTTP, the handlers.
pub open spec fn base_steps(kind: ServiceKind) -> Seq<EmitStep> {
    let common = seq![
        EmitStep::CreateDir(OutputDir::Src),
        EmitStep::Render(Artifact::Manifest),
        EmitStep::Render(Artifact::EntryPoint),
    ];
    if kind is HttpAxum {
        common.push(EmitStep::Render(Artifact::Handlers))
    } else {
        common
    }
}

/// The container files, each behind its own gate, for HTTP only.
pub open spec fn container_steps(kind: ServiceKind, docker: bool, docker_compose: bool) -> Seq<
    EmitStep,
> {
    let build = if kind is HttpAxum && docker {
        seq![EmitStep::Render(Artifact::Dockerfile)]
    } else {
        Seq::empty()
    };
    if kind is HttpAxum && docker_compose {
        build.push(EmitStep::Render(Artifact::DockerCompose))
    } else {
        build
    }
}

/// The CI workflow with its directory, behind its gate, for every kind.
pub open spec fn ci_steps(github_actions: bool) -> Seq<EmitStep> {
    if github_actions {
        seq![EmitStep::CreateDir(OutputDir::Workflows), EmitStep::Render(Artifact::CiWorkflow)]
    } else {
        Seq::empty()
    }
}

/// The whole emission, in the order in which it is carried out.
pub open spec fn planned_steps(
    kind: ServiceKind,
    docker: bool,
    docker_compose: bool,
    github_actions: bool,
) -> Seq<EmitStep> {
    base_steps(kind) + container_steps(kind, docker, docker_compose) + ci_steps(github_actions)
}

impl OutputDir {
    /// The directory's path below the project root; empty for the root.
    pub fn relative_path(&self) -> (path: &'static str)
        ensures
            path@ == dir_path_text(*self),
    {
        match self {
            OutputDir::Root => "",
            OutputDir::Src => "src",
            OutputDir::Workflows => ".github/workflows",
        }
    }
}

impl Artifact {
    /// The directory that the artifact is written into.
    pub fn dir(&self) -> (d: OutputDir)
        ensures
            d == artifact_dir(*self),
    {
        match self {
            Artifact::Manifest => OutputDir::Root,
            Artifact::EntryPoint => OutputDir::Src,
            Artifact::Handlers => OutputDir::Src,
            Artifact::Dockerfile => OutputDir::Root,
            Artifact::DockerCompose => OutputDir::Root,
            Artifact::CiWorkflow => OutputDir::Workflows,
        }
    }

    /// The name under which the artifact's template is registered.
    pub fn template_name(&self) -> (name: &'static str)
        ensures
            name@ == template_name_text(*self),
    {
        match self {
            Artifact::Manifest => "cargo_toml",
            Artifact::EntryPoint => "main_rs",
            Artifact::Handlers => "handlers_rs",
            Artifact::Dockerfile => "dockerfile",
            Artifact::DockerCompose => "docker_compose",
            Artifact::CiWorkflow => "github_actions",
        }
    }

    /// The artifact's path below the project root.
    pub fn relative_path(&self) -> (path: &'static str)
        ensures
            path@ == relative_path_text(*self),
    {
        match self {
            Artifact::Manifest => "Cargo.toml",
            Artifact::EntryPoint => "src/main.rs",
            Artifact::Handlers => "src/handlers.rs",
            Artifact::Dockerfile => "Dockerfile",
            Artifact::DockerCompose => "docker-compose.yml",
            Artifact::CiWorkflow => ".github/workflows/ci.yml",
        }
    }

    /// Whether a service of the given kind can have this artifact.
    pub fn available_for(&self, kind: ServiceKind) -> (yes: bool)
        ensures
            yes == available(kind, *self),
    {
        match self {
            Artifact::Manifest | Artifact::EntryPoint | Artifact::CiWorkflow => true,
            Artifact::Handlers | Artifact::Dockerfile | Artifact::DockerCompose => match kind {
                ServiceKind::HttpAxum => true,
                _ => false,
            },
        }
    }
}

/// Plans the emission of one project: the always-emitted artifacts of its
/// kind, then each optional artifact whose gate is set. The container gates
/// count for HTTP services only.
pub fn emission_plan(
    kind: ServiceKind,
    docker: bool,
    docker_compose: bool,
    github_actions: bool,
) -> (plan: Vec<EmitStep>)
    ensures
        plan@ == planned_steps(kind, docker, docker_compose, github_actions),
{
    let is_http = match kind {
        ServiceKind::HttpAxum => true,
        _ => false,
    };
    let mut plan: Vec<EmitStep> = Vec::new();
    plan.push(EmitStep::CreateDir(OutputDir::Src));
    plan.push(EmitStep::Render(Artifact::Manifest));
    plan.push(EmitStep::Render(Artifact::EntryPoint));
    if is_http {
        plan.push(EmitStep::Render(Artifact::Handlers));
    }
    assert(plan@ =~= base_steps(kind));
    if is_http && docker {
        plan.push(EmitStep::Render(Artifact::Dockerfile));
    }
    if is_http && docker_compose {
        plan.push(EmitStep::Render(Artifact::DockerCompose));
    }
    assert(plan@ =~= base_steps(kind) + container_steps(kind, docker, docker_compose));
    if github_actions {
        plan.push(EmitStep::CreateDir(OutputDir::Workflows));
        plan.push(EmitStep::Render(Artifact::CiWorkflow));
    }
    assert(plan@ =~= planned_steps(kind, docker, docker_compose, github_actions));
    plan
}

/// The step to take next, if any: the first step not yet done, unless a
/// step has failed or all are done. A failure ends the emission at once;
/// what was written before it stays.
pub fn next_step(plan: &Vec<EmitStep>, done: usize, failed: bool) -> (next: Option<EmitStep>)
    ensures
        next == if failed || done >= plan@.len() {
            None::<EmitStep>
        } else {
            Some(plan@[done as int])
        },
{
    if failed || done >= plan.len() {
        None
    } else {
        Some(plan[done])
    }
}

/// Where a planned step comes from: the steps of every project first, then
/// the container steps, then the CI steps.
pub proof fn lemma_step_by_part(
    kind: ServiceKind,
    docker: bool,
    docker_compose: bool,
    github_actions: bool,
    i: int,
)
    requires
        0 <= i < planned_steps(kind, docker, docker_compose, github_actions).len(),
    ensures
        planned_steps(kind, docker, docker_compose, github_actions)[i] == if i < base_steps(
            kind,
        ).len() {
            base_steps(kind)[i]
        } else if i < base_steps(kind).len() + container_steps(kind, docker, docker_compose).len() {
            container_steps(kind, docker, docker_compose)[i - base_steps(kind).len()]
        } else {
            ci_steps(github_actions)[i - base_steps(kind).len() - container_steps(
                kind,
                docker,
                docker_compose,
            ).len()]
        },
{
}

/// An artifact is rendered exactly when its kind of service can have it and
/// its gate is set; the gates do not influence one another.
pub proof fn lemma_rendered_iff_emitted(
    kind: ServiceKind,
    docker: bool,
    docker_compose: bool,
    github_actions: bool,
    a: Artifact,
)
    ensures
        planned_steps(kind, docker, docker_compose, github_actions).contains(EmitStep::Render(a))
            <==> emitted(kind, docker, docker_compose, github_actions, a),
{
    let plan = planned_steps(kind, docker, docker_compose, github_actions);
    let base = base_steps(kind);
    let cont = container_steps(kind, docker, docker_compose);
    if emitted(kind, docker, docker_compose, github_actions, a) {
        let i: int = match a {
            Artifact::Manifest => 1,
            Artifact::EntryPoint => 2,
            Artifact::Handlers => 3,
            Artifact::Dockerfile => base.len() as int,
            Artifact::DockerCompose => base.len() + cont.len() - 1,
            Artifact::CiWorkflow => plan.len() - 1,
        };
        assert(0 <= i < plan.len());
        assert(plan[i] == EmitStep::Render(a));
    } else {
        assert forall|i: int| 0 <= i < plan.len() implies plan[i] != EmitStep::Render(a) by {
            lemma_step_by_part(kind, docker, docker_compose, github_actions, i);
        }
    }
}

/// A directory is created before anything is written into it: every
/// rendered artifact outside the project root is preceded by the creation
/// of its directory. (The root itself comes into being with the source
/// directory, which is the first step of every plan.)
pub proof fn lemma_dir_created_before_write(
    kind: ServiceKind,
    docker: bool,
    docker_compose: bool,
    github_actions: bool,
    i: int,
)
    requires
        0 <= i < planned_steps(kind, docker, docker_compose, github_actions).len(),
        planned_steps(kind, docker, docker_compose, github_actions)[i] is Render,
    ensures
        planned_steps(kind, docker, docker_compose, github_actions)[0] == EmitStep::CreateDir(
            OutputDir::Src,
        ),
        i > 0,
        artifact_dir(planned_steps(kind, docker, docker_compose, github_actions)[i]->Render_0)
            is Workflows ==> planned_steps(kind, docker, docker_compose, github_actions)[i - 1]
            == EmitStep::CreateDir(OutputDir::Workflows),
{
    lemma_step_by_part(kind, docker, docker_compose, github_actions, 0);
    lemma_step_by_part(kind, docker, docker_compose, github_actions, i);
    if i > 0 {
        lemma_step_by_part(kind, docker, docker_compose, github_actions, i - 1);
    }
}

/// The place of a step in the full sequence of steps.
pub open spec fn step_rank(s: EmitStep) -> int {
    match s {
        EmitStep::CreateDir(OutputDir::Src) => 0,
        EmitStep::Render(Artifact::Manifest) => 1,
        EmitStep::Render(Artifact::EntryPoint) => 2,
        EmitStep::Render(Artifact::Handlers) => 3,
        EmitStep::Render(Artifact::Dockerfile) => 4,
        EmitStep::Render(Artifact::DockerCompose) => 5,
        EmitStep::CreateDir(OutputDir::Workflows) => 6,
        EmitStep::Render(Artifact::CiWorkflow) => 7,
        EmitStep::CreateDir(OutputDir::Root) => 8,
    }
}

/// Each planned step comes before the next one in the full sequence too.
pub proof fn lemma_next_step_ranks_higher(
    kind: ServiceKind,
    docker: bool,
    docker_compose: bool,
    github_actions: bool,
    i: int,
)
    requires
        0 <= i,
        i + 1 < planned_steps(kind, docker, docker_compose, github_actions).len(),
    ensures
        step_rank(planned_steps(kind, docker, docker_compose, github_actions)[i]) < step_rank(
            planned_steps(kind, docker, docker_compose, github_actions)[i + 1],
        ),
{
    lemma_step_by_part(kind, docker, docker_compose, github_actions, i);
    lemma_step_by_part(kind, docker, docker_compose, github_actions, i + 1);
}

/// Every plan keeps the one fixed order of steps: whatever the gates, of
/// two planned steps the earlier one is the earlier one in the full
/// sequence.
pub proof fn lemma_fixed_order(
    kind: ServiceKind,
    docker: bool,
    docker_compose: bool,
    github_actions: bool,
    i: int,
    j: int,
)
    requires
        0 <= i < j < planned_steps(kind, docker, docker_compose, github_actions).len(),
    ensures
        step_rank(planned_steps(kind, docker, docker_compose, github_actions)[i]) < step_rank(
            planned_steps(kind, docker, docker_compose, github_actions)[j],
        ),
    decreases j - i,
{
    lemma_next_step_ranks_higher(kind, docker, docker_compose, github_actions, j - 1);
    if i < j - 1 {
        lemma_fixed_order(kind, docker, docker_compose, github_actions, i, j - 1);
    }
}

/// No step is planned twice.
pub proof fn lemma_no_step_twice(
    kind: ServiceKind,
    docker: bool,
    docker_compose: bool,
    github_actions: bool,
)
    ensures
        planned_steps(kind, docker, docker_compose, github_actions).no_duplicates(),
{
    let plan = planned_steps(kind, docker, docker_compose, github_actions);
    assert forall|i: int, j: int| 0 <= i < plan.len() && 0 <= j < plan.len() && i != j implies plan[i]
        != plan[j] by {
        if i < j {
            lemma_fixed_order(kind, docker, docker_compose, github_actions, i, j);
        } else {
            lemma_fixed_order(kind, docker, docker_compose, github_actions, j, i);
        }
    }
}

/// An artifact lies in its directory: the path of an artifact outside the
/// project root begins with the path of its directory and a slash, and
/// the path of one in the root holds no slash.
pub proof fn lemma_path_lies_in_dir(a: Artifact)
    ensures
        artifact_dir(a) is Root ==> !relative_path_text(a).contains('/'),
        !(artifact_dir(a) is Root) ==> dir_path_text(artifact_dir(a)).push('/').is_prefix_of(
            relative_path_text(a),
        ),
{
    reveal_strlit("Cargo.toml");
    reveal_strlit("src/main.rs");
    reveal_strlit("src/handlers.rs");
    reveal_strlit("Dockerfile");
    reveal_strlit("docker-compose.yml");
    reveal_strlit(".github/workflows/ci.yml");
    reveal_strlit("src");
    reveal_strlit(".github/workflows");
    let path = relative_path_text(a);
    if artifact_dir(a) is Root {
        assert forall|i: int| 0 <= i < path.len() implies path[i] != '/' by {}
    } else {
        let dir = dir_path_text(artifact_dir(a)).push('/');
        assert(dir =~= path.subrange(0, dir.len() as int));
    }
}

} // verus!
