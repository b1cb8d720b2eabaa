//! Rendering of artifacts with the handlebars template engine.
//!
//! The engine is trusted, not verified: each call into it goes through one
//! small wrapper whose contract says what the engine is taken to do. What is
//! verified is what stands around it: that no template which includes
//! another one ever reaches the engine, under which name a template is
//! registered, and which artifact a failure of the engine is laid to.

use vstd::prelude::*;
use crate::emit::{template_name_text, Artifact};
use crate::partial_tag::{has_partial_tag, holds_partial_tag};

verus! {

/// The template registry of the engine.
#[verifier::external_type_specification]
#[verifier::external_body]
pub struct ExHandlebars<'reg>(handlebars::Handlebars<'reg>);

/// The data that a template is rendered with, in the engine's own form.
#[verifier::external_type_specification]
#[verifier::external_body]
pub struct ExContext(handlebars::Context);

/// The engine's report of a template that does not parse.
#[verifier::external_type_specification]
#[verifier::external_body]
pub struct ExTemplateError(handlebars::TemplateError);

/// The engine's report of a rendering that failed.
#[verifier::external_type_specification]
#[verifier::external_body]
pub struct ExRenderError(handlebars::RenderError);

/// The templates that a registry holds: for each registered name, the
/// source text that was registered under it last.
pub uninterp spec fn registered_templates(registry: handlebars::Handlebars<'static>) -> Map<
    Seq<char>,
    Seq<char>,
>;

/// Whether a registry escapes markup in the values that it substitutes.
pub uninterp spec fn registry_escapes(registry: handlebars::Handlebars<'static>) -> bool;

/// Whether a registry is strict: whether rendering fails on a value that
/// the data does not hold.
pub uninterp spec fn registry_strict(registry: handlebars::Handlebars<'static>) -> bool;

/// What the engine makes of the template registered under a name and the
/// data: the rendered text, or nothing where the rendering fails.
pub uninterp spec fn render_result(
    registry: handlebars::Handlebars<'static>,
    name: Seq<char>,
    data: handlebars::Context,
) -> Option<Seq<char>>;

/// No template at all.
pub open spec fn no_templates() -> Map<Seq<char>, Seq<char>> {
    Map::empty()
}

/// No source among the templates holds a partial tag: no template includes
/// another one.
pub open spec fn partial_free(templates: Map<Seq<char>, Seq<char>>) -> bool {
    forall|name: Seq<char>| #[trigger]
        templates.dom().contains(name) ==> !holds_partial_tag(templates[name])
}

/// `Handlebars::new`: a fresh registry holds no template, escapes markup
/// and is not strict.
#[verifier::external_body]
fn registry_new() -> (registry: handlebars::Handlebars<'static>)
    ensures
        registered_templates(registry) == no_templates(),
        registry_escapes(registry),
        !registry_strict(registry),
{
    handlebars::Handlebars::new()
}

/// `Handlebars::register_escape_fn` with `handlebars::no_escape`: values
/// are substituted as they are from now on. Nothing else changes.
#[verifier::external_body]
fn registry_disable_escaping(registry: &mut handlebars::Handlebars<'static>)
    ensures
        !registry_escapes(*final(registry)),
        registry_strict(*final(registry)) == registry_strict(*old(registry)),
        registered_templates(*final(registry)) == registered_templates(*old(registry)),
{
    registry.register_escape_fn(handlebars::no_escape)
}

/// `Handlebars::set_strict_mode`: switches strictness on or off. Nothing
/// else changes.
#[verifier::external_body]
fn registry_set_strict(registry: &mut handlebars::Handlebars<'static>, enabled: bool)
    ensures
        registry_strict(*final(registry)) == enabled,
        registry_escapes(*final(registry)) == registry_escapes(*old(registry)),
        registered_templates(*final(registry)) == registered_templates(*old(registry)),
{
    registry.set_strict_mode(enabled)
}

/// `Handlebars::register_template_string`: a source that parses is stored
/// under the name, replacing what the name held; one that does not parse
/// leaves the templates as they were. The settings stay either way.
#[verifier::external_body]
fn registry_register(registry: &mut handlebars::Handlebars<'static>, name: &str, source: &str) -> (res:
    Result<(), handlebars::TemplateError>)
    ensures
        res is Ok ==> registered_templates(*final(registry)) == registered_templates(
            *old(registry),
        ).insert(name@, source@),
        res is Err ==> registered_templates(*final(registry)) == registered_templates(
            *old(registry),
        ),
        registry_escapes(*final(registry)) == registry_escapes(*old(registry)),
        registry_strict(*final(registry)) == registry_strict(*old(registry)),
{
    registry.register_template_string(name, source)
}

/// `Handlebars::render_with_context`: renders the template registered
/// under the name with the data. The outcome depends on the registry, the
/// name and the data alone. The engine follows partial tags without a
/// bound on their depth, so no registered template may hold one.
#[verifier::external_body]
fn registry_render(
    registry: &handlebars::Handlebars<'static>,
    name: &str,
    data: &handlebars::Context,
) -> (res: Result<String, handlebars::RenderError>)
    requires
        partial_free(registered_templates(*registry)),
    ensures
        match res {
            Ok(text) => render_result(*registry, name@, *data) == Some(text@),
            Err(_) => render_result(*registry, name@, *data) is None,
        },
{
    registry.render_with_context(name, data)
}

/// Why an artifact could not be rendered.
#[derive(Debug)]
pub enum EmitError {
    /// The artifact's template includes another template.
    PartialTag { artifact: Artifact },
    /// The artifact's template does not parse.
    Template { artifact: Artifact, cause: handlebars::TemplateError },
    /// The template could not be rendered with the data, for instance
    /// because it refers to a field that the data lacks.
    Render { artifact: Artifact, failure: handlebars::RenderError },
}

impl EmitError {
    /// The artifact whose emission failed.
    pub open spec fn failed_artifact(self) -> Artifact {
        match self {
            EmitError::PartialTag { artifact } => artifact,
            EmitError::Template { artifact, .. } => artifact,
            EmitError::Render { artifact, .. } => artifact,
        }
    }

    /// The artifact whose emission failed.
    pub fn artifact(&self) -> (a: Artifact)
        ensures
            a == self.failed_artifact(),
    {
        match self {
            EmitError::PartialTag { artifact } => *artifact,
            EmitError::Template { artifact, .. } => *artifact,
            EmitError::Render { artifact, .. } => *artifact,
        }
    }
}

/// Reports the outcome of registering an artifact's template: a parse
/// failure becomes the artifact's template error.
pub fn registration_outcome(artifact: Artifact, outcome: Result<(), handlebars::TemplateError>) -> (res:
    Result<(), EmitError>)
    ensures
        match outcome {
            Ok(_) => res is Ok,
            Err(cause) => res == Err::<(), EmitError>(EmitError::Template { artifact, cause }),
        },
{
    match outcome {
        Ok(_) => Ok(()),
        Err(cause) => Err(EmitError::Template { artifact, cause }),
    }
}

/// Reports the outcome of rendering an artifact: the text as it is, a
/// failure as the artifact's render error.
pub fn render_outcome(artifact: Artifact, outcome: Result<String, handlebars::RenderError>) -> (res:
    Result<String, EmitError>)
    ensures
        match outcome {
            Ok(text) => res == Ok::<String, EmitError>(text),
            Err(failure) => res == Err::<String, EmitError>(
                EmitError::Render { artifact, failure },
            ),
        },
{
    match outcome {
        Ok(text) => Ok(text),
        Err(failure) => Err(EmitError::Render { artifact, failure }),
    }
}

/// A renderer for the artifacts of one project: a template registry that
/// substitutes values as they are, since the output is source code and not
/// markup, that refuses a template which reads a field that the data does
/// not hold, and that never holds a template which includes another one.
pub struct Renderer {
    registry: handlebars::Handlebars<'static>,
}

impl Renderer {
    /// No registered template includes another one.
    #[verifier::type_invariant]
    closed spec fn no_template_includes_another(self) -> bool {
        partial_free(registered_templates(self.registry))
    }

    /// The templates registered so far, by name.
    pub closed spec fn templates(&self) -> Map<Seq<char>, Seq<char>> {
        registered_templates(self.registry)
    }

    /// Whether substituted values are escaped as markup.
    pub closed spec fn escapes_markup(&self) -> bool {
        registry_escapes(self.registry)
    }

    /// Whether a field that the data lacks is an error.
    pub closed spec fn strict(&self) -> bool {
        registry_strict(self.registry)
    }

    /// What the engine makes of the template registered under a name and
    /// the data: the rendered text, or nothing where the rendering fails.
    pub closed spec fn rendering(&self, name: Seq<char>, data: handlebars::Context) -> Option<
        Seq<char>,
    > {
        render_result(self.registry, name, data)
    }

    /// A renderer without any template, which does not escape and is
    /// strict.
    pub fn new() -> (renderer: Self)
        ensures
            renderer.templates() == no_templates(),
            partial_free(renderer.templates()),
            !renderer.escapes_markup(),
            renderer.strict(),
    {
        let mut registry = registry_new();
        registry_disable_escaping(&mut registry);
        registry_set_strict(&mut registry, true);
        Renderer { registry }
    }

    /// One render pass: registers the artifact's template under the
    /// artifact's template name and renders it with the data. The renderer
    /// is handed back beside the outcome.
    ///
    /// A source that holds a partial tag is refused before it reaches the
    /// engine, and nothing changes. Otherwise a source that does not parse
    /// is a template error and leaves the registered templates as they
    /// were; one that parses is registered, and the result is what the
    /// engine makes of it and the data: its text, or a render error. Every
    /// failure names this artifact, and the renderer's settings stay.
    pub fn render_artifact(
        self,
        artifact: Artifact,
        source: &str,
        data: &handlebars::Context,
    ) -> (out: (Self, Result<String, EmitError>))
        ensures
            out.0.escapes_markup() == self.escapes_markup(),
            out.0.strict() == self.strict(),
            partial_free(self.templates()),
            partial_free(out.0.templates()),
            holds_partial_tag(source@) <==> out.1 matches Err(EmitError::PartialTag { .. }),
            match out.1 {
                Ok(text) => {
                    &&& out.0.templates() == self.templates().insert(
                        template_name_text(artifact),
                        source@,
                    )
                    &&& out.0.rendering(template_name_text(artifact), *data) == Some(text@)
                },
                Err(e) => {
                    &&& e.failed_artifact() == artifact
                    &&& e is PartialTag ==> out.0.templates() == self.templates()
                    &&& e is Template ==> out.0.templates() == self.templates()
                    &&& e is Render ==> out.0.templates() == self.templates().insert(
                        template_name_text(artifact),
                        source@,
                    ) && out.0.rendering(template_name_text(artifact), *data) is None
                },
            },
    {
        proof {
            use_type_invariant(&self);
        }
        if has_partial_tag(source) {
            return (self, Err(EmitError::PartialTag { artifact }));
        }
        let name = artifact.template_name();
        let mut registry = self.registry;
        let registered = registry_register(&mut registry, name, source);
        match registration_outcome(artifact, registered) {
            Ok(_) => {},
            Err(e) => {
                return (Renderer { registry }, Err(e));
            },
        }
        let rendered = registry_render(&registry, name, data);
        let res = render_outcome(artifact, rendered);
        (Renderer { registry }, res)
    }
}

} // verus!
