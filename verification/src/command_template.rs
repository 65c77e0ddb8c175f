//! Rendering the `ai.command` template, done by `minijinja`.

use vstd::prelude::*;

verus! {

/// Why a template could not be rendered.
#[derive(Debug, Clone, PartialEq, Eq)]
pub enum TemplateError {
    /// The template does not compile; minijinja's message.
    Invalid(String),
    /// Rendering failed (an undefined variable, say); minijinja's message.
    Render(String),
}

/// The characters of a rendering outcome: the text, or whether the template
/// was invalid with the message.
pub open spec fn render_view(r: Result<String, TemplateError>) -> Result<Seq<char>, (bool, Seq<char>)> {
    match r {
        Ok(s) => Ok(s@),
        Err(TemplateError::Invalid(m)) => Err((true, m@)),
        Err(TemplateError::Render(m)) => Err((false, m@)),
    }
}

/// What rendering `template` with strict undefined behaviour and the
/// variables `system`, `input` and `input_file` gives.
pub uninterp spec fn rendered_template(
    template: Seq<char>,
    system: Seq<char>,
    input: Seq<char>,
    input_file: Seq<char>,
) -> Result<Seq<char>, (bool, Seq<char>)>;

/// `minijinja::Environment` with `UndefinedBehavior::Strict`,
/// `add_template`, `get_template` and `Template::render`. The contract ties
/// the outcome to its four arguments through `rendered_template`.
#[verifier::external_body]
pub(crate) fn render_command_template(
    template: &str,
    system: &str,
    input: &str,
    input_file: &str,
) -> (r: Result<String, TemplateError>)
    ensures
        render_view(r) == rendered_template(template@, system@, input@, input_file@),
{
    let mut env = minijinja::Environment::new();
    env.set_undefined_behavior(minijinja::UndefinedBehavior::Strict);
    env.add_template("cmd", template).map_err(|e| TemplateError::Invalid(e.to_string()))?;
    let vars = std::collections::BTreeMap::from([
        ("system", system),
        ("input", input),
        ("input_file", input_file),
    ]);
    let compiled = env.get_template("cmd").map_err(|e| TemplateError::Invalid(e.to_string()))?;
    compiled.render(vars).map_err(|e| TemplateError::Render(e.to_string()))
}

} // verus!
