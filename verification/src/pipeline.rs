//! The order in which a rendering comes about.
//!
//! Looking into the grammar cache, cloning a repository, generating and
//! compiling a parser and loading a grammar are the caller's work. What is
//! decided here is which of these is due next. A [`Run`] is stepped with the
//! [`Event`] that answers the last [`Action`], and says what to do then:
//! [`generate_parser`] fills the cache, [`render_html`] renders, filling the
//! cache on the way where the compiled grammar is missing.
use vstd::prelude::*;
use vstd::string::StringExecFns;

use crate::cache::{
    artifact_file, artifact_of, artifact_path, artifact_path_text, clone_dir, clone_dir_text,
    grammar_path, grammar_path_text, text_option, text_result, ABI_VERSION,
};
use crate::error::HtmlRenderingError;
use crate::target_language::TargetLanguage;

verus! {

/// How far a run has come: what it is waiting for.
#[derive(Debug, Clone, Copy, PartialEq, Eq, Structural)]
pub enum Phase {
    /// Nothing has happened yet.
    Start,
    /// Whether the compiled grammar is in the cache.
    ArtifactProbe,
    /// Whether the grammar repository has been checked out before.
    CloneProbe,
    /// The checkout of the grammar repository.
    Cloning,
    /// Whether the checkout holds a grammar definition.
    GrammarProbe,
    /// The generation of the parser sources.
    Generating,
    /// The compilation of the parser.
    Compiling,
    /// The grammar that matches the extension of the language.
    Resolving,
    /// The run is over.
    Finished,
}

/// A rendering, or a filling of the cache, under way.
#[derive(Debug, Clone, PartialEq, Eq)]
pub struct Run {
    pub phase: Phase,
    pub language: TargetLanguage,
    pub home: Option<String>,
}

/// What the caller reports back.
#[derive(Debug, Clone, PartialEq, Eq)]
pub enum Event {
    /// The run begins. `home` is the home directory, where it is known.
    Begin { home: Option<String> },
    /// The path asked about exists, or does not.
    Probed { exists: bool },
    /// The step asked for has been carried out.
    Done,
    /// The step asked for has failed.
    Failed,
    /// No grammar on this machine matches the file name.
    GrammarMissing,
    /// A grammar matches the file name; `highlights` says whether it comes
    /// with a highlight configuration.
    GrammarFound { highlights: bool },
}

/// What the caller is to do next.
#[derive(Debug, Clone, PartialEq, Eq)]
pub enum Action {
    /// Report whether the compiled grammar at `path` exists.
    ProbeArtifact { path: String },
    /// Report whether the checkout at `path` exists.
    ProbeClone { path: String },
    /// Clone the repository at `url` into `directory`.
    Clone { url: String, directory: String },
    /// Report whether the grammar definition at `path` exists.
    ProbeGrammar { path: String },
    /// Generate the parser sources in `directory` from the grammar
    /// definition at `grammar`.
    Generate { directory: String, grammar: String, abi_version: usize },
    /// Compile the parser in `directory` to the library at `output`.
    Compile { directory: String, output: String },
    /// Load the theme and the grammars, and report the grammar that matches
    /// `file_name`.
    ResolveGrammar { file_name: String },
    /// Highlight the source with the grammar that was found: the run is
    /// over, and the rendering is its result.
    Highlight,
    /// The cache is filled: the run is over.
    Provisioned,
    /// The run is over, and its result is the empty text.
    Empty,
    /// The run is over, and has failed for the given reason.
    Fail(HtmlRenderingError),
    /// The run is over: the step that failed decides its result.
    Abort,
    /// The run is over: the event does not answer what was asked.
    Unexpected,
}

/// Everything that filling the cache for one language needs to know.
#[derive(Debug, Clone, PartialEq, Eq)]
pub struct ProvisionPlan {
    /// The address of the grammar repository.
    pub url: String,
    /// The directory that the repository is checked out into.
    pub clone_dir: String,
    /// The grammar definition inside the checkout.
    pub grammar_path: String,
    /// The compiled grammar.
    pub artifact_path: String,
}

/// A [`Run`] as the contracts see it.
pub struct RunView {
    pub phase: Phase,
    pub language: TargetLanguage,
    pub home: Option<Seq<char>>,
}

/// An [`Event`] as the contracts see it.
pub enum EventView {
    Begin { home: Option<Seq<char>> },
    Probed { exists: bool },
    Done,
    Failed,
    GrammarMissing,
    GrammarFound { highlights: bool },
}

/// An [`Action`] as the contracts see it.
pub enum ActionView {
    ProbeArtifact { path: Seq<char> },
    ProbeClone { path: Seq<char> },
    Clone { url: Seq<char>, directory: Seq<char> },
    ProbeGrammar { path: Seq<char> },
    Generate { directory: Seq<char>, grammar: Seq<char>, abi_version: usize },
    Compile { directory: Seq<char>, output: Seq<char> },
    ResolveGrammar { file_name: Seq<char> },
    Highlight,
    Provisioned,
    Empty,
    Fail(HtmlRenderingError),
    Abort,
    Unexpected,
}

/// A [`ProvisionPlan`] as the contracts see it.
pub struct PlanView {
    pub url: Seq<char>,
    pub clone_dir: Seq<char>,
    pub grammar_path: Seq<char>,
    pub artifact_path: Seq<char>,
}

/// The characters of a text that may be missing.
pub open spec fn owned_text(text: Option<String>) -> Option<Seq<char>> {
    match text {
        Some(text) => Some(text@),
        None => None,
    }
}

impl View for Run {
    type V = RunView;

    open spec fn view(&self) -> RunView {
        RunView { phase: self.phase, language: self.language, home: owned_text(self.home) }
    }
}

impl View for Event {
    type V = EventView;

    open spec fn view(&self) -> EventView {
        match *self {
            Event::Begin { home } => EventView::Begin { home: owned_text(home) },
            Event::Probed { exists } => EventView::Probed { exists },
            Event::Done => EventView::Done,
            Event::Failed => EventView::Failed,
            Event::GrammarMissing => EventView::GrammarMissing,
            Event::GrammarFound { highlights } => EventView::GrammarFound { highlights },
        }
    }
}

impl View for Action {
    type V = ActionView;

    open spec fn view(&self) -> ActionView {
        match *self {
            Action::ProbeArtifact { path } => ActionView::ProbeArtifact { path: path@ },
            Action::ProbeClone { path } => ActionView::ProbeClone { path: path@ },
            Action::Clone { url, directory } => ActionView::Clone {
                url: url@,
                directory: directory@,
            },
            Action::ProbeGrammar { path } => ActionView::ProbeGrammar { path: path@ },
            Action::Generate { directory, grammar, abi_version } => ActionView::Generate {
                directory: directory@,
                grammar: grammar@,
                abi_version,
            },
            Action::Compile { directory, output } => ActionView::Compile {
                directory: directory@,
                output: output@,
            },
            Action::ResolveGrammar { file_name } => ActionView::ResolveGrammar {
                file_name: file_name@,
            },
            Action::Highlight => ActionView::Highlight,
            Action::Provisioned => ActionView::Provisioned,
            Action::Empty => ActionView::Empty,
            Action::Fail(error) => ActionView::Fail(error),
            Action::Abort => ActionView::Abort,
            Action::Unexpected => ActionView::Unexpected,
        }
    }
}

impl View for ProvisionPlan {
    type V = PlanView;

    open spec fn view(&self) -> PlanView {
        PlanView {
            url: self.url@,
            clone_dir: self.clone_dir@,
            grammar_path: self.grammar_path@,
            artifact_path: self.artifact_path@,
        }
    }
}

/// What filling the cache needs to know of a grammar with the given
/// repository and library name, or why the cache cannot be filled: the home
/// directory is unknown, there is no grammar repository, or there is no
/// library name, looked at in this order.
pub open spec fn plan_from(
    home: Option<Seq<char>>,
    url: Option<Seq<char>>,
    soname: Option<Seq<char>>,
) -> Result<PlanView, HtmlRenderingError> {
    match home {
        None => Err(HtmlRenderingError::SharedLibDoesntExist),
        Some(home) => match url {
            None => Err(HtmlRenderingError::LanguageParserNotImplemented),
            Some(url) => match soname {
                None => Err(HtmlRenderingError::SharedLibDoesntExist),
                Some(soname) => Ok(
                    PlanView {
                        url,
                        clone_dir: clone_dir_text(home, url),
                        grammar_path: grammar_path_text(clone_dir_text(home, url)),
                        artifact_path: artifact_path_text(home, soname),
                    },
                ),
            },
        },
    }
}

/// What filling the cache for `language` needs to know, or why the cache
/// cannot be filled.
pub open spec fn plan_of(home: Option<Seq<char>>, language: TargetLanguage) -> Result<
    PlanView,
    HtmlRenderingError,
> {
    plan_from(home, language.git_repo_text(), language.soname_text())
}

/// Whether the compiled grammar of `language` is at hand, given whether the
/// file at its place in the cache exists.
pub open spec fn probe_of(home: Option<Seq<char>>, language: TargetLanguage, present: bool)
    -> Result<(), HtmlRenderingError> {
    if artifact_of(home, language) is Ok && present {
        Ok(())
    } else {
        Err(HtmlRenderingError::SharedLibDoesntExist)
    }
}

/// The name of a file of `language`, by which its grammar is looked up.
pub open spec fn lookup_name_of(language: TargetLanguage) -> Result<
    Seq<char>,
    HtmlRenderingError,
> {
    match language.extension_text() {
        Some(extension) => Ok("dummy-name."@ + extension),
        None => Err(HtmlRenderingError::LanguageParserNotImplemented),
    }
}

/// The end of a run, with `action` as its last word.
pub open spec fn finished(run: RunView, action: ActionView) -> (RunView, ActionView) {
    (RunView { phase: Phase::Finished, language: run.language, home: run.home }, action)
}

/// The run in another phase, with `action` to be carried out.
pub open spec fn waiting(run: RunView, phase: Phase, action: ActionView) -> (
    RunView,
    ActionView,
) {
    (RunView { phase, language: run.language, home: run.home }, action)
}

/// One step of filling the cache.
///
/// The run begins with the plan, and fails at once where there is none.
/// Then: the repository is cloned unless its checkout exists; the grammar
/// definition is looked for, and generation goes ahead whether or not it is
/// there; the parser is generated; it is compiled to the place in the cache
/// where the compiled grammar is looked for. A step that fails ends the run.
pub open spec fn provision_step(run: RunView, event: EventView) -> (RunView, ActionView) {
    match (run.phase, event) {
        (Phase::Start, EventView::Begin { home }) => {
            let begun = RunView { phase: Phase::Start, language: run.language, home };
            match plan_of(home, run.language) {
                Ok(plan) => waiting(
                    begun,
                    Phase::CloneProbe,
                    ActionView::ProbeClone { path: plan.clone_dir },
                ),
                Err(error) => finished(begun, ActionView::Fail(error)),
            }
        },
        (Phase::CloneProbe, EventView::Probed { exists }) => match plan_of(
            run.home,
            run.language,
        ) {
            Ok(plan) => if exists {
                waiting(
                    run,
                    Phase::GrammarProbe,
                    ActionView::ProbeGrammar { path: plan.grammar_path },
                )
            } else {
                waiting(
                    run,
                    Phase::Cloning,
                    ActionView::Clone { url: plan.url, directory: plan.clone_dir },
                )
            },
            Err(_) => finished(run, ActionView::Unexpected),
        },
        (Phase::Cloning, EventView::Done) => match plan_of(run.home, run.language) {
            Ok(plan) => waiting(
                run,
                Phase::GrammarProbe,
                ActionView::ProbeGrammar { path: plan.grammar_path },
            ),
            Err(_) => finished(run, ActionView::Unexpected),
        },
        (Phase::GrammarProbe, EventView::Probed { exists }) => match plan_of(
            run.home,
            run.language,
        ) {
            Ok(plan) => waiting(
                run,
                Phase::Generating,
                ActionView::Generate {
                    directory: plan.clone_dir,
                    grammar: plan.grammar_path,
                    abi_version: ABI_VERSION,
                },
            ),
            Err(_) => finished(run, ActionView::Unexpected),
        },
        (Phase::Generating, EventView::Done) => match plan_of(run.home, run.language) {
            Ok(plan) => waiting(
                run,
                Phase::Compiling,
                ActionView::Compile { directory: plan.clone_dir, output: plan.artifact_path },
            ),
            Err(_) => finished(run, ActionView::Unexpected),
        },
        (Phase::Compiling, EventView::Done) => finished(run, ActionView::Provisioned),
        (Phase::Cloning, EventView::Failed) => finished(run, ActionView::Abort),
        (Phase::Generating, EventView::Failed) => finished(run, ActionView::Abort),
        (Phase::Compiling, EventView::Failed) => finished(run, ActionView::Abort),
        _ => finished(run, ActionView::Unexpected),
    }
}

/// What follows once the compiled grammar is in the cache: the grammar that
/// matches the extension of the language is asked for, unless the language
/// has no extension.
pub open spec fn resolve_step(run: RunView) -> (RunView, ActionView) {
    match lookup_name_of(run.language) {
        Ok(file_name) => waiting(run, Phase::Resolving, ActionView::ResolveGrammar { file_name }),
        Err(error) => finished(run, ActionView::Fail(error)),
    }
}

/// A step of filling the cache, as part of a rendering: where it fills the
/// cache, the rendering goes on.
pub open spec fn provision_then_resolve(run: RunView, event: EventView) -> (RunView, ActionView) {
    let (next, action) = provision_step(run, event);
    if action is Provisioned {
        resolve_step(next)
    } else {
        (next, action)
    }
}

/// One step of a rendering.
///
/// The compiled grammar is looked for in the cache. Where it is missing, or
/// cannot be looked for, the cache is filled, once. Then the grammar that
/// matches the extension of the language is asked for: with none on this
/// machine the result is the empty text; one without a highlight
/// configuration counts as a compiled grammar that is not there; with one
/// that has it the source is highlighted.
pub open spec fn render_step(run: RunView, event: EventView) -> (RunView, ActionView) {
    match (run.phase, event) {
        (Phase::Start, EventView::Begin { home }) => match artifact_of(home, run.language) {
            Ok(path) => waiting(
                RunView { phase: Phase::Start, language: run.language, home },
                Phase::ArtifactProbe,
                ActionView::ProbeArtifact { path },
            ),
            Err(_) => provision_then_resolve(run, event),
        },
        (Phase::ArtifactProbe, EventView::Probed { exists }) => if probe_of(
            run.home,
            run.language,
            exists,
        ) is Ok {
            resolve_step(run)
        } else {
            provision_then_resolve(
                RunView { phase: Phase::Start, language: run.language, home: run.home },
                EventView::Begin { home: run.home },
            )
        },
        (Phase::CloneProbe, _) => provision_then_resolve(run, event),
        (Phase::Cloning, _) => provision_then_resolve(run, event),
        (Phase::GrammarProbe, _) => provision_then_resolve(run, event),
        (Phase::Generating, _) => provision_then_resolve(run, event),
        (Phase::Compiling, _) => provision_then_resolve(run, event),
        (Phase::Resolving, EventView::GrammarMissing) => finished(run, ActionView::Empty),
        (Phase::Resolving, EventView::GrammarFound { highlights }) => if highlights {
            finished(run, ActionView::Highlight)
        } else {
            finished(run, ActionView::Fail(HtmlRenderingError::SharedLibDoesntExist))
        },
        (Phase::Resolving, EventView::Failed) => finished(run, ActionView::Abort),
        _ => finished(run, ActionView::Unexpected),
    }
}

/// The plan that was made, or why none could be.
pub open spec fn plan_view(plan: Result<ProvisionPlan, HtmlRenderingError>) -> Result<
    PlanView,
    HtmlRenderingError,
> {
    match plan {
        Ok(plan) => Ok(plan@),
        Err(error) => Err(error),
    }
}

/// A text that may be missing, lent out.
fn lent(text: &Option<String>) -> (lent: Option<&str>)
    ensures
        text_option(lent) == owned_text(*text),
{
    match text {
        Some(text) => Some(text.as_str()),
        None => None,
    }
}

/// The end of `run`, with `action` as its last word.
fn finish(run: Run, action: Action) -> (next: (Run, Action))
    ensures
        (next.0@, next.1@) == finished(run@, action@),
{
    (Run { phase: Phase::Finished, language: run.language, home: run.home }, action)
}

/// `run` in another phase, with `action` to be carried out.
fn wait(run: Run, phase: Phase, action: Action) -> (next: (Run, Action))
    ensures
        (next.0@, next.1@) == waiting(run@, phase, action@),
{
    (Run { phase, language: run.language, home: run.home }, action)
}

impl Run {
    /// A run for `language` that has not begun.
    pub fn new(language: TargetLanguage) -> (run: Run)
        ensures
            run@ == (RunView { phase: Phase::Start, language, home: None }),
    {
        Run { phase: Phase::Start, language, home: None }
    }
}

/// Works out what filling the cache needs to know of a grammar with the
/// given repository and library name.
pub fn plan_for(home: Option<&str>, url: Option<&str>, soname: Option<&str>) -> (plan: Result<
    ProvisionPlan,
    HtmlRenderingError,
>)
    ensures
        plan_view(plan) == plan_from(text_option(home), text_option(url), text_option(soname)),
{
    let home: &str = match home {
        Some(home) => home,
        None => {
            return Err(HtmlRenderingError::SharedLibDoesntExist);
        },
    };
    let url: &str = match url {
        Some(url) => url,
        None => {
            return Err(HtmlRenderingError::LanguageParserNotImplemented);
        },
    };
    let soname: &str = match soname {
        Some(soname) => soname,
        None => {
            return Err(HtmlRenderingError::SharedLibDoesntExist);
        },
    };
    let artifact_path: String = artifact_file(home, soname);
    let clone_dir: String = clone_dir(home, url);
    let grammar_path: String = grammar_path(clone_dir.as_str());
    Ok(ProvisionPlan { url: String::from_str(url), clone_dir, grammar_path, artifact_path })
}

/// Works out what filling the cache for `language` needs to know.
pub fn provision_plan(home: Option<&str>, language: TargetLanguage) -> (plan: Result<
    ProvisionPlan,
    HtmlRenderingError,
>)
    ensures
        plan_view(plan) == plan_of(text_option(home), language),
        text_option(home) is Some && language.git_repo_text() is None ==> plan_view(plan) == Err::<
            PlanView,
            HtmlRenderingError,
        >(HtmlRenderingError::LanguageParserNotImplemented),
{
    plan_for(home, language.git_repo(), language.soname())
}

/// Says whether the compiled grammar of `target_lang` is at hand. `present`
/// tells whether the file at its place in the cache exists; it is not
/// looked at where there is no such place.
pub fn check_for_parser(home: Option<&str>, target_lang: TargetLanguage, present: bool) -> (found:
    Result<(), HtmlRenderingError>)
    ensures
        found == probe_of(text_option(home), target_lang, present),
        found is Ok <==> text_option(home) is Some && target_lang.soname_text() is Some && present,
{
    match artifact_path(home, target_lang) {
        Ok(_) => {
            if present {
                Ok(())
            } else {
                Err(HtmlRenderingError::SharedLibDoesntExist)
            }
        },
        Err(error) => Err(error),
    }
}

/// The name of a file of `language`, by which its grammar is looked up.
pub fn lookup_name(language: TargetLanguage) -> (file_name: Result<String, HtmlRenderingError>)
    ensures
        text_result(file_name) == lookup_name_of(language),
{
    match language.extension() {
        Some(extension) => {
            let mut file_name: String = String::from_str("dummy-name.");
            file_name.append(extension);
            Ok(file_name)
        },
        None => Err(HtmlRenderingError::LanguageParserNotImplemented),
    }
}

/// Generate a parser for the language of `run`: takes the answer to the
/// last action and says what is to be done next. See [`provision_step`].
pub fn generate_parser(run: Run, event: Event) -> (next: (Run, Action))
    ensures
        (next.0@, next.1@) == provision_step(run@, event@),
{
    match run.phase {
        Phase::Start => match event {
            Event::Begin { home } => {
                let plan = provision_plan(lent(&home), run.language);
                let begun = Run { phase: Phase::Start, language: run.language, home };
                match plan {
                    Ok(plan) => wait(
                        begun,
                        Phase::CloneProbe,
                        Action::ProbeClone { path: plan.clone_dir },
                    ),
                    Err(error) => finish(begun, Action::Fail(error)),
                }
            },
            _ => finish(run, Action::Unexpected),
        },
        Phase::CloneProbe => match event {
            Event::Probed { exists } => match provision_plan(lent(&run.home), run.language) {
                Ok(plan) => {
                    if exists {
                        wait(
                            run,
                            Phase::GrammarProbe,
                            Action::ProbeGrammar { path: plan.grammar_path },
                        )
                    } else {
                        wait(
                            run,
                            Phase::Cloning,
                            Action::Clone { url: plan.url, directory: plan.clone_dir },
                        )
                    }
                },
                Err(_) => finish(run, Action::Unexpected),
            },
            _ => finish(run, Action::Unexpected),
        },
        Phase::Cloning => match event {
            Event::Done => match provision_plan(lent(&run.home), run.language) {
                Ok(plan) => wait(
                    run,
                    Phase::GrammarProbe,
                    Action::ProbeGrammar { path: plan.grammar_path },
                ),
                Err(_) => finish(run, Action::Unexpected),
            },
            Event::Failed => finish(run, Action::Abort),
            _ => finish(run, Action::Unexpected),
        },
        Phase::GrammarProbe => match event {
            Event::Probed { exists: _ } => match provision_plan(lent(&run.home), run.language) {
                Ok(plan) => wait(
                    run,
                    Phase::Generating,
                    Action::Generate {
                        directory: plan.clone_dir,
                        grammar: plan.grammar_path,
                        abi_version: ABI_VERSION,
                    },
                ),
                Err(_) => finish(run, Action::Unexpected),
            },
            _ => finish(run, Action::Unexpected),
        },
        Phase::Generating => match event {
            Event::Done => match provision_plan(lent(&run.home), run.language) {
                Ok(plan) => wait(
                    run,
                    Phase::Compiling,
                    Action::Compile { directory: plan.clone_dir, output: plan.artifact_path },
                ),
                Err(_) => finish(run, Action::Unexpected),
            },
            Event::Failed => finish(run, Action::Abort),
            _ => finish(run, Action::Unexpected),
        },
        Phase::Compiling => match event {
            Event::Done => finish(run, Action::Provisioned),
            Event::Failed => finish(run, Action::Abort),
            _ => finish(run, Action::Unexpected),
        },
        _ => finish(run, Action::Unexpected),
    }
}

/// Goes on with the rendering once the compiled grammar is in the cache.
fn resolve(run: Run) -> (next: (Run, Action))
    ensures
        (next.0@, next.1@) == resolve_step(run@),
{
    match lookup_name(run.language) {
        Ok(file_name) => wait(run, Phase::Resolving, Action::ResolveGrammar { file_name }),
        Err(error) => finish(run, Action::Fail(error)),
    }
}

/// A step of filling the cache, as part of a rendering.
fn provision_and_resolve(run: Run, event: Event) -> (next: (Run, Action))
    ensures
        (next.0@, next.1@) == provision_then_resolve(run@, event@),
{
    let (next, action) = generate_parser(run, event);
    match action {
        Action::Provisioned => resolve(next),
        _ => (next, action),
    }
}

/// Render the code block of `run` into HTML: takes the answer to the last
/// action and says what is to be done next. See [`render_step`].
pub fn render_html(run: Run, event: Event) -> (next: (Run, Action))
    ensures
        (next.0@, next.1@) == render_step(run@, event@),
{
    match run.phase {
        Phase::Start => match event {
            Event::Begin { home } => match artifact_path(lent(&home), run.language) {
                Ok(path) => wait(
                    Run { phase: Phase::Start, language: run.language, home },
                    Phase::ArtifactProbe,
                    Action::ProbeArtifact { path },
                ),
                Err(_) => provision_and_resolve(run, Event::Begin { home }),
            },
            _ => finish(run, Action::Unexpected),
        },
        Phase::ArtifactProbe => match event {
            Event::Probed { exists } => {
                if check_for_parser(lent(&run.home), run.language, exists).is_ok() {
                    resolve(run)
                } else {
                    let home: Option<String> = match &run.home {
                        Some(home) => Some(home.clone()),
                        None => None,
                    };
                    provision_and_resolve(
                        Run { phase: Phase::Start, language: run.language, home: run.home },
                        Event::Begin { home },
                    )
                }
            },
            _ => finish(run, Action::Unexpected),
        },
        Phase::CloneProbe => provision_and_resolve(run, event),
        Phase::Cloning => provision_and_resolve(run, event),
        Phase::GrammarProbe => provision_and_resolve(run, event),
        Phase::Generating => provision_and_resolve(run, event),
        Phase::Compiling => provision_and_resolve(run, event),
        Phase::Resolving => match event {
            Event::GrammarMissing => finish(run, Action::Empty),
            Event::GrammarFound { highlights } => {
                if highlights {
                    finish(run, Action::Highlight)
                } else {
                    finish(run, Action::Fail(HtmlRenderingError::SharedLibDoesntExist))
                }
            },
            Event::Failed => finish(run, Action::Abort),
            _ => finish(run, Action::Unexpected),
        },
        _ => finish(run, Action::Unexpected),
    }
}

/// The run as it stands after `event`.
pub open spec fn provisioned(run: RunView, event: EventView) -> RunView {
    provision_step(run, event).0
}

/// The run of a rendering as it stands after `event`.
pub open spec fn rendered(run: RunView, event: EventView) -> RunView {
    render_step(run, event).0
}

/// A run that has not begun.
pub open spec fn fresh(language: TargetLanguage) -> RunView {
    RunView { phase: Phase::Start, language, home: None }
}

/// Whether an action changes what is on disk.
pub open spec fn writes(action: ActionView) -> bool {
    action is Clone || action is Generate || action is Compile
}

/// Filling the cache where nothing fails. With a home directory, a grammar
/// repository and a library name the run asks for the checkout, clones the
/// repository where there is none and skips that where there is one, looks
/// for the grammar definition and generates the parser whether or not it is
/// there, compiles it to the place where the compiled grammar is looked for,
/// and is over.
pub proof fn lemma_provisioning_run(
    home: Seq<char>,
    language: TargetLanguage,
    grammar_present: bool,
)
    requires
        language.git_repo_text() is Some,
        language.soname_text() is Some,
    ensures
        ({
            let plan = plan_of(Some(home), language)->Ok_0;
            let begin = EventView::Begin { home: Some(home) };
            let probing = provisioned(fresh(language), begin);
            let cloning = provisioned(probing, EventView::Probed { exists: false });
            let cloned = provisioned(cloning, EventView::Done);
            let found = provisioned(probing, EventView::Probed { exists: true });
            let generating = provisioned(found, EventView::Probed { exists: grammar_present });
            let compiling = provisioned(generating, EventView::Done);
            &&& plan_of(Some(home), language) is Ok
            &&& artifact_of(Some(home), language) == Ok::<Seq<char>, HtmlRenderingError>(
                plan.artifact_path,
            )
            &&& provision_step(fresh(language), begin).1 == (ActionView::ProbeClone {
                path: plan.clone_dir,
            })
            &&& provision_step(probing, EventView::Probed { exists: false }).1 == (
            ActionView::Clone { url: plan.url, directory: plan.clone_dir })
            &&& provision_step(cloning, EventView::Done).1 == (ActionView::ProbeGrammar {
                path: plan.grammar_path,
            })
            &&& provision_step(probing, EventView::Probed { exists: true }).1 == (
            ActionView::ProbeGrammar { path: plan.grammar_path })
            &&& cloned == found
            &&& provision_step(found, EventView::Probed { exists: grammar_present }).1 == (
            ActionView::Generate {
                directory: plan.clone_dir,
                grammar: plan.grammar_path,
                abi_version: ABI_VERSION,
            })
            &&& provision_step(generating, EventView::Done).1 == (ActionView::Compile {
                directory: plan.clone_dir,
                output: plan.artifact_path,
            })
            &&& provision_step(compiling, EventView::Done) == finished(
                compiling,
                ActionView::Provisioned,
            )
        }),
{
}

/// A rendering that finds the cache empty fills it before it goes on: the
/// place that it probes is the place that the parser is compiled to, and
/// once that is done the grammar is asked for.
pub proof fn lemma_render_fills_empty_cache(
    home: Seq<char>,
    language: TargetLanguage,
    clone_present: bool,
    grammar_present: bool,
)
    requires
        language.git_repo_text() is Some,
        language.soname_text() is Some,
        language.extension_text() is Some,
    ensures
        ({
            let plan = plan_of(Some(home), language)->Ok_0;
            let begin = EventView::Begin { home: Some(home) };
            let probing = rendered(fresh(language), begin);
            let missing = rendered(probing, EventView::Probed { exists: false });
            let found = if clone_present {
                rendered(missing, EventView::Probed { exists: true })
            } else {
                rendered(rendered(missing, EventView::Probed { exists: false }), EventView::Done)
            };
            let generating = rendered(found, EventView::Probed { exists: grammar_present });
            let compiling = rendered(generating, EventView::Done);
            &&& render_step(fresh(language), begin).1 == (ActionView::ProbeArtifact {
                path: plan.artifact_path,
            })
            &&& render_step(probing, EventView::Probed { exists: false }).1 == (
            ActionView::ProbeClone { path: plan.clone_dir })
            &&& render_step(generating, EventView::Done).1 == (ActionView::Compile {
                directory: plan.clone_dir,
                output: plan.artifact_path,
            })
            &&& render_step(compiling, EventView::Done).1 == (ActionView::ResolveGrammar {
                file_name: lookup_name_of(language)->Ok_0,
            })
            &&& rendered(compiling, EventView::Done).phase == Phase::Resolving
        }),
{
    lemma_provisioning_run(home, language, grammar_present);
}

/// A rendering that finds the compiled grammar in the cache changes nothing
/// on disk: it goes straight on to ask for the grammar.
pub proof fn lemma_render_with_warm_cache(home: Seq<char>, language: TargetLanguage)
    requires
        language.soname_text() is Some,
        language.extension_text() is Some,
    ensures
        ({
            let begin = EventView::Begin { home: Some(home) };
            let probing = rendered(fresh(language), begin);
            &&& render_step(fresh(language), begin).1 is ProbeArtifact
            &&& render_step(probing, EventView::Probed { exists: true }).1 == (
            ActionView::ResolveGrammar { file_name: lookup_name_of(language)->Ok_0 })
        }),
{
}

/// Whatever the run and the event, a compilation is aimed at the place where
/// the compiled grammar of the run's language is looked for, and a checkout
/// is made where the run looks for it.
pub proof fn lemma_writes_follow_the_plan(run: RunView, event: EventView)
    ensures
        provision_step(run, event).1 matches ActionView::Compile { directory, output } ==> {
            &&& plan_of(run.home, run.language) is Ok
            &&& plan_of(run.home, run.language)->Ok_0.clone_dir == directory
            &&& artifact_of(run.home, run.language) == Ok::<Seq<char>, HtmlRenderingError>(output)
        },
        provision_step(run, event).1 matches ActionView::Clone { url, directory } ==> {
            &&& plan_of(run.home, run.language) is Ok
            &&& plan_of(run.home, run.language)->Ok_0.clone_dir == directory
            &&& plan_of(run.home, run.language)->Ok_0.url == url
        },
        render_step(run, event).1 matches ActionView::Compile { directory, output } ==> {
            &&& artifact_of(run.home, run.language) == Ok::<Seq<char>, HtmlRenderingError>(output)
        },
{
}

/// Without a grammar repository nothing can be provided: with a home
/// directory there is no plan, whatever the library name, and the reason is
/// that the language is not supported.
pub proof fn lemma_no_repository_no_plan(home: Seq<char>, soname: Option<Seq<char>>)
    ensures
        plan_from(Some(home), None, soname) == Err::<PlanView, HtmlRenderingError>(
            HtmlRenderingError::LanguageParserNotImplemented,
        ),
{
}

/// Where there is no plan, nothing on disk is touched. Filling the cache
/// fails at its first step, for the reason that there is no plan, and asks
/// for nothing; a rendering that finds the compiled grammar missing fails
/// in the same way. For a language without a grammar repository and with a
/// home directory the reason is that the language is not supported.
pub proof fn lemma_unsupported_language_writes_nothing(
    home: Option<Seq<char>>,
    language: TargetLanguage,
)
    ensures
        plan_of(home, language) matches Err(error) ==> {
            &&& provision_step(fresh(language), EventView::Begin { home }) == (
                RunView { phase: Phase::Finished, language, home },
                ActionView::Fail(error),
            )
            &&& render_step(
                RunView { phase: Phase::ArtifactProbe, language, home },
                EventView::Probed { exists: false },
            ) == (RunView { phase: Phase::Finished, language, home }, ActionView::Fail(error))
        },
        home is Some && language.git_repo_text() is None ==> plan_of(home, language) == Err::<
            PlanView,
            HtmlRenderingError,
        >(HtmlRenderingError::LanguageParserNotImplemented),
{
}

/// A step that fails ends the run, in filling the cache and in rendering,
/// and nothing further is asked for: whatever comes after is answered with
/// [`Action::Unexpected`].
pub proof fn lemma_failure_ends_the_run(run: RunView, event: EventView)
    ensures
        provision_step(run, EventView::Failed).0.phase == Phase::Finished,
        render_step(run, EventView::Failed).0.phase == Phase::Finished,
        !writes(provision_step(run, EventView::Failed).1),
        !writes(render_step(run, EventView::Failed).1),
        run.phase == Phase::Finished ==> provision_step(run, event) == finished(
            run,
            ActionView::Unexpected,
        ) && render_step(run, event) == finished(run, ActionView::Unexpected),
{
}

/// A step keeps the language of the run, and its home directory once the run
/// has begun.
pub proof fn lemma_step_keeps_the_run(run: RunView, event: EventView)
    ensures
        provision_step(run, event).0.language == run.language,
        render_step(run, event).0.language == run.language,
        run.phase != Phase::Start ==> provision_step(run, event).0.home == run.home
            && render_step(run, event).0.home == run.home,
{
}

} // verus!
