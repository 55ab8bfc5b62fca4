use highlight_ez::cache::{
    artifact_file, artifact_path, clone_dir, grammar_path, join, repo_name, ABI_VERSION,
};
use highlight_ez::pipeline::{
    check_for_parser, lookup_name, plan_for, provision_plan, Action, Event, Phase, Run,
};
use highlight_ez::{HtmlRenderingError, TargetLanguage};

const HOME: &str = "/home/reader";

fn begin() -> Event {
    Event::Begin { home: Some(String::from(HOME)) }
}

/// Fills the cache for `language` the way a caller would whose clone,
/// generation and compilation all succeed, and gives back what was asked of
/// it, step by step.
fn provision(language: TargetLanguage, clone_exists: bool) -> Vec<Action> {
    let mut asked = Vec::new();
    let (mut run, mut action) = highlight_ez::pipeline::generate_parser(Run::new(language), begin());
    loop {
        asked.push(action.clone());
        let event = match action {
            Action::ProbeClone { .. } => Event::Probed { exists: clone_exists },
            Action::ProbeGrammar { .. } => Event::Probed { exists: true },
            Action::Clone { .. } | Action::Generate { .. } | Action::Compile { .. } => Event::Done,
            _ => break,
        };
        (run, action) = highlight_ez::pipeline::generate_parser(run, event);
    }
    assert_eq!(run.phase, Phase::Finished);
    asked
}

#[test]
fn generate_parser() {
    for language in [
        TargetLanguage::Rust,
        TargetLanguage::Python,
        TargetLanguage::Html,
        TargetLanguage::Json,
        TargetLanguage::Javascript,
    ] {
        let asked = provision(language, false);
        if asked.last() != Some(&Action::Provisioned) {
            println!("Unable to create parser: {:?}", asked.last());
        }
        let compiled = asked.iter().any(|action| {
            matches!(action, Action::Compile { output, .. }
                if Ok(output.clone()) == artifact_path(Some(HOME), language))
        });
        check_for_parser(Some(HOME), language, compiled).unwrap();
    }
}

#[test]
fn render_html() {
    let (run, action) = highlight_ez::pipeline::render_html(Run::new(TargetLanguage::Rust), begin());
    assert_eq!(
        action,
        Action::ProbeArtifact { path: String::from("/home/reader/.cache/tree-sitter/lib/rust.so") }
    );
    assert_eq!(run.phase, Phase::ArtifactProbe);
    let (run, action) = highlight_ez::pipeline::render_html(run, Event::Probed { exists: true });
    assert_eq!(action, Action::ResolveGrammar { file_name: String::from("dummy-name..rs") });
    assert_eq!(run.phase, Phase::Resolving);
    let (run, action) =
        highlight_ez::pipeline::render_html(run, Event::GrammarFound { highlights: true });
    assert_eq!(action, Action::Highlight);
    assert_eq!(run.phase, Phase::Finished);
}

#[test]
fn provisioning_clones_generates_and_compiles() {
    let asked = provision(TargetLanguage::Python, false);
    let checkout = String::from("/home/reader/.cache/tree-sitter/parsers/tree-sitter-python");
    let grammar =
        String::from("/home/reader/.cache/tree-sitter/parsers/tree-sitter-python/grammar.js");
    assert_eq!(
        asked,
        vec![
            Action::ProbeClone { path: checkout.clone() },
            Action::Clone {
                url: String::from("https://github.com/tree-sitter/tree-sitter-python.git"),
                directory: checkout.clone(),
            },
            Action::ProbeGrammar { path: grammar.clone() },
            Action::Generate { directory: checkout.clone(), grammar, abi_version: 14 },
            Action::Compile {
                directory: checkout,
                output: String::from("/home/reader/.cache/tree-sitter/lib/python.so"),
            },
            Action::Provisioned,
        ]
    );
}

#[test]
fn provisioning_skips_the_clone_that_exists() {
    let asked = provision(TargetLanguage::Shell, true);
    assert_eq!(asked.len(), 5);
    assert!(!asked.iter().any(|action| matches!(action, Action::Clone { .. })));
    assert!(matches!(asked[2], Action::Generate { .. }));
    assert!(matches!(asked[3], Action::Compile { .. }));
    assert_eq!(asked[4], Action::Provisioned);
}

#[test]
fn provisioning_goes_on_without_a_grammar_definition() {
    let (run, _) = highlight_ez::pipeline::generate_parser(Run::new(TargetLanguage::Json), begin());
    let (run, action) =
        highlight_ez::pipeline::generate_parser(run, Event::Probed { exists: true });
    assert!(matches!(action, Action::ProbeGrammar { .. }));
    let (run, action) =
        highlight_ez::pipeline::generate_parser(run, Event::Probed { exists: false });
    assert!(matches!(action, Action::Generate { .. }));
    assert_eq!(run.phase, Phase::Generating);
}

#[test]
fn provisioning_needs_a_home_directory() {
    let (run, action) = highlight_ez::pipeline::generate_parser(
        Run::new(TargetLanguage::Rust),
        Event::Begin { home: None },
    );
    assert_eq!(action, Action::Fail(HtmlRenderingError::SharedLibDoesntExist));
    assert_eq!(run.phase, Phase::Finished);
}

#[test]
fn failed_clone_ends_provisioning_without_a_build() {
    let (run, action) =
        highlight_ez::pipeline::generate_parser(Run::new(TargetLanguage::Toml), begin());
    assert!(matches!(action, Action::ProbeClone { .. }));
    let (run, action) =
        highlight_ez::pipeline::generate_parser(run, Event::Probed { exists: false });
    assert!(matches!(action, Action::Clone { .. }));
    let (run, action) = highlight_ez::pipeline::generate_parser(run, Event::Failed);
    assert_eq!(action, Action::Abort);
    assert_eq!(run.phase, Phase::Finished);
    let (_, action) = highlight_ez::pipeline::generate_parser(run, Event::Done);
    assert_eq!(action, Action::Unexpected);
}

#[test]
fn failed_generation_and_compilation_end_provisioning() {
    let (run, _) = highlight_ez::pipeline::generate_parser(Run::new(TargetLanguage::Html), begin());
    let (run, _) = highlight_ez::pipeline::generate_parser(run, Event::Probed { exists: true });
    let (run, _) = highlight_ez::pipeline::generate_parser(run, Event::Probed { exists: true });
    let (after, action) = highlight_ez::pipeline::generate_parser(run.clone(), Event::Failed);
    assert_eq!(action, Action::Abort);
    assert_eq!(after.phase, Phase::Finished);
    let (run, action) = highlight_ez::pipeline::generate_parser(run, Event::Done);
    assert!(matches!(action, Action::Compile { .. }));
    let (run, action) = highlight_ez::pipeline::generate_parser(run, Event::Failed);
    assert_eq!(action, Action::Abort);
    assert_eq!(run.phase, Phase::Finished);
}

#[test]
fn events_that_answer_nothing_end_the_run() {
    let (run, action) =
        highlight_ez::pipeline::generate_parser(Run::new(TargetLanguage::Rust), Event::Done);
    assert_eq!(action, Action::Unexpected);
    assert_eq!(run.phase, Phase::Finished);
    let (run, _) = highlight_ez::pipeline::render_html(Run::new(TargetLanguage::Rust), begin());
    let (run, action) = highlight_ez::pipeline::render_html(run, Event::GrammarMissing);
    assert_eq!(action, Action::Unexpected);
    assert_eq!(run.phase, Phase::Finished);
}

#[test]
fn rendering_fills_an_empty_cache_first() {
    let language = TargetLanguage::Yaml;
    let (run, action) = highlight_ez::pipeline::render_html(Run::new(language), begin());
    let probed = match action {
        Action::ProbeArtifact { path } => path,
        other => panic!("no probe but {:?}", other),
    };
    assert_eq!(probed, "/home/reader/.cache/tree-sitter/lib/yaml.so");
    let (run, action) = highlight_ez::pipeline::render_html(run, Event::Probed { exists: false });
    assert_eq!(
        action,
        Action::ProbeClone {
            path: String::from("/home/reader/.cache/tree-sitter/parsers/tree-sitter-yaml")
        }
    );
    let (run, action) = highlight_ez::pipeline::render_html(run, Event::Probed { exists: false });
    assert!(matches!(action, Action::Clone { .. }));
    let (run, action) = highlight_ez::pipeline::render_html(run, Event::Done);
    assert!(matches!(action, Action::ProbeGrammar { .. }));
    let (run, action) = highlight_ez::pipeline::render_html(run, Event::Probed { exists: true });
    assert!(matches!(action, Action::Generate { .. }));
    let (run, action) = highlight_ez::pipeline::render_html(run, Event::Done);
    let compiled = match action {
        Action::Compile { output, .. } => output,
        other => panic!("no compilation but {:?}", other),
    };
    assert_eq!(compiled, probed);
    assert_eq!(check_for_parser(Some(HOME), language, true), Ok(()));
    let (run, action) = highlight_ez::pipeline::render_html(run, Event::Done);
    assert_eq!(action, Action::ResolveGrammar { file_name: String::from("dummy-name..yml") });
    let (run, action) =
        highlight_ez::pipeline::render_html(run, Event::GrammarFound { highlights: true });
    assert_eq!(action, Action::Highlight);
    assert_eq!(run.phase, Phase::Finished);
}

#[test]
fn rendering_fails_where_the_grammar_cannot_be_fetched() {
    let language = TargetLanguage::Python;
    let (run, action) = highlight_ez::pipeline::render_html(Run::new(language), begin());
    assert!(matches!(action, Action::ProbeArtifact { .. }));
    let (run, action) = highlight_ez::pipeline::render_html(run, Event::Probed { exists: false });
    assert!(matches!(action, Action::ProbeClone { .. }));
    let (run, action) = highlight_ez::pipeline::render_html(run, Event::Probed { exists: false });
    assert!(matches!(action, Action::Clone { .. }));
    let (run, action) = highlight_ez::pipeline::render_html(run, Event::Failed);
    assert_eq!(action, Action::Abort);
    assert_eq!(run.phase, Phase::Finished);
    assert_eq!(
        check_for_parser(Some(HOME), language, false),
        Err(HtmlRenderingError::SharedLibDoesntExist)
    );
}

#[test]
fn rendering_without_a_home_directory_fails() {
    let (run, action) = highlight_ez::pipeline::render_html(
        Run::new(TargetLanguage::Rust),
        Event::Begin { home: None },
    );
    assert_eq!(action, Action::Fail(HtmlRenderingError::SharedLibDoesntExist));
    assert_eq!(run.phase, Phase::Finished);
}

#[test]
fn rendering_without_a_matching_grammar_is_empty() {
    let (run, _) = highlight_ez::pipeline::render_html(Run::new(TargetLanguage::Toml), begin());
    let (run, action) = highlight_ez::pipeline::render_html(run, Event::Probed { exists: true });
    assert_eq!(action, Action::ResolveGrammar { file_name: String::from("dummy-name..toml") });
    let (run, action) = highlight_ez::pipeline::render_html(run, Event::GrammarMissing);
    assert_eq!(action, Action::Empty);
    assert_eq!(run.phase, Phase::Finished);
}

#[test]
fn grammar_without_highlights_counts_as_missing_library() {
    let (run, _) = highlight_ez::pipeline::render_html(Run::new(TargetLanguage::Json), begin());
    let (run, _) = highlight_ez::pipeline::render_html(run, Event::Probed { exists: true });
    let (run, action) =
        highlight_ez::pipeline::render_html(run, Event::GrammarFound { highlights: false });
    assert_eq!(action, Action::Fail(HtmlRenderingError::SharedLibDoesntExist));
    assert_eq!(run.phase, Phase::Finished);
}

#[test]
fn failed_grammar_lookup_ends_the_rendering() {
    let (run, _) = highlight_ez::pipeline::render_html(Run::new(TargetLanguage::Json), begin());
    let (run, _) = highlight_ez::pipeline::render_html(run, Event::Probed { exists: true });
    let (run, action) = highlight_ez::pipeline::render_html(run, Event::Failed);
    assert_eq!(action, Action::Abort);
    assert_eq!(run.phase, Phase::Finished);
}

#[test]
fn prober_reports_what_is_in_the_cache() {
    assert_eq!(check_for_parser(Some(HOME), TargetLanguage::Rust, true), Ok(()));
    assert_eq!(
        check_for_parser(Some(HOME), TargetLanguage::Rust, false),
        Err(HtmlRenderingError::SharedLibDoesntExist)
    );
    assert_eq!(
        check_for_parser(None, TargetLanguage::Rust, true),
        Err(HtmlRenderingError::SharedLibDoesntExist)
    );
    assert_eq!(
        check_for_parser(None, TargetLanguage::Rust, false),
        Err(HtmlRenderingError::SharedLibDoesntExist)
    );
}

#[test]
fn plan_names_every_place() {
    let plan = provision_plan(Some("/root"), TargetLanguage::Shell).unwrap();
    assert_eq!(plan.url, "https://github.com/tree-sitter/tree-sitter-bash.git");
    assert_eq!(plan.clone_dir, "/root/.cache/tree-sitter/parsers/tree-sitter-bash");
    assert_eq!(plan.grammar_path, "/root/.cache/tree-sitter/parsers/tree-sitter-bash/grammar.js");
    assert_eq!(plan.artifact_path, "/root/.cache/tree-sitter/lib/shell.so");
    assert_eq!(
        provision_plan(None, TargetLanguage::Shell),
        Err(HtmlRenderingError::SharedLibDoesntExist)
    );
}

#[test]
fn grammar_without_a_repository_is_not_supported() {
    assert_eq!(
        plan_for(Some(HOME), None, Some("cobol.so")),
        Err(HtmlRenderingError::LanguageParserNotImplemented)
    );
    assert_eq!(
        plan_for(Some(HOME), None, None),
        Err(HtmlRenderingError::LanguageParserNotImplemented)
    );
}

#[test]
fn plan_needs_a_home_directory_and_a_library_name() {
    let url = Some("https://example.org/tree-sitter-cobol.git");
    assert_eq!(
        plan_for(None, url, Some("cobol.so")),
        Err(HtmlRenderingError::SharedLibDoesntExist)
    );
    assert_eq!(plan_for(None, None, None), Err(HtmlRenderingError::SharedLibDoesntExist));
    assert_eq!(plan_for(Some(HOME), url, None), Err(HtmlRenderingError::SharedLibDoesntExist));
    let plan = plan_for(Some(HOME), url, Some("cobol.so")).unwrap();
    assert_eq!(plan.url, "https://example.org/tree-sitter-cobol.git");
    assert_eq!(plan.clone_dir, "/home/reader/.cache/tree-sitter/parsers/tree-sitter-cobol");
    assert_eq!(
        plan.grammar_path,
        "/home/reader/.cache/tree-sitter/parsers/tree-sitter-cobol/grammar.js"
    );
    assert_eq!(plan.artifact_path, "/home/reader/.cache/tree-sitter/lib/cobol.so");
    assert_eq!(artifact_file(HOME, "cobol.so"), plan.artifact_path);
}

#[test]
fn artifact_lies_below_the_home_directory() {
    assert_eq!(
        artifact_path(Some("/home/a"), TargetLanguage::Javascript),
        Ok(String::from("/home/a/.cache/tree-sitter/lib/javascript.so"))
    );
    assert_eq!(
        artifact_path(None, TargetLanguage::Javascript),
        Err(HtmlRenderingError::SharedLibDoesntExist)
    );
}

#[test]
fn repository_name_is_the_last_segment_up_to_its_first_dot() {
    assert_eq!(repo_name("https://github.com/tree-sitter/tree-sitter-rust.git"), "tree-sitter-rust");
    assert_eq!(repo_name("https://github.com/ikatyang/tree-sitter-toml.git"), "tree-sitter-toml");
    assert_eq!(repo_name("https://example.org/a.b.c"), "a");
    assert_eq!(repo_name("plain"), "plain");
    assert_eq!(repo_name("dir/name"), "name");
    assert_eq!(repo_name("dir/.hidden"), "");
    assert_eq!(repo_name("dir/"), "");
    assert_eq!(repo_name(""), "");
    assert_eq!(repo_name("h\u{e4}/gr\u{fc}n.git"), "gr\u{fc}n");
}

#[test]
fn every_language_has_a_checkout_named_after_its_repository() {
    let names = [
        (TargetLanguage::Rust, "tree-sitter-rust"),
        (TargetLanguage::Yaml, "tree-sitter-yaml"),
        (TargetLanguage::Python, "tree-sitter-python"),
        (TargetLanguage::Json, "tree-sitter-json"),
        (TargetLanguage::Javascript, "tree-sitter-javascript"),
        (TargetLanguage::Shell, "tree-sitter-bash"),
        (TargetLanguage::Html, "tree-sitter-html"),
        (TargetLanguage::Toml, "tree-sitter-toml"),
    ];
    for (language, name) in names {
        assert_eq!(repo_name(language.git_repo().unwrap()), name);
    }
}

#[test]
fn paths_are_joined_by_a_slash() {
    assert_eq!(join("a", "b"), "a/b");
    assert_eq!(clone_dir("/h", "https://x/y.git"), "/h/.cache/tree-sitter/parsers/y");
    assert_eq!(grammar_path("/h/p"), "/h/p/grammar.js");
    assert_eq!(ABI_VERSION, 14);
}

#[test]
fn grammars_are_looked_up_by_a_file_name() {
    assert_eq!(lookup_name(TargetLanguage::Rust), Ok(String::from("dummy-name..rs")));
    assert_eq!(lookup_name(TargetLanguage::Html), Ok(String::from("dummy-name..html")));
    assert_eq!(lookup_name(TargetLanguage::Javascript), Ok(String::from("dummy-name..js")));
}
