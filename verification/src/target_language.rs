//! The catalogue of languages that can be highlighted.
use vstd::prelude::*;

use crate::error::HtmlRenderingError;
use crate::text::{
    ascii_lowercase, is_plain_lowercase, lemma_lowercase_keeps_plain_text,
    lemma_lowercase_to_plain_text, lowercase, same_text, to_lowercase,
};

verus! {

/// A language that can be asked for.
#[non_exhaustive]
#[derive(Debug, Clone, Copy, PartialEq, Eq, Structural)]
pub enum TargetLanguage {
    Rust,
    Python,
    Json,
    Yaml,
    Toml,
    Html,
    Javascript,
    Shell,
}

/// The language that a lowercase alias stands for, if it stands for one.
pub open spec fn alias_language(alias: Seq<char>) -> Option<TargetLanguage> {
    if alias == "rust"@ || alias == "rs"@ || alias == ".rs"@ {
        Some(TargetLanguage::Rust)
    } else if alias == "python"@ || alias == "py"@ || alias == ".py"@ {
        Some(TargetLanguage::Python)
    } else if alias == "json"@ || alias == ".json"@ {
        Some(TargetLanguage::Json)
    } else if alias == "yaml"@ || alias == ".yaml"@ || alias == ".yml"@ || alias == "yml"@ {
        Some(TargetLanguage::Yaml)
    } else if alias == "toml"@ || alias == ".toml"@ {
        Some(TargetLanguage::Toml)
    } else if alias == "html"@ || alias == ".html"@ {
        Some(TargetLanguage::Html)
    } else if alias == "javascript"@ || alias == "js"@ || alias == ".js"@ {
        Some(TargetLanguage::Javascript)
    } else if alias == "shell"@ || alias == "sh"@ || alias == ".sh"@ || alias == "zsh"@ || alias
        == "bash"@ {
        Some(TargetLanguage::Shell)
    } else {
        None
    }
}

/// What parsing `query` gives: the language of its lowercase form, or the
/// failure that says there is none.
pub open spec fn parsed(query: Seq<char>) -> Result<TargetLanguage, HtmlRenderingError> {
    match alias_language(lowercase(query)) {
        Some(language) => Ok(language),
        None => Err(HtmlRenderingError::LanguageParserNotImplemented),
    }
}

/// What parsing `query` gives when `default` stands in for a failure.
pub open spec fn parsed_or(query: Seq<char>, default: TargetLanguage) -> TargetLanguage {
    match alias_language(lowercase(query)) {
        Some(language) => language,
        None => default,
    }
}

impl TargetLanguage {
    /// The file extension of the language, dot included.
    pub open spec fn extension_text(self) -> Option<Seq<char>> {
        match self {
            TargetLanguage::Rust => Some(".rs"@),
            TargetLanguage::Yaml => Some(".yml"@),
            TargetLanguage::Python => Some(".py"@),
            TargetLanguage::Json => Some(".json"@),
            TargetLanguage::Javascript => Some(".js"@),
            TargetLanguage::Shell => Some(".sh"@),
            TargetLanguage::Html => Some(".html"@),
            TargetLanguage::Toml => Some(".toml"@),
        }
    }

    /// The file name of the compiled grammar of the language.
    pub open spec fn soname_text(self) -> Option<Seq<char>> {
        match self {
            TargetLanguage::Rust => Some("rust.so"@),
            TargetLanguage::Yaml => Some("yaml.so"@),
            TargetLanguage::Python => Some("python.so"@),
            TargetLanguage::Json => Some("json.so"@),
            TargetLanguage::Javascript => Some("javascript.so"@),
            TargetLanguage::Shell => Some("shell.so"@),
            TargetLanguage::Html => Some("html.so"@),
            TargetLanguage::Toml => Some("toml.so"@),
        }
    }

    /// The address of the repository that holds the grammar of the language.
    pub open spec fn git_repo_text(self) -> Option<Seq<char>> {
        match self {
            TargetLanguage::Rust => Some("https://github.com/tree-sitter/tree-sitter-rust.git"@),
            TargetLanguage::Yaml => Some(
                "https://github.com/tree-sitter-grammars/tree-sitter-yaml.git"@,
            ),
            TargetLanguage::Python => Some(
                "https://github.com/tree-sitter/tree-sitter-python.git"@,
            ),
            TargetLanguage::Json => Some("https://github.com/tree-sitter/tree-sitter-json.git"@),
            TargetLanguage::Javascript => Some(
                "https://github.com/tree-sitter/tree-sitter-javascript.git"@,
            ),
            TargetLanguage::Shell => Some("https://github.com/tree-sitter/tree-sitter-bash.git"@),
            TargetLanguage::Html => Some("https://github.com/tree-sitter/tree-sitter-html.git"@),
            TargetLanguage::Toml => Some("https://github.com/ikatyang/tree-sitter-toml.git"@),
        }
    }

    /// The lowercase name of the language.
    pub open spec fn name_text(self) -> Seq<char> {
        match self {
            TargetLanguage::Rust => "rust"@,
            TargetLanguage::Yaml => "yaml"@,
            TargetLanguage::Python => "python"@,
            TargetLanguage::Json => "json"@,
            TargetLanguage::Javascript => "javascript"@,
            TargetLanguage::Shell => "shell"@,
            TargetLanguage::Html => "html"@,
            TargetLanguage::Toml => "toml"@,
        }
    }

    /// Retrieve the file extension associated with the language.
    pub fn extension(&self) -> (extension: Option<&'static str>)
        ensures
            text_of(extension) == self.extension_text(),
    {
        match self {
            Self::Rust => Some(".rs"),
            Self::Yaml => Some(".yml"),
            Self::Python => Some(".py"),
            Self::Json => Some(".json"),
            Self::Javascript => Some(".js"),
            Self::Shell => Some(".sh"),
            Self::Html => Some(".html"),
            Self::Toml => Some(".toml"),
        }
    }

    /// Get the name of the dynamic library associated with the language.
    pub fn soname(&self) -> (soname: Option<&'static str>)
        ensures
            text_of(soname) == self.soname_text(),
    {
        match self {
            Self::Rust => Some("rust.so"),
            Self::Yaml => Some("yaml.so"),
            Self::Python => Some("python.so"),
            Self::Json => Some("json.so"),
            Self::Javascript => Some("javascript.so"),
            Self::Shell => Some("shell.so"),
            Self::Html => Some("html.so"),
            Self::Toml => Some("toml.so"),
        }
    }

    /// Find the git repository associated with the language.
    pub fn git_repo(&self) -> (url: Option<&'static str>)
        ensures
            text_of(url) == self.git_repo_text(),
    {
        match self {
            Self::Rust => Some("https://github.com/tree-sitter/tree-sitter-rust.git"),
            Self::Yaml => Some("https://github.com/tree-sitter-grammars/tree-sitter-yaml.git"),
            Self::Python => Some("https://github.com/tree-sitter/tree-sitter-python.git"),
            Self::Json => Some("https://github.com/tree-sitter/tree-sitter-json.git"),
            Self::Javascript => Some("https://github.com/tree-sitter/tree-sitter-javascript.git"),
            Self::Shell => Some("https://github.com/tree-sitter/tree-sitter-bash.git"),
            Self::Html => Some("https://github.com/tree-sitter/tree-sitter-html.git"),
            Self::Toml => Some("https://github.com/ikatyang/tree-sitter-toml.git"),
        }
    }

    /// The language that `alias`, an alias already in lowercase, stands for.
    pub fn from_alias(alias: &str) -> (language: Option<TargetLanguage>)
        ensures
            language == alias_language(alias@),
    {
        if same_text(alias, "rust") || same_text(alias, "rs") || same_text(alias, ".rs") {
            Some(Self::Rust)
        } else if same_text(alias, "python") || same_text(alias, "py") || same_text(alias, ".py") {
            Some(Self::Python)
        } else if same_text(alias, "json") || same_text(alias, ".json") {
            Some(Self::Json)
        } else if same_text(alias, "yaml") || same_text(alias, ".yaml") || same_text(alias, ".yml")
            || same_text(alias, "yml") {
            Some(Self::Yaml)
        } else if same_text(alias, "toml") || same_text(alias, ".toml") {
            Some(Self::Toml)
        } else if same_text(alias, "html") || same_text(alias, ".html") {
            Some(Self::Html)
        } else if same_text(alias, "javascript") || same_text(alias, "js") || same_text(
            alias,
            ".js",
        ) {
            Some(Self::Javascript)
        } else if same_text(alias, "shell") || same_text(alias, "sh") || same_text(alias, ".sh")
            || same_text(alias, "zsh") || same_text(alias, "bash") {
            Some(Self::Shell)
        } else {
            None
        }
    }

    /// Parses the name of a language, one of its aliases or one of its file
    /// extensions, in any mix of capitals and small letters.
    pub fn from_str(s: &str) -> (language: Result<TargetLanguage, HtmlRenderingError>)
        ensures
            language == parsed(s@),
    {
        let query: String = to_lowercase(s);
        match Self::from_alias(query.as_str()) {
            Some(language) => Ok(language),
            None => Err(HtmlRenderingError::LanguageParserNotImplemented),
        }
    }

    /// Try to parse a query string as a target language. Where the query
    /// names no language, the caller gets back the default they provided.
    pub fn parse_or_default(query: &str, default: Self) -> (language: TargetLanguage)
        ensures
            language == parsed_or(query@, default),
            parsed(query@) is Ok ==> Ok::<TargetLanguage, HtmlRenderingError>(language) == parsed(
                query@,
            ),
            parsed(query@) is Err ==> language == default,
    {
        match Self::from_str(query) {
            Ok(language) => language,
            Err(_) => default,
        }
    }
}

/// What the spellings of the aliases and extensions amount to, worked out
/// once for the laws below.
proof fn lemma_alias_table(alias: Seq<char>)
    ensures
        alias_language(alias) is Some ==> is_plain_lowercase(alias),
        alias_language(seq!['.'] + alias) is Some ==> alias_language(alias) == alias_language(
            seq!['.'] + alias,
        ),
        forall|language: TargetLanguage|
            alias_language(#[trigger] language.name_text()) == Some(language),
        forall|language: TargetLanguage|
            {
                &&& (#[trigger] language.extension_text()) is Some
                &&& language.extension_text()->0.len() > 1
                &&& language.extension_text()->0[0] == '.'
                &&& alias_language(language.extension_text()->0) == Some(language)
            },
{
    reveal_strlit("rust");
    reveal_strlit("rs");
    reveal_strlit(".rs");
    reveal_strlit("python");
    reveal_strlit("py");
    reveal_strlit(".py");
    reveal_strlit("json");
    reveal_strlit(".json");
    reveal_strlit("yaml");
    reveal_strlit(".yaml");
    reveal_strlit(".yml");
    reveal_strlit("yml");
    reveal_strlit("toml");
    reveal_strlit(".toml");
    reveal_strlit("html");
    reveal_strlit(".html");
    reveal_strlit("javascript");
    reveal_strlit("js");
    reveal_strlit(".js");
    reveal_strlit("shell");
    reveal_strlit("sh");
    reveal_strlit(".sh");
    reveal_strlit("zsh");
    reveal_strlit("bash");
    assert("rust"@[0] == 'r' && "rs"@[0] == 'r' && "python"@[0] == 'p' && "py"@[0] == 'p');
    assert("json"@[0] == 'j' && "yaml"@[0] == 'y' && "yml"@[0] == 'y' && "toml"@[0] == 't');
    assert("html"@[0] == 'h' && "javascript"@[0] == 'j' && "js"@[0] == 'j');
    assert("shell"@[0] == 's' && "sh"@[0] == 's' && "zsh"@[0] == 'z' && "bash"@[0] == 'b');
    assert(".rs"@[0] == '.' && ".py"@[0] == '.' && ".json"@[0] == '.' && ".yaml"@[0] == '.');
    assert(".yml"@[0] == '.' && ".toml"@[0] == '.' && ".html"@[0] == '.' && ".js"@[0] == '.');
    assert(".sh"@[0] == '.');
    assert(".rs"@[1] == 'r' && ".py"@[1] == 'p' && ".js"@[1] == 'j' && ".sh"@[1] == 's');
    assert(".json"@[1] == 'j' && ".yaml"@[1] == 'y' && ".toml"@[1] == 't' && ".html"@[1] == 'h');
    assert("javascript"@.len() == 10);
    assert(".js"@.len() == 3);
    let dotted = seq!['.'] + alias;
    if alias_language(dotted) is Some {
        assert(dotted[0] == '.');
        assert(alias =~= dotted.subrange(1, dotted.len() as int));
        if dotted == ".rs"@ {
            assert(alias =~= "rs"@);
        } else if dotted == ".py"@ {
            assert(alias =~= "py"@);
        } else if dotted == ".json"@ {
            assert(alias =~= "json"@);
        } else if dotted == ".yaml"@ {
            assert(alias =~= "yaml"@);
        } else if dotted == ".yml"@ {
            assert(alias =~= "yml"@);
        } else if dotted == ".toml"@ {
            assert(alias =~= "toml"@);
        } else if dotted == ".html"@ {
            assert(alias =~= "html"@);
        } else if dotted == ".js"@ {
            assert(alias =~= "js"@);
        } else if dotted == ".sh"@ {
            assert(alias =~= "sh"@);
        }
    }
}

/// Every language has an extension: a dot and at least one character more.
pub proof fn lemma_extensions_are_not_empty(language: TargetLanguage)
    ensures
        language.extension_text() is Some,
        language.extension_text()->0.len() > 1,
        language.extension_text()->0[0] == '.',
{
    lemma_alias_table(Seq::empty());
}

/// The extension of a language parses back to that language, whatever
/// default is given.
pub proof fn lemma_extension_parses_back(language: TargetLanguage, default: TargetLanguage)
    ensures
        language.extension_text() is Some,
        parsed_or(language.extension_text()->0, default) == language,
        parsed(language.extension_text()->0) == Ok::<TargetLanguage, HtmlRenderingError>(
            language,
        ),
{
    let extension = language.extension_text()->0;
    lemma_alias_table(extension);
    lemma_lowercase_keeps_plain_text(extension);
}

/// No two languages share an extension, so a grammar looked up by the
/// extension of one language is never that of another.
pub proof fn lemma_extensions_are_distinct(one: TargetLanguage, other: TargetLanguage)
    requires
        one != other,
    ensures
        one.extension_text() != other.extension_text(),
{
    lemma_alias_table(Seq::empty());
}

/// Every alias is written in small letters and dots, and the name of each
/// language is an alias of that language.
pub proof fn lemma_aliases_are_plain(alias: Seq<char>)
    ensures
        alias_language(alias) is Some ==> is_plain_lowercase(alias),
        forall|language: TargetLanguage|
            alias_language(#[trigger] language.name_text()) == Some(language),
{
    lemma_alias_table(alias);
}

/// Parsing does not look at the case of ASCII letters. A query that, written
/// in small letters, is a known alias parses to the language of that alias,
/// whatever default is given, and the lowercase name of that language parses
/// to the same language.
pub proof fn lemma_parsing_ignores_case(query: Seq<char>, default: TargetLanguage)
    requires
        alias_language(ascii_lowercase(query)) is Some,
    ensures
        parsed_or(query, default) == alias_language(ascii_lowercase(query))->0,
        parsed_or(parsed_or(query, default).name_text(), default) == parsed_or(query, default),
        parsed(query) == Ok::<TargetLanguage, HtmlRenderingError>(parsed_or(query, default)),
{
    lemma_aliases_are_plain(ascii_lowercase(query));
    lemma_lowercase_to_plain_text(query);
    let language = parsed_or(query, default);
    lemma_aliases_are_plain(language.name_text());
    lemma_lowercase_keeps_plain_text(language.name_text());
}

/// An alias that begins with a dot names the same language as the alias
/// without the dot.
pub proof fn lemma_leading_dot_is_optional(alias: Seq<char>)
    requires
        alias_language(seq!['.'] + alias) is Some,
    ensures
        alias_language(alias) == alias_language(seq!['.'] + alias),
{
    lemma_alias_table(alias);
}

/// Parsing does not look at a leading dot either. A query that begins with
/// a dot and names a language, in any mix of capitals and small letters,
/// names the same language without the dot.
pub proof fn lemma_parsing_ignores_leading_dot(query: Seq<char>, default: TargetLanguage)
    requires
        alias_language(ascii_lowercase(seq!['.'] + query)) is Some,
    ensures
        parsed_or(query, default) == parsed_or(seq!['.'] + query, default),
        parsed(query) == parsed(seq!['.'] + query),
        parsed(query) is Ok,
{
    let dotted = seq!['.'] + query;
    assert(ascii_lowercase(dotted) =~= seq!['.'] + ascii_lowercase(query));
    lemma_leading_dot_is_optional(ascii_lowercase(query));
    lemma_parsing_ignores_case(dotted, default);
    lemma_parsing_ignores_case(query, default);
}

/// A query that names no language parses to the default, never to a failure.
pub proof fn lemma_unknown_query_gives_default(query: Seq<char>, default: TargetLanguage)
    requires
        alias_language(lowercase(query)) is None,
    ensures
        parsed_or(query, default) == default,
        parsed(query) == Err::<TargetLanguage, HtmlRenderingError>(
            HtmlRenderingError::LanguageParserNotImplemented,
        ),
{
}

/// The characters of a piece of text that may be missing.
pub open spec fn text_of(text: Option<&'static str>) -> Option<Seq<char>> {
    match text {
        Some(text) => Some(text@),
        None => None,
    }
}

impl std::str::FromStr for TargetLanguage {
    type Err = HtmlRenderingError;

    /// Parses as [`TargetLanguage::from_str`] does.
    fn from_str(s: &str) -> (language: Result<Self, Self::Err>)
        ensures
            language == parsed(s@),
    {
        TargetLanguage::from_str(s)
    }
}

} // verus!
