//! The failures that the library itself reports.
use vstd::prelude::*;
use vstd::string::StringExecFns;

verus! {

/// Why a rendering could not be produced.
#[non_exhaustive]
#[derive(Debug, Clone, Copy, PartialEq, Eq, Structural)]
pub enum HtmlRenderingError {
    /// The compiled grammar is not in the cache, or the cache cannot be
    /// located because the home directory is unknown.
    SharedLibDoesntExist,
    /// The language has no entry for what was asked of it.
    LanguageParserNotImplemented,
}

impl HtmlRenderingError {
    /// The text of [`HtmlRenderingError::message`].
    pub open spec fn message_text(self) -> Seq<char> {
        match self {
            HtmlRenderingError::SharedLibDoesntExist =>
                "Could not find shared library for language parser"@,
            HtmlRenderingError::LanguageParserNotImplemented => "Language is not imported"@,
        }
    }

    /// A sentence for the person reading the error.
    pub fn message(&self) -> (text: String)
        ensures
            text@ == self.message_text(),
    {
        match self {
            HtmlRenderingError::SharedLibDoesntExist => String::from_str(
                "Could not find shared library for language parser",
            ),
            HtmlRenderingError::LanguageParserNotImplemented => String::from_str(
                "Language is not imported",
            ),
        }
    }
}

} // verus!
