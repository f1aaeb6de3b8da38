//! Values that remember where in a file they were read.

use vstd::prelude::*;

verus! {

/// A stretch of a source text, in bytes.
#[derive(Debug, PartialEq, Eq, Clone, Copy, Structural)]
pub struct SourceSpan {
    pub offset: usize,
    pub length: usize,
}

/// A source text with the name under which it is shown.
#[derive(Debug, PartialEq, Eq)]
pub struct NamedSource {
    pub name: String,
    pub source: String,
}

/// A string read from a file, with its place in that file as far as it is known.
#[derive(Debug, PartialEq, Eq)]
pub struct Spanned {
    pub value: String,
    pub span: Option<SourceSpan>,
    pub path: Option<String>,
    pub text: Option<String>,
}

impl Spanned {
    /// Whether both the place of the value and the text around it are known.
    pub open spec fn is_located(self) -> bool {
        self.span is Some && self.text is Some
    }

    /// The place that is shown for the value.
    pub open spec fn shown_span(self) -> Option<SourceSpan> {
        if self.is_located() {
            self.span
        } else {
            None
        }
    }

    /// The name of the file that is shown for the value.
    pub open spec fn shown_name(self, default_path: Seq<char>) -> Seq<char> {
        match self.path {
            Some(path) => path@,
            None => default_path,
        }
    }

    /// The text that is shown around the value.
    pub open spec fn shown_text(self) -> Seq<char> {
        if self.is_located() {
            self.text->0@
        } else {
            Seq::empty()
        }
    }

    /// A value whose place is not known.
    pub fn new(value: String) -> (spanned: Spanned)
        ensures
            spanned.value == value,
            spanned.span is None,
            spanned.path is None,
            spanned.text is None,
    {
        Spanned { value, span: None, path: None, text: None }
    }

    /// The place of the value and the text around it, for an error message. `default_path` names
    /// the text if the file is not known.
    pub fn span_and_text(&self, default_path: &str) -> (shown: (Option<SourceSpan>, NamedSource))
        ensures
            shown.0 == self.shown_span(),
            shown.1.name@ == self.shown_name(default_path@),
            shown.1.source@ == self.shown_text(),
            self.span is Some && self.text is Some ==> {
                &&& shown.0 == self.span
                &&& shown.1.source@ == self.text->0@
            },
            self.span is None || self.text is None ==> {
                &&& shown.0 is None
                &&& shown.1.source@.len() == 0
            },
            self.path is Some ==> shown.1.name@ == self.path->0@,
            self.path is None ==> shown.1.name@ == default_path@,
    {
        let name = match &self.path {
            Some(path) => path.clone(),
            None => default_path.to_owned(),
        };
        match (&self.span, &self.text) {
            (Some(span), Some(text)) => (
                Some(*span),
                NamedSource { name, source: text.clone() },
            ),
            _ => (None, NamedSource { name, source: String::new() }),
        }
    }
}

/// A place is shown together with the text that it lies in, or neither of them is; the file is
/// named as far as it is known.
pub proof fn lemma_place_and_text_are_shown_together(spanned: Spanned, default_path: Seq<char>)
    ensures
        spanned.span is Some && spanned.text is Some ==> {
            &&& spanned.shown_span() == spanned.span
            &&& spanned.shown_text() == spanned.text->0@
        },
        spanned.span is None || spanned.text is None ==> {
            &&& spanned.shown_span() is None
            &&& spanned.shown_text().len() == 0
        },
        spanned.path matches Some(path) ==> spanned.shown_name(default_path) == path@,
        spanned.path is None ==> spanned.shown_name(default_path) == default_path,
{
}

} // verus!
