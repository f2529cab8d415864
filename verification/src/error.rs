//! Error taxonomy of the styling and clipping core.

use vstd::prelude::*;

verus! {

/// How a property value failed: either its syntax matched no
/// alternative of the property's grammar (which includes a numeral too
/// long for magnitudes to stay exact), or a syntactically valid token
/// failed semantic validation — an empty family name, an integer
/// weight outside the accepted table.
#[derive(Clone, Copy, Debug, PartialEq, Eq, Structural)]
pub enum ValueErrorKind {
    Syntax,
    Semantic,
}

/// A property-parsing failure, carrying the kind of failure and the
/// character position of the offending token in the parsed text.
#[derive(Clone, Copy, Debug, PartialEq, Eq, Structural)]
pub struct CssParseError {
    pub kind: ValueErrorKind,
    pub pos: usize,
}

impl CssParseError {
    pub fn syntax_at(pos: usize) -> (r: CssParseError)
        ensures
            r == (CssParseError { kind: ValueErrorKind::Syntax, pos }),
    {
        CssParseError { kind: ValueErrorKind::Syntax, pos }
    }

    pub fn semantic_at(pos: usize) -> (r: CssParseError)
        ensures
            r == (CssParseError { kind: ValueErrorKind::Semantic, pos }),
    {
        CssParseError { kind: ValueErrorKind::Semantic, pos }
    }
}

/// A failure reported by the external painting collaborator. It is
/// opaque to this core: the code is forwarded unchanged and never
/// interpreted here.
#[derive(Clone, Copy, Debug, PartialEq, Eq, Structural)]
pub struct RenderingError {
    pub code: u32,
}

} // verus!
