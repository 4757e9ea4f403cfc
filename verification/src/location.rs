//! Source locations recorded for diagnostics.

use vstd::prelude::*;
use vstd::string::*;

verus! {

/// A source position: file, line and column.  Recorded when a promise is
/// registered and reported when its resolution fails.
#[derive(Debug)]
pub struct FileSpan {
    /// The file the promise was declared in.
    pub file: String,
    /// One-based line of the declaration.
    pub line: u64,
    /// One-based column of the declaration.
    pub column: u64,
}

impl FileSpan {
    /// The `file:line:column` rendering of this location.
    pub open spec fn spec_render(self) -> Seq<char> {
        self.file@ + seq![':'] + crate::text::spec_decimal(self.line as nat) + seq![':']
            + crate::text::spec_decimal(self.column as nat)
    }

    /// Renders this location as `file:line:column`.
    pub fn render(&self) -> (r: String)
        ensures
            r@ == self.spec_render(),
    {
        let mut out = String::new();
        out.append(self.file.as_str());
        out.append(":");
        crate::text::append_decimal(&mut out, self.line);
        out.append(":");
        crate::text::append_decimal(&mut out, self.column);
        proof {
            reveal_strlit(":");
            assert(":"@ =~= seq![':']);
            assert(out@ =~= self.spec_render());
        }
        out
    }
}

impl Clone for FileSpan {
    fn clone(&self) -> (r: Self)
        ensures
            r == *self,
    {
        FileSpan { file: self.file.clone(), line: self.line, column: self.column }
    }
}

/// Copies an optional location; resolution keeps the registry's copy and
/// hands an equal one to the diagnostic.
pub fn clone_location(l: &Option<FileSpan>) -> (r: Option<FileSpan>)
    ensures
        r == *l,
{
    match l {
        None => None,
        Some(f) => Some(f.clone()),
    }
}

} // verus!
