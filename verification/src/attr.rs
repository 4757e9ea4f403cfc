//! The attribute form of a promise artifact.
//!
//! When a promise artifact is passed as an attribute value into a
//! sub-target invocation it travels as this immutable descriptor: the
//! identifier plus an optional asserted short path.  Equality and hashing
//! cover both fields, so the attribute can key maps and memoized analyses.

use vstd::prelude::*;
use vstd::string::*;
use crate::artifact::PromiseArtifactId;
use crate::short_path::ShortPath;
use crate::text::spec_decimal;

verus! {

/// Whether two optional asserted short paths agree.
pub open spec fn spec_opt_path_eq(a: Option<ShortPath>, b: Option<ShortPath>) -> bool {
    match (a, b) {
        (Option::None, Option::None) => true,
        (Option::Some(x), Option::Some(y)) => x@ == y@,
        _ => false,
    }
}

/// An immutable, comparable descriptor of a promise artifact used as an
/// attribute value: the identifier, and the short path the consumer
/// asserts for it, if any.
#[derive(Debug, Hash)]
pub struct PromiseArtifactAttr {
    /// The identifier of the promised artifact.
    pub id: PromiseArtifactId,
    /// The consumer's asserted short path, checked at resolution.
    pub short_path: Option<ShortPath>,
}

impl PromiseArtifactAttr {
    /// The human-readable rendering, used only for diagnostics and debug
    /// output.
    pub open spec fn spec_render(self) -> Seq<char> {
        let base = "<promise artifact attr (id = "@ + spec_decimal(self.id.value as nat) + ")"@;
        match self.short_path {
            None => base + ">"@,
            Some(p) => base + " with short_path `"@ + p@ + "`"@ + ">"@,
        }
    }

    /// Renders the attribute for diagnostics.
    pub fn render(&self) -> (r: String)
        ensures
            r@ == self.spec_render(),
    {
        let mut out = String::new();
        out.append("<promise artifact attr (id = ");
        crate::text::append_decimal(&mut out, self.id.value);
        out.append(")");
        match &self.short_path {
            None => {},
            Some(p) => {
                out.append(" with short_path `");
                out.append(p.as_str());
                out.append("`");
            },
        }
        out.append(">");
        proof {
            assert(out@ =~= self.spec_render());
        }
        out
    }
}

impl Clone for PromiseArtifactAttr {
    fn clone(&self) -> (r: Self)
        ensures
            r == *self,
    {
        let short_path = match &self.short_path {
            None => None,
            Some(p) => Some(p.clone()),
        };
        PromiseArtifactAttr { id: self.id, short_path }
    }
}

impl PartialEq for PromiseArtifactAttr {
    fn eq(&self, other: &Self) -> (r: bool) {
        self.id == other.id && match (&self.short_path, &other.short_path) {
            (Option::None, Option::None) => true,
            (Option::Some(a), Option::Some(b)) => a == b,
            _ => false,
        }
    }
}

impl Eq for PromiseArtifactAttr {

}

impl vstd::std_specs::cmp::PartialEqSpecImpl for PromiseArtifactAttr {
    open spec fn obeys_eq_spec() -> bool {
        true
    }

    open spec fn eq_spec(&self, other: &Self) -> bool {
        self.id == other.id && spec_opt_path_eq(self.short_path, other.short_path)
    }
}

/// Equal concatenations whose first parts have equal length split into
/// equal parts.
proof fn lemma_concat_cancel(x1: Seq<char>, y1: Seq<char>, x2: Seq<char>, y2: Seq<char>)
    requires
        x1 + y1 == x2 + y2,
        x1.len() == x2.len(),
    ensures
        x1 == x2,
        y1 == y2,
{
    assert((x1 + y1).len() == x1.len() + y1.len());
    assert((x2 + y2).len() == x2.len() + y2.len());
    assert(y1.len() == y2.len());
    assert(x1 =~= x2) by {
        assert forall|i: int| 0 <= i < x1.len() implies x1[i] == x2[i] by {
            assert((x1 + y1)[i] == x1[i]);
            assert((x2 + y2)[i] == x2[i]);
        }
    }
    assert(y1 =~= y2) by {
        assert forall|i: int| 0 <= i < y1.len() implies y1[i] == y2[i] by {
            assert((x1 + y1)[x1.len() + i] == y1[i]);
            assert((x2 + y2)[x2.len() + i] == y2[i]);
        }
    }
}

/// The rendering determines the attribute: two attributes that render
/// alike agree on the identifier and on the asserted short path.
pub proof fn lemma_render_injective(a: PromiseArtifactAttr, b: PromiseArtifactAttr)
    requires
        a.spec_render() == b.spec_render(),
    ensures
        a.id == b.id,
        spec_opt_path_eq(a.short_path, b.short_path),
{
    let pre = "<promise artifact attr (id = "@;
    let da = spec_decimal(a.id.value as nat);
    let db = spec_decimal(b.id.value as nat);
    let ta: Seq<char> = match a.short_path {
        None => ">"@,
        Some(p) => " with short_path `"@ + p@ + "`"@ + ">"@,
    };
    let tb: Seq<char> = match b.short_path {
        None => ">"@,
        Some(p) => " with short_path `"@ + p@ + "`"@ + ">"@,
    };
    let ra = da + (")"@ + ta);
    let rb = db + (")"@ + tb);
    assert(a.spec_render() =~= pre + ra);
    assert(b.spec_render() =~= pre + rb);
    lemma_concat_cancel(pre, ra, pre, rb);
    crate::text::lemma_decimal_digits(a.id.value as nat);
    crate::text::lemma_decimal_digits(b.id.value as nat);
    reveal_strlit(")");
    // The character after the decimal is `)` on both sides, and decimals
    // hold digits only, so the decimal parts have equal length.
    if da.len() < db.len() {
        assert(ra[da.len() as int] == ')');
        assert(rb[da.len() as int] == db[da.len() as int]);
        assert(crate::text::spec_is_digit(db[da.len() as int]));
        assert(false);
    }
    if db.len() < da.len() {
        assert(rb[db.len() as int] == ')');
        assert(ra[db.len() as int] == da[db.len() as int]);
        assert(crate::text::spec_is_digit(da[db.len() as int]));
        assert(false);
    }
    lemma_concat_cancel(da, ")"@ + ta, db, ")"@ + tb);
    crate::text::lemma_decimal_injective(a.id.value as nat, b.id.value as nat);
    lemma_concat_cancel(")"@, ta, ")"@, tb);
    reveal_strlit(">");
    reveal_strlit(" with short_path `");
    reveal_strlit("`");
    match (a.short_path, b.short_path) {
        (Option::None, Option::None) => {},
        (Option::None, Option::Some(_)) => {
            assert(ta[0] == '>');
            assert(tb[0] == ' ');
            assert(false);
        },
        (Option::Some(_), Option::None) => {
            assert(tb[0] == '>');
            assert(ta[0] == ' ');
            assert(false);
        },
        (Option::Some(pa), Option::Some(pb)) => {
            let lit = " with short_path `"@;
            let suf = "`"@ + ">"@;
            assert(ta =~= lit + (pa@ + suf));
            assert(tb =~= lit + (pb@ + suf));
            lemma_concat_cancel(lit, pa@ + suf, lit, pb@ + suf);
            assert(pa@.len() == pb@.len());
            lemma_concat_cancel(pa@, suf, pb@, suf);
        },
    }
}

/// The rendering is a faithful image of the attribute: two attributes
/// render alike exactly when both the identifier and the asserted short
/// path agree.
pub proof fn lemma_render_eq_iff(a: PromiseArtifactAttr, b: PromiseArtifactAttr)
    ensures
        (a.spec_render() == b.spec_render()) <==> (a.id == b.id && spec_opt_path_eq(
            a.short_path,
            b.short_path,
        )),
{
    if a.spec_render() == b.spec_render() {
        lemma_render_injective(a, b);
    }
    if a.id == b.id && spec_opt_path_eq(a.short_path, b.short_path) {
        assert(a.spec_render() =~= b.spec_render());
    }
}

/// Two attributes are equal exactly when both the identifier and the
/// asserted short path agree.
pub proof fn lemma_attr_eq_iff(a: PromiseArtifactAttr, b: PromiseArtifactAttr)
    ensures
        vstd::std_specs::cmp::PartialEqSpec::eq_spec(&a, &b) <==> (a.id == b.id && spec_opt_path_eq(
            a.short_path,
            b.short_path,
        )),
{
}

} // verus!
