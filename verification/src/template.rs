//! Text with `${{ expression }}` templates: where the literal text ends and
//! each expression begins.
use vstd::prelude::*;
use crate::text::{chars_of, find_seq, find_seq_exec, lemma_find_seq, slice_range, string_of};

verus! {

/// A piece of a template text.
pub enum TemplatePart {
    /// Text taken as it is.
    Text(String),
    /// The text between `${{` and the next `}}`.
    Expr(String),
}

/// A part as a flag (an expression or not) and its text.
pub open spec fn part_view(p: TemplatePart) -> (bool, Seq<char>) {
    match p {
        TemplatePart::Text(t) => (false, t@),
        TemplatePart::Expr(e) => (true, e@),
    }
}

/// The views of a list of parts.
pub open spec fn parts_view(ps: Seq<TemplatePart>) -> Seq<(bool, Seq<char>)> {
    ps.map_values(|p: TemplatePart| part_view(p))
}

/// The parts of `s`: up to the first `${{`, the text before it; then, when
/// a `}}` closes it, the expression between them and the parts of what
/// follows the `}}`. Without a `${{`, or with one that nothing closes,
/// the rest is text.
pub open spec fn template_parts_spec(s: Seq<char>) -> Seq<(bool, Seq<char>)>
    decreases s.len(),
{
    match find_seq(s, "${{"@, 0) {
        None => seq![(false, s)],
        Some(i) => {
            let after = s.skip(i + 3);
            match find_seq(after, "}}"@, 0) {
                None => seq![(false, s)],
                Some(e) => {
                    proof {
                        reveal_strlit("${{");
                        reveal_strlit("}}");
                        lemma_find_seq(s, "${{"@, 0);
                        lemma_find_seq(after, "}}"@, 0);
                    }
                    seq![(false, s.take(i)), (true, after.take(e))] + template_parts_spec(after.skip(e + 2))
                },
            }
        },
    }
}

/// Splits a template text into its parts (see [`template_parts_spec`]).
pub fn template_parts(text: &str) -> (r: Vec<TemplatePart>)
    ensures
        parts_view(r@) == template_parts_spec(text@),
{
    let open: Vec<char> = chars_of("${{");
    let close: Vec<char> = chars_of("}}");
    proof {
        reveal_strlit("${{");
        reveal_strlit("}}");
    }
    assert(open@ =~= "${{"@);
    assert(close@ =~= "}}"@);
    let mut r: Vec<TemplatePart> = Vec::new();
    let mut rest = chars_of(text);
    loop
        invariant
            open@ == "${{"@,
            close@ == "}}"@,
            parts_view(r@) + template_parts_spec(rest@) == template_parts_spec(text@),
        decreases rest@.len(),
    {
        let ghost before = r@;
        let ghost s = rest@;
        proof {
            reveal_strlit("${{");
            reveal_strlit("}}");
        }
        match find_seq_exec(&rest, &open) {
            None => {
                r.push(TemplatePart::Text(string_of(&rest)));
                assert(parts_view(r@) =~= parts_view(before).push((false, s)));
                assert(template_parts_spec(s) == seq![(false, s)]);
                assert(parts_view(r@) =~= parts_view(before) + template_parts_spec(s));
                return r;
            },
            Some(i) => {
                proof { lemma_find_seq(s, "${{"@, 0); }
                let n = rest.len();
                assert(i + 3 <= n);
                let after = slice_range(&rest, i + 3, n);
                assert(after@ =~= s.skip(i + 3));
                match find_seq_exec(&after, &close) {
                    None => {
                        r.push(TemplatePart::Text(string_of(&rest)));
                        assert(parts_view(r@) =~= parts_view(before).push((false, s)));
                        assert(template_parts_spec(s) == seq![(false, s)]);
                        assert(parts_view(r@) =~= parts_view(before) + template_parts_spec(s));
                        return r;
                    },
                    Some(e) => {
                        proof { lemma_find_seq(after@, "}}"@, 0); }
                        let head = slice_range(&rest, 0, i);
                        let expr = slice_range(&after, 0, e);
                        let tail = slice_range(&after, e + 2, after.len());
                        assert(head@ =~= s.take(i as int));
                        assert(expr@ =~= after@.take(e as int));
                        assert(tail@ =~= after@.skip(e + 2));
                        r.push(TemplatePart::Text(string_of(&head)));
                        r.push(TemplatePart::Expr(string_of(&expr)));
                        assert(parts_view(r@) =~= parts_view(before) + seq![(false, s.take(i as int)), (true, after@.take(e as int))]);
                        assert(template_parts_spec(s) == seq![(false, s.take(i as int)), (true, after@.take(e as int))] + template_parts_spec(tail@));
                        assert(parts_view(r@) + template_parts_spec(tail@) =~= parts_view(before) + template_parts_spec(s));
                        rest = tail;
                    },
                }
            },
        }
    }
}

} // verus!
