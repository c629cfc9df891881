use vstd::prelude::*;

use crate::text::push_char;

verus! {

/// `tokens` joined by `sep`, in order, with nothing before the first token or
/// after the last.
pub open spec fn spec_join(tokens: Seq<Seq<char>>, sep: Seq<char>) -> Seq<char>
    decreases tokens.len(),
{
    if tokens.len() == 0 {
        Seq::empty()
    } else if tokens.len() == 1 {
        tokens[0]
    } else {
        spec_join(tokens.drop_last(), sep) + sep + tokens.last()
    }
}

/// The one output line: the tokens joined by `'|'`, wrapped in parentheses.
pub open spec fn spec_format(tokens: Seq<Seq<char>>) -> Seq<char> {
    seq!['('] + spec_join(tokens, seq!['|']) + seq![')']
}

/// Concatenates the move tokens, in the exact order given, separated by `'|'`
/// and wrapped in `'('` and `')'`. No token is reordered, dropped or repeated;
/// an empty sequence of tokens yields exactly `"()"`.
pub fn format_tokens(tokens: &Vec<String>) -> (r: String)
    ensures
        r@ == spec_format(tokens@.map_values(|t: String| t@)),
        tokens@.len() == 0 ==> r@ == "()"@,
{
    let ghost views = tokens@.map_values(|t: String| t@);
    let mut out = String::new();
    push_char(&mut out, '(');
    let mut i: usize = 0;
    while i < tokens.len()
        invariant
            0 <= i <= tokens.len(),
            views == tokens@.map_values(|t: String| t@),
            out@ == seq!['('] + spec_join(views.take(i as int), seq!['|']),
        decreases tokens.len() - i,
    {
        if i != 0 {
            push_char(&mut out, '|');
        }
        out.append(tokens[i].as_str());
        proof {
            let taken = views.take(i + 1 as int);
            assert(taken.drop_last() =~= views.take(i as int));
            assert(taken.last() == views[i as int]);
            if i == 0 {
                assert(spec_join(taken, seq!['|']) =~= views[0]);
            }
            assert(out@ =~= seq!['('] + spec_join(taken, seq!['|']));
        }
        i += 1;
    }
    push_char(&mut out, ')');
    proof {
        assert(views.take(tokens@.len() as int) =~= views);
        assert(out@ =~= spec_format(views));
        if tokens@.len() == 0 {
            reveal_strlit("()");
            assert(out@ =~= "()"@);
        }
    }
    out
}

/// Formatting keeps enumeration order: two tokens come out with the first
/// before the separator and the second after it, never the reverse.
pub proof fn lemma_format_two_tokens(t1: Seq<char>, t2: Seq<char>)
    ensures
        spec_format(seq![t1, t2]) == seq!['('] + t1 + seq!['|'] + t2 + seq![')'],
{
    let pair = seq![t1, t2];
    assert(pair.drop_last() =~= seq![t1]);
    assert(pair.last() == t2);
    assert(spec_join(seq![t1], seq!['|']) == t1);
    assert(spec_join(pair, seq!['|']) =~= t1 + seq!['|'] + t2);
    assert(spec_format(pair) =~= seq!['('] + t1 + seq!['|'] + t2 + seq![')']);
}

} // verus!
