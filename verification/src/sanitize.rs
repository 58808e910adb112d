use vstd::prelude::*;
use vstd::string::*;

verus! {

/// A character that is stripped before a reply is parsed: the Unicode
/// control characters, i.e. the C0 range, DEL, and the C1 range.
pub open spec fn is_control_char(c: char) -> bool {
    (c as u32) < 0x20 || (0x7f <= (c as u32) && (c as u32) < 0xa0)
}

/// Relies on String::push: appends one character at the end of the string.
#[verifier::external_body]
fn push_char(s: &mut String, c: char)
    ensures
        final(s)@ == old(s)@.push(c),
{
    s.push(c);
}

/// Sanitized text: the input with every control character dropped and all
/// other characters kept in order.
pub open spec fn sanitized(s: Seq<char>) -> Seq<char> {
    s.filter(|c: char| !is_control_char(c))
}

fn is_control(c: char) -> (r: bool)
    ensures
        r == is_control_char(c),
{
    let u = c as u32;
    u < 0x20 || (0x7f <= u && u < 0xa0)
}

/// Drops every control character from the input and keeps all other
/// characters in their original order.
pub fn sanitize_string(input: &str) -> (r: String)
    ensures
        r@ == sanitized(input@),
{
    let n: usize = input.unicode_len();
    let mut out: String = String::new();
    let mut i: usize = 0;
    while i < n
        invariant
            i <= n,
            n == input@.len(),
            out@ == sanitized(input@.subrange(0, i as int)),
        decreases n - i,
    {
        let c = input.get_char(i);
        if !is_control(c) {
            push_char(&mut out, c);
        }
        proof {
            reveal(Seq::filter);
            let p = |c: char| !is_control_char(c);
            let pre = input@.subrange(0, i as int);
            assert(input@.subrange(0, (i + 1) as int) =~= pre.push(c));
            assert(pre.push(c).drop_last() =~= pre);
            assert(pre.push(c).last() == c);
            assert(pre.push(c).filter(p) == if p(c) {
                pre.filter(p).push(c)
            } else {
                pre.filter(p)
            });
        }
        i = i + 1;
    }
    proof {
        assert(input@.subrange(0, n as int) =~= input@);
    }
    out
}

/// Law: sanitized text holds no control character.
pub proof fn lemma_sanitized_has_no_controls(s: Seq<char>)
    ensures
        forall|i: int|
            0 <= i < sanitized(s).len() ==> !is_control_char(#[trigger] sanitized(s)[i]),
{
    broadcast use vstd::seq_lib::group_filter_ensures;

}

proof fn lemma_filter_of_clean(s: Seq<char>)
    requires
        forall|i: int| 0 <= i < s.len() ==> !is_control_char(#[trigger] s[i]),
    ensures
        sanitized(s) == s,
    decreases s.len(),
{
    reveal(Seq::filter);
    let p = |c: char| !is_control_char(c);
    if s.len() == 0 {
        assert(s.filter(p) =~= s);
    } else {
        assert(forall|i: int| 0 <= i < s.drop_last().len() ==> !is_control_char(
            #[trigger] s.drop_last()[i],
        ));
        lemma_filter_of_clean(s.drop_last());
        assert(s.filter(p) =~= s);
    }
}

/// Law: sanitizing is idempotent; text already free of control characters
/// comes back unchanged, so a second pass changes nothing.
pub proof fn lemma_sanitize_idempotent(s: Seq<char>)
    ensures
        sanitized(sanitized(s)) == sanitized(s),
{
    lemma_sanitized_has_no_controls(s);
    lemma_filter_of_clean(sanitized(s));
}

} // verus!
