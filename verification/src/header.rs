//! The header splitter: from one raw `name:value` string to its two parts.

use crate::error::RequestError;
use vstd::prelude::*;

verus! {

/// The number of characters of `s` that stand before its first colon; the
/// whole length where `s` holds no colon.
pub open spec fn name_len(s: Seq<char>) -> int
    decreases s.len(),
{
    if s.len() == 0 || s[0] == ':' {
        0
    } else {
        1 + name_len(s.drop_first())
    }
}

/// `s` with every double-quote character taken out, the rest in order.
pub open spec fn without_quotes(s: Seq<char>) -> Seq<char>
    decreases s.len(),
{
    if s.len() == 0 {
        Seq::empty()
    } else if s.last() == '"' {
        without_quotes(s.drop_last())
    } else {
        without_quotes(s.drop_last()).push(s.last())
    }
}

/// The name and value of a raw header: what stands before the first colon
/// and what stands after it, each without its quote characters. A string
/// without a colon has no parts.
pub open spec fn header_parts(s: Seq<char>) -> Option<(Seq<char>, Seq<char>)> {
    let at = name_len(s);
    if at < s.len() {
        Some((without_quotes(s.subrange(0, at)), without_quotes(s.subrange(at + 1, s.len() as int))))
    } else {
        None
    }
}

/// `name_len` is the position of the first colon: the index up to which no
/// colon occurs and at which the string ends or a colon stands.
pub proof fn lemma_name_len_is_first_colon(s: Seq<char>, at: int)
    requires
        0 <= at <= s.len(),
        forall|j: int| 0 <= j < at ==> s[j] != ':',
        at == s.len() || s[at] == ':',
    ensures
        name_len(s) == at,
    decreases s.len(),
{
    if at > 0 {
        let rest = s.drop_first();
        assert forall|j: int| 0 <= j < at - 1 implies rest[j] != ':' by {
            assert(rest[j] == s[j + 1]);
        }
        lemma_name_len_is_first_colon(rest, at - 1);
    }
}

/// Copies the characters of `s` from `from` up to `to`, leaving out the
/// double quotes.
fn copy_without_quotes(s: &str, from: usize, to: usize) -> (out: String)
    requires
        from <= to <= s@.len(),
    ensures
        out@ == without_quotes(s@.subrange(from as int, to as int)),
{
    let mut out = String::new();
    let mut i: usize = from;
    while i < to
        invariant
            from <= i <= to <= s@.len(),
            out@ == without_quotes(s@.subrange(from as int, i as int)),
        decreases to - i,
    {
        let c = s.get_char(i);
        proof {
            let next = s@.subrange(from as int, i + 1);
            assert(next.drop_last() =~= s@.subrange(from as int, i as int));
            assert(next.last() == c);
        }
        if c != '"' {
            out.push(c);
        }
        i += 1;
    }
    out
}

/// Splits a raw header on its first colon into name and value, both with
/// their quote characters removed. A header without a colon is malformed.
pub fn split_header(header: &str) -> (res: Result<(String, String), RequestError>)
    ensures
        match res {
            Ok((name, value)) => header_parts(header@) == Some((name@, value@)),
            Err(e) => e == RequestError::MalformedHeader && header_parts(header@) is None,
        },
{
    let n: usize = header.unicode_len();
    let mut at: usize = 0;
    while at < n && header.get_char(at) != ':'
        invariant
            n == header@.len(),
            at <= n,
            forall|j: int| 0 <= j < at ==> header@[j] != ':',
        decreases n - at,
    {
        at += 1;
    }
    proof {
        lemma_name_len_is_first_colon(header@, at as int);
    }
    if at == n {
        return Err(RequestError::MalformedHeader);
    }
    let name = copy_without_quotes(header, 0, at);
    let value = copy_without_quotes(header, at + 1, n);
    Ok((name, value))
}

/// A header has parts exactly when it holds a colon.
pub proof fn lemma_parts_iff_colon(s: Seq<char>)
    ensures
        header_parts(s) is Some <==> s.contains(':'),
    decreases s.len(),
{
    if s.len() > 0 && s[0] != ':' {
        let rest = s.drop_first();
        lemma_parts_iff_colon(rest);
        if rest.contains(':') {
            let j = choose|j: int| 0 <= j < rest.len() && rest[j] == ':';
            assert(s[j + 1] == ':');
        }
        if s.contains(':') {
            let j = choose|j: int| 0 <= j < s.len() && s[j] == ':';
            assert(rest[j - 1] == ':');
        }
    } else if s.len() > 0 {
        assert(s[0] == ':');
    }
}

/// Splitting `name:value` gives back `name` and `value`, each without its
/// quote characters, whenever `name` itself holds no colon; `value` may hold
/// any.
pub proof fn lemma_split_of_joined(name: Seq<char>, value: Seq<char>)
    requires
        !name.contains(':'),
    ensures
        header_parts(name + seq![':'] + value) == Some((without_quotes(name), without_quotes(value))),
{
    let s = name + seq![':'] + value;
    let at = name.len() as int;
    assert forall|j: int| 0 <= j < at implies s[j] != ':' by {
        assert(s[j] == name[j]);
        assert(name.contains(name[j]));
    }
    assert(s[at] == ':');
    lemma_name_len_is_first_colon(s, at);
    assert(s.subrange(0, at) =~= name);
    assert(s.subrange(at + 1, s.len() as int) =~= value);
}

/// Text without quote characters is left as it is.
pub proof fn lemma_without_quotes_identity(s: Seq<char>)
    requires
        !s.contains('"'),
    ensures
        without_quotes(s) == s,
    decreases s.len(),
{
    if s.len() > 0 {
        let front = s.drop_last();
        assert(s.contains(s.last()));
        assert forall|j: int| 0 <= j < front.len() implies front[j] != '"' by {
            assert(s.contains(s[j]));
        }
        lemma_without_quotes_identity(front);
        assert(front.push(s.last()) =~= s);
    } else {
        assert(s =~= Seq::empty());
    }
}

} // verus!
