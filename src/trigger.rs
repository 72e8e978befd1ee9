//! Finding the search query in a chat message.

use vstd::prelude::*;

verus! {

/// The token that marks a search request: `!image`.
pub open spec fn trigger_token() -> Seq<char> {
    seq!['!', 'i', 'm', 'a', 'g', 'e']
}

/// The token starts at position `i` of `s`.
pub open spec fn token_at(s: Seq<char>, i: int) -> bool {
    0 <= i && i + 6 <= s.len() && s.subrange(i, i + 6) == trigger_token()
}

/// `s` holds the token somewhere.
pub open spec fn contains_token(s: Seq<char>) -> bool {
    exists|i: int| token_at(s, i)
}

/// The pieces of `s` between occurrences of the token, as `str::split` gives
/// them, for a scan that stands at `pos` with the current piece begun at `start`.
pub open spec fn split_from(s: Seq<char>, start: int, pos: int) -> Seq<Seq<char>>
    decreases s.len() - pos,
{
    if pos < 0 || pos + 6 > s.len() {
        seq![s.subrange(start, s.len() as int)]
    } else if token_at(s, pos) {
        seq![s.subrange(start, pos)] + split_from(s, pos + 6, pos + 6)
    } else {
        split_from(s, start, pos + 1)
    }
}

/// The pieces of `s` between occurrences of the token.
pub open spec fn segments(s: Seq<char>) -> Seq<Seq<char>> {
    split_from(s, 0, 0)
}

/// The first piece of `segs` that is not empty.
pub open spec fn first_nonempty(segs: Seq<Seq<char>>) -> Option<Seq<char>>
    decreases segs.len(),
{
    if segs.len() == 0 {
        None
    } else if segs[0].len() > 0 {
        Some(segs[0])
    } else {
        first_nonempty(segs.drop_first())
    }
}

/// The query that a message asks for: the first non-empty piece after the
/// text that comes before the first token.
pub open spec fn query_of(s: Seq<char>) -> Option<Seq<char>> {
    first_nonempty(segments(s).drop_first())
}

proof fn lemma_split_without_token(s: Seq<char>, start: int, pos: int)
    requires
        0 <= start <= pos <= s.len(),
        !contains_token(s),
    ensures
        split_from(s, start, pos) == seq![s.subrange(start, s.len() as int)],
    decreases s.len() - pos,
{
    if pos + 6 <= s.len() {
        assert(!token_at(s, pos));
        lemma_split_without_token(s, start, pos + 1);
    }
}

/// A message without the token asks for no query, so it leads to no search
/// and no reply.
pub proof fn lemma_no_token_no_query(s: Seq<char>)
    requires
        !contains_token(s),
    ensures
        query_of(s) is None,
{
    lemma_split_without_token(s, 0, 0);
    assert(segments(s).drop_first() =~= Seq::<Seq<char>>::empty());
}

/// Whether the token starts at `pos` of `s`.
fn token_starts_at(s: &str, pos: usize, end: usize) -> (b: bool)
    requires
        end == pos + 6,
        end <= s@.len(),
    ensures
        b == token_at(s@, pos as int),
{
    let t = s.substring_char(pos, end);
    proof {
        assert(t@.len() == 6);
    }
    let ok = t.get_char(0) == '!' && t.get_char(1) == 'i' && t.get_char(2) == 'm'
        && t.get_char(3) == 'a' && t.get_char(4) == 'g' && t.get_char(5) == 'e';
    proof {
        if ok {
            assert(t@ =~= trigger_token());
        } else {
            assert(t@ != trigger_token()) by {
                if t@ == trigger_token() {
                    assert(t@[0] == '!' && t@[1] == 'i' && t@[2] == 'm');
                    assert(t@[3] == 'a' && t@[4] == 'g' && t@[5] == 'e');
                }
            }
        }
    }
    ok
}

/// The query that `content` asks for, if any: the message is split on the
/// token, the piece before the first token is dropped, and the first
/// non-empty piece after it is returned as typed.
pub fn extract_query(content: &str) -> (r: Option<String>)
    ensures
        match r {
            Some(q) => query_of(content@) == Some(q@),
            None => query_of(content@) is None,
        },
        !contains_token(content@) ==> r is None,
{
    let ghost s = content@;
    proof {
        if !contains_token(s) {
            lemma_no_token_no_query(s);
        }
    }
    let n = content.unicode_len();
    let mut start: usize = 0;
    let mut pos: usize = 0;
    let mut first = true;
    while pos < n && n - pos >= 6
        invariant
            n == s.len(),
            s == content@,
            start <= pos <= n,
            first ==> start == 0,
            query_of(s) == (if first {
                first_nonempty(split_from(s, start as int, pos as int).drop_first())
            } else {
                first_nonempty(split_from(s, start as int, pos as int))
            }),
        decreases n - pos,
    {
        if token_starts_at(content, pos, pos + 6) {
            let ghost rest = split_from(s, pos + 6, pos + 6);
            assert(split_from(s, start as int, pos as int) == seq![
                s.subrange(start as int, pos as int),
            ] + rest);
            assert((seq![s.subrange(start as int, pos as int)] + rest).drop_first() =~= rest);
            if !first && pos > start {
                return Some(content.substring_char(start, pos).to_owned());
            }
            first = false;
            pos = pos + 6;
            start = pos;
        } else {
            pos = pos + 1;
        }
    }
    assert(split_from(s, start as int, pos as int) == seq![s.subrange(start as int, n as int)]);
    if !first && n > start {
        Some(content.substring_char(start, n).to_owned())
    } else {
        None
    }
}

} // verus!
