use vstd::prelude::*;
use crate::text::{find_char, index_of, lemma_index_of_bound};

verus! {

/// Width, in characters, that a node name in a notification stays under.
pub const NODE_NAME_WIDTH: usize = 24;

/// The pieces of `s` between single spaces (empty pieces included).
pub open spec fn words(s: Seq<char>) -> Seq<Seq<char>>
    decreases s.len(),
{
    let i = index_of(s, ' ');
    if i < s.len() {
        seq![s.take(i as int)] + words(s.skip(i + 1 as int))
    } else {
        seq![s]
    }
}

/// Appends the words `ws` to `cur`, one space apart, while the text stays under the
/// width; a word that arrives while nothing is kept is kept whole.
pub open spec fn fit_words(cur: Seq<char>, ws: Seq<Seq<char>>) -> Seq<char>
    decreases ws.len(),
{
    if ws.len() == 0 {
        cur
    } else if cur.len() == 0 {
        fit_words(ws[0], ws.drop_first())
    } else if cur.len() + 1 + ws[0].len() < NODE_NAME_WIDTH {
        fit_words(cur + seq![' '] + ws[0], ws.drop_first())
    } else {
        cur
    }
}

/// A node name cut at a word boundary to fit a notification.
pub open spec fn truncated_name(s: Seq<char>) -> Seq<char> {
    fit_words(Seq::empty(), words(s))
}

pub open spec fn has_no_space(w: Seq<char>) -> bool {
    forall|i: int| 0 <= i < w.len() ==> w[i] != ' '
}

/// Splits the words of `s` from `pos` into the first and the rest.
proof fn lemma_words_from(s: Seq<char>, pos: int, j: int)
    requires
        0 <= pos <= j <= s.len(),
        j == pos + index_of(s.skip(pos), ' '),
    ensures
        j < s.len() ==> words(s.skip(pos)) == seq![s.subrange(pos, j)] + words(s.skip(j + 1)),
        j == s.len() ==> words(s.skip(pos)) == seq![s.subrange(pos, j)],
{
    let t = s.skip(pos);
    assert(t.take(j - pos) =~= s.subrange(pos, j));
    if j < s.len() {
        assert(t.skip(j - pos + 1) =~= s.skip(j + 1));
    } else {
        assert(t =~= s.subrange(pos, j));
    }
}

/// Cuts a node name after the last whole word that keeps it under 24 characters; a
/// first word longer than that is kept whole.
pub fn truncate_node_name(node: String) -> (r: String)
    ensures
        r@ == truncated_name(node@),
{
    let s = node.as_str();
    let n = s.unicode_len();
    let mut cur = String::new();
    let mut cur_len: usize = 0;
    let mut pos: usize = 0;
    assert(s@.skip(0) =~= s@);
    loop
        invariant_except_break
            pos <= n,
            n == s@.len(),
            cur_len == cur@.len(),
            fit_words(cur@, words(s@.skip(pos as int))) == truncated_name(s@),
        ensures
            cur@ == truncated_name(s@),
        decreases n - pos,
    {
        let j = find_char(s, pos, ' ');
        proof {
            lemma_words_from(s@, pos as int, j as int);
        }
        let word = s.substring_char(pos, j);
        let wlen = j - pos;
        let ghost ws = words(s@.skip(pos as int));
        assert(ws[0] == word@);
        let ghost before = cur@;
        if cur_len == 0 {
            cur.append(word);
            assert(cur@ =~= ws[0]);
            cur_len = wlen;
        } else if cur_len < NODE_NAME_WIDTH - 1 && wlen < NODE_NAME_WIDTH - 1 - cur_len {
            cur.append(" ");
            cur.append(word);
            proof {
                reveal_strlit(" ");
            }
            assert(cur@ =~= before + seq![' '] + ws[0]);
            cur_len = cur_len + 1 + wlen;
        } else {
            break;
        }
        if j == n {
            assert(ws.drop_first() =~= Seq::<Seq<char>>::empty());
            assert(fit_words(cur@, ws.drop_first()) == cur@);
            break;
        }
        assert(ws.drop_first() =~= words(s@.skip(j + 1)));
        pos = j + 1;
    }
    cur
}

proof fn lemma_words_have_no_space(s: Seq<char>)
    ensures
        forall|k: int| 0 <= k < words(s).len() ==> has_no_space(#[trigger] words(s)[k]),
    decreases s.len(),
{
    let i = index_of(s, ' ');
    lemma_index_of_bound(s, ' ');
    if i < s.len() {
        lemma_words_have_no_space(s.skip(i + 1 as int));
        let rest = words(s.skip(i + 1 as int));
        assert forall|k: int| 0 <= k < words(s).len() implies has_no_space(#[trigger] words(s)[k]) by {
            if k > 0 {
                assert(words(s)[k] == rest[k - 1]);
            }
        }
    } else {
        assert forall|k: int| 0 <= k < words(s).len() implies has_no_space(#[trigger] words(s)[k]) by {
            assert(words(s)[k] == s);
        }
    }
}

proof fn lemma_fit_words_width(cur: Seq<char>, ws: Seq<Seq<char>>, all: Seq<Seq<char>>)
    requires
        forall|k: int| 0 <= k < ws.len() ==> all.contains(#[trigger] ws[k]),
        forall|k: int| 0 <= k < ws.len() ==> has_no_space(#[trigger] ws[k]),
        cur.len() < NODE_NAME_WIDTH || (all.contains(cur) && has_no_space(cur)),
    ensures
        fit_words(cur, ws).len() < NODE_NAME_WIDTH || (all.contains(fit_words(cur, ws))
            && has_no_space(fit_words(cur, ws))),
    decreases ws.len(),
{
    if ws.len() > 0 {
        let rest = ws.drop_first();
        assert forall|k: int| 0 <= k < rest.len() implies all.contains(#[trigger] rest[k])
            && has_no_space(rest[k]) by {
            assert(rest[k] == ws[k + 1]);
        }
        if cur.len() == 0 {
            assert(all.contains(ws[0]) && has_no_space(ws[0]));
            lemma_fit_words_width(ws[0], rest, all);
        } else if cur.len() + 1 + ws[0].len() < NODE_NAME_WIDTH {
            lemma_fit_words_width(cur + seq![' '] + ws[0], rest, all);
        }
    }
}

/// A truncated name stays under the width, unless it is a single word of the name, kept
/// whole because it alone is too long.
pub proof fn lemma_truncated_name_width(s: Seq<char>)
    ensures
        truncated_name(s).len() < NODE_NAME_WIDTH || (words(s).contains(truncated_name(s))
            && has_no_space(truncated_name(s))),
{
    lemma_words_have_no_space(s);
    let ws = words(s);
    assert forall|k: int| 0 <= k < ws.len() implies ws.contains(#[trigger] ws[k]) by {}
    lemma_fit_words_width(Seq::empty(), ws, ws);
}

} // verus!
