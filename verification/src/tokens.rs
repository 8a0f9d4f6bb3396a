//! Whitespace tokenization of a command line.
//!
//! A command line is split on Unicode whitespace into an ordered sequence of
//! tokens; the first token names the program and the rest are its arguments,
//! passed on verbatim. No quoting or shell syntax is understood.

use vstd::prelude::*;

verus! {

/// A character with the Unicode `White_Space` property: exactly the
/// characters that whitespace splitting treats as separators.
pub open spec fn is_space_char(c: char) -> bool {
    let u = c as u32;
    ||| u == 0x09
    ||| u == 0x0a
    ||| u == 0x0b
    ||| u == 0x0c
    ||| u == 0x0d
    ||| u == 0x20
    ||| u == 0x85
    ||| u == 0xa0
    ||| u == 0x1680
    ||| (0x2000 <= u && u <= 0x200a)
    ||| u == 0x2028
    ||| u == 0x2029
    ||| u == 0x202f
    ||| u == 0x205f
    ||| u == 0x3000
}

/// Decide whether `c` is a whitespace separator.
pub fn is_space(c: char) -> (r: bool)
    ensures
        r == is_space_char(c),
{
    let u = c as u32;
    u == 0x09 || u == 0x0a || u == 0x0b || u == 0x0c || u == 0x0d || u == 0x20 || u == 0x85
        || u == 0xa0 || u == 0x1680 || (0x2000 <= u && u <= 0x200a) || u == 0x2028 || u == 0x2029
        || u == 0x202f || u == 0x205f || u == 0x3000
}

/// The state of a left-to-right whitespace split of `s`: the tokens already
/// completed, and the partial token (possibly empty) still open at the end.
pub open spec fn split_state(s: Seq<char>) -> (Seq<Seq<char>>, Seq<char>)
    decreases s.len(),
{
    if s.len() == 0 {
        (Seq::empty(), Seq::empty())
    } else {
        let prev = split_state(s.drop_last());
        if is_space_char(s.last()) {
            if prev.1.len() > 0 {
                (prev.0.push(prev.1), Seq::empty())
            } else {
                prev
            }
        } else {
            (prev.0, prev.1.push(s.last()))
        }
    }
}

/// The whitespace tokens of `s`, in order: the completed tokens of the split,
/// closed off by the trailing partial token if one is open.
pub open spec fn tokens_of(s: Seq<char>) -> Seq<Seq<char>> {
    let st = split_state(s);
    if st.1.len() > 0 {
        st.0.push(st.1)
    } else {
        st.0
    }
}

/// Split a command line on whitespace into its tokens.
pub fn tokenize(line: &str) -> (toks: Vec<String>)
    ensures
        toks.deep_view() == tokens_of(line@),
{
    let n = line.unicode_len();
    let mut toks: Vec<String> = Vec::new();
    let mut start: usize = 0;
    let mut in_token: bool = false;
    let mut i: usize = 0;
    proof {
        assert(toks.deep_view() =~= Seq::<Seq<char>>::empty());
        assert(line@.take(0) =~= Seq::<char>::empty());
    }
    while i < n
        invariant
            n == line@.len(),
            i <= n,
            in_token ==> start < i,
            toks.deep_view() == split_state(line@.take(i as int)).0,
            in_token ==> split_state(line@.take(i as int)).1 == line@.subrange(
                start as int,
                i as int,
            ) && split_state(line@.take(i as int)).1.len() > 0,
            !in_token ==> split_state(line@.take(i as int)).1.len() == 0,
        decreases n - i,
    {
        let c = line.get_char(i);
        proof {
            assert(line@.take(i + 1).drop_last() =~= line@.take(i as int));
            assert(line@.take(i + 1).last() == line@[i as int]);
        }
        if is_space(c) {
            if in_token {
                let tok = line.substring_char(start, i);
                let owned: String = tok.to_owned();
                proof {
                    assert(toks.deep_view().push(owned@) =~= split_state(line@.take(i + 1)).0);
                }
                toks.push(owned);
                in_token = false;
                proof {
                    assert(toks.deep_view() =~= split_state(line@.take(i + 1)).0);
                }
            }
        } else {
            if !in_token {
                start = i;
                in_token = true;
            }
            proof {
                assert(split_state(line@.take(i + 1)).1 =~= line@.subrange(start as int, i + 1));
            }
        }
        i = i + 1;
    }
    proof {
        assert(line@.take(n as int) =~= line@);
    }
    if in_token {
        let tok = line.substring_char(start, n);
        let owned: String = tok.to_owned();
        proof {
            assert(toks.deep_view().push(owned@) =~= tokens_of(line@));
        }
        toks.push(owned);
        proof {
            assert(toks.deep_view() =~= tokens_of(line@));
        }
    }
    toks
}

/// A sequence of characters that qualifies as one whitespace token: at least
/// one character, none of them a separator.
pub open spec fn is_word(t: Seq<char>) -> bool {
    t.len() > 0 && forall|j: int| 0 <= j < t.len() ==> !is_space_char(t[j])
}

/// Every token of a whitespace split is a word: non-empty, with no
/// whitespace character inside it.
pub proof fn lemma_tokens_are_words(s: Seq<char>)
    ensures
        forall|k: int| 0 <= k < tokens_of(s).len() ==> is_word(#[trigger] tokens_of(s)[k]),
{
    lemma_split_state_words(s);
}

proof fn lemma_split_state_words(s: Seq<char>)
    ensures
        forall|k: int|
            0 <= k < split_state(s).0.len() ==> is_word(#[trigger] split_state(s).0[k]),
        forall|j: int| 0 <= j < split_state(s).1.len() ==> !is_space_char(split_state(s).1[j]),
    decreases s.len(),
{
    if s.len() > 0 {
        lemma_split_state_words(s.drop_last());
        let prev = split_state(s.drop_last());
        if is_space_char(s.last()) {
            if prev.1.len() > 0 {
                assert forall|k: int| 0 <= k < split_state(s).0.len() implies is_word(
                    #[trigger] split_state(s).0[k],
                ) by {
                    if k < prev.0.len() {
                        assert(split_state(s).0[k] == prev.0[k]);
                    } else {
                        assert(split_state(s).0[k] == prev.1);
                    }
                }
            }
        }
    }
}

/// A command line made of whitespace alone (the empty line included) splits
/// into no tokens at all.
pub proof fn lemma_blank_has_no_tokens(s: Seq<char>)
    requires
        forall|i: int| 0 <= i < s.len() ==> is_space_char(s[i]),
    ensures
        tokens_of(s).len() == 0,
{
    lemma_all_space_state(s);
}

proof fn lemma_all_space_state(s: Seq<char>)
    requires
        forall|i: int| 0 <= i < s.len() ==> is_space_char(s[i]),
    ensures
        split_state(s).0 =~= Seq::<Seq<char>>::empty(),
        split_state(s).1 =~= Seq::<char>::empty(),
    decreases s.len(),
{
    if s.len() > 0 {
        assert forall|i: int| 0 <= i < s.drop_last().len() implies is_space_char(
            s.drop_last()[i],
        ) by {
            assert(s.drop_last()[i] == s[i]);
        }
        lemma_all_space_state(s.drop_last());
        assert(is_space_char(s.last()));
    }
}

} // verus!
