use vstd::prelude::*;
use crate::text::{
    chars_of, find_char, index_of, join, join_chars, lemma_index_of, lemma_index_of_unique,
    split, split_chars, string_from_chars, upper, upper_exec, views,
};

verus! {

/// `s` with its first character in ASCII upper case.
pub open spec fn cap_first(s: Seq<char>) -> Seq<char> {
    if s.len() == 0 {
        s
    } else {
        seq![upper(s[0])] + s.drop_first()
    }
}

/// The non-empty pieces, each capitalised.
pub open spec fn title_words(pieces: Seq<Seq<char>>) -> Seq<Seq<char>>
    decreases pieces.len(),
{
    if pieces.len() == 0 {
        Seq::empty()
    } else {
        let rest = title_words(pieces.drop_last());
        if pieces.last().len() == 0 {
            rest
        } else {
            rest.push(cap_first(pieces.last()))
        }
    }
}

/// An identifier such as `post_processing` in title case: `Post Processing`.
pub open spec fn title_case(s: Seq<char>) -> Seq<char> {
    join(title_words(split(s, '_')), " "@)
}

/// Turns a snake-case identifier into title case: its `_`-separated words, empty
/// ones dropped, each with a capital first letter, joined by spaces.
pub fn title_case_identifier(identifier: &str) -> (s: String)
    ensures
        s@ == title_case(identifier@),
{
    let c = chars_of(identifier);
    let pieces = split_chars(c.as_slice(), '_');
    let mut words: Vec<Vec<char>> = Vec::new();
    let mut i: usize = 0;
    while i < pieces.len()
        invariant
            i <= pieces@.len(),
            views(pieces@) == split(identifier@, '_'),
            views(words@) == title_words(views(pieces@).take(i as int)),
        decreases pieces@.len() - i,
    {
        let ghost before = views(pieces@).take(i as int);
        proof {
            assert(views(pieces@).take(i + 1).drop_last() == before);
            assert(views(pieces@).take(i + 1).last() == pieces@[i as int]@);
        }
        let p = &pieces[i];
        if p.len() > 0 {
            let mut w: Vec<char> = Vec::new();
            w.push(upper_exec(p[0]));
            let mut j: usize = 1;
            while j < p.len()
                invariant
                    1 <= j <= p@.len(),
                    w@ == seq![upper(p@[0])] + p@.subrange(1, j as int),
                decreases p@.len() - j,
            {
                w.push(p[j]);
                j = j + 1;
                assert(w@ == seq![upper(p@[0])] + p@.subrange(1, j as int));
            }
            assert(p@.subrange(1, j as int) == p@.drop_first());
            proof {
                assert(views(words@.push(w)) == views(words@).push(w@));
            }
            words.push(w);
        }
        i = i + 1;
    }
    assert(views(pieces@).take(i as int) == views(pieces@));
    let joined = join_chars(&words, chars_of(" ").as_slice());
    string_from_chars(joined.as_slice())
}

/// `s` without its terminal escape sequences: each `ESC` and everything up to and
/// including the next `m` is dropped (all the rest when no `m` follows).
pub open spec fn strip_ansi(s: Seq<char>) -> Seq<char>
    decreases s.len(),
{
    if s.len() == 0 {
        s
    } else if s[0] == '\u{1b}' {
        let j = index_of(s.drop_first(), 'm');
        if j < 0 {
            Seq::empty()
        } else {
            proof {
                lemma_index_of(s.drop_first(), 'm');
            }
            strip_ansi(s.skip(j + 2))
        }
    } else {
        seq![s[0]] + strip_ansi(s.drop_first())
    }
}

/// Removes the terminal escape sequences (colours and styles) from `input`.
pub fn strip_ansi_sequences(input: &str) -> (s: String)
    ensures
        s@ == strip_ansi(input@),
{
    let c = chars_of(input);
    let mut plain: Vec<char> = Vec::new();
    let mut i: usize = 0;
    assert(c@.skip(0) == c@);
    assert(plain@ + strip_ansi(c@.skip(0)) == strip_ansi(c@.skip(0)));
    while i < c.len()
        invariant
            i <= c@.len(),
            plain@ + strip_ansi(c@.skip(i as int)) == strip_ansi(input@),
            c@ == input@,
        decreases c@.len() - i,
    {
        let ghost rest = c@.skip(i as int);
        if c[i] == '\u{1b}' {
            match find_char(c.as_slice(), 'm', i + 1) {
                Some(k) => {
                    proof {
                        let t = rest.drop_first();
                        assert forall|j: int| 0 <= j < t.len() && j < k - i - 1 implies t[j]
                            != 'm' by {
                            assert(t[j] == c@[j + i + 1]);
                        }
                        assert(t[k - i - 1] == c@[k as int]);
                        lemma_index_of_unique(t, 'm', k - i - 1);
                        assert(rest.skip(k - i + 1) == c@.skip(k + 1));
                    }
                    i = k + 1;
                },
                None => {
                    proof {
                        let t = rest.drop_first();
                        assert forall|j: int| 0 <= j < t.len() implies t[j] != 'm' by {
                            assert(t[j] == c@[j + i + 1]);
                        }
                        lemma_index_of_unique(t, 'm', -1);
                        assert(c@.skip(c@.len() as int).len() == 0);
                    }
                    i = c.len();
                    assert(strip_ansi(c@.skip(i as int)) == Seq::<char>::empty());
                },
            }
        } else {
            proof {
                assert(rest.drop_first() == c@.skip(i + 1));
            }
            plain.push(c[i]);
            i = i + 1;
        }
    }
    assert(c@.skip(i as int).len() == 0);
    string_from_chars(plain.as_slice())
}

} // verus!
