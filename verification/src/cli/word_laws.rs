//! What holds of words that are taken apart into flags and values.

use vstd::prelude::*;
use crate::cli::words::{
    dashed, has_flag, is_flag_of, last_value, leading_flags, plain_words, rest_from, tokens, TokenView,
};

verus! {

/// A flag that was read is one of the words.
pub proof fn flags_are_words(valued: Seq<char>, words: Seq<Seq<char>>, i: int, flag: Seq<char>)
    requires
        0 <= i,
        has_flag(tokens(valued, words, i), flag),
    ensures
        exists|j: int| i <= j < words.len() && #[trigger] words[j] == flag,
    decreases words.len() - i,
{
    let t = tokens(valued, words, i);
    let n = choose|n: int| 0 <= n < t.len() && (#[trigger] t[n]).word == flag;
    if i < words.len() {
        let step = if is_flag_of(words[i], valued) && i + 1 < words.len() {
            2int
        } else {
            1
        };
        let rest = tokens(valued, words, i + step);
        assert(t.skip(1) =~= rest);
        if n == 0 {
            assert(words[i] == flag);
        } else {
            assert(rest[n - 1] == t[n]);
            flags_are_words(valued, words, i + step, flag);
        }
    }
}

/// A word that no flag takes for its value is read as a word of its own.
pub proof fn words_are_read(valued: Seq<char>, words: Seq<Seq<char>>, i: int, j: int)
    requires
        0 <= i <= j < words.len(),
        j == i || !is_flag_of(words[j - 1], valued),
    ensures
        has_flag(tokens(valued, words, i), words[j]),
    decreases words.len() - i,
{
    let t = tokens(valued, words, i);
    let step = if is_flag_of(words[i], valued) && i + 1 < words.len() {
        2int
    } else {
        1
    };
    let rest = tokens(valued, words, i + step);
    assert(t.skip(1) =~= rest);
    if j == i {
        assert(t[0].word == words[j]);
    } else {
        assert(j >= i + step);
        words_are_read(valued, words, i + step, j);
        let n = choose|n: int| 0 <= n < rest.len() && (#[trigger] rest[n]).word == words[j];
        assert(t[n + 1] == rest[n]);
    }
}

/// A flag before the arguments proper is one of the words.
pub proof fn leading_flags_are_words(valued: Seq<char>, words: Seq<Seq<char>>, i: int, flag: Seq<char>)
    requires
        0 <= i,
        has_flag(leading_flags(valued, words, i), flag),
    ensures
        exists|j: int| i <= j < words.len() && #[trigger] words[j] == flag,
    decreases words.len() + 1 - i,
{
    let t = leading_flags(valued, words, i);
    let n = choose|n: int| 0 <= n < t.len() && (#[trigger] t[n]).word == flag;
    if i < words.len() {
        let step = if is_flag_of(words[i], valued) {
            2int
        } else {
            1
        };
        let rest = leading_flags(valued, words, i + step);
        assert(t.skip(1) =~= rest);
        if n == 0 {
            assert(words[i] == flag);
        } else {
            assert(rest[n - 1] == t[n]);
            leading_flags_are_words(valued, words, i + step, flag);
        }
    }
}

/// Flags that take no value, one behind the other, are all read, in their order, and the arguments
/// proper begin behind them.
pub proof fn bare_flags_are_read(valued: Seq<char>, words: Seq<Seq<char>>, i: int, n: int)
    requires
        0 <= i <= n <= words.len(),
        forall|j: int|
            i <= j < n ==> dashed(#[trigger] words[j]) && words[j] != "--"@ && !is_flag_of(
                words[j],
                valued,
            ),
        n < words.len() ==> !dashed(words[n]) && words[n] != "--"@,
    ensures
        leading_flags(valued, words, i) == Seq::new(
            (n - i) as nat,
            |j: int| TokenView { word: words[i + j], value: None },
        ),
        rest_from(valued, words, i) == n,
    decreases n - i,
{
    let t = leading_flags(valued, words, i);
    if i < n {
        assert(dashed(words[i]));
        bare_flags_are_read(valued, words, i + 1, n);
        assert(t =~= Seq::new((n - i) as nat, |j: int| TokenView { word: words[i + j], value: None }));
    } else {
        assert(t =~= Seq::new((n - i) as nat, |j: int| TokenView { word: words[i + j], value: None }));
    }
}

/// Words that do not begin with a dash are plain words, all of them, in their order.
pub proof fn plain_words_are_read(valued: Seq<char>, words: Seq<Seq<char>>, i: int)
    requires
        0 <= i <= words.len(),
        forall|j: int| i <= j < words.len() ==> !dashed(#[trigger] words[j]),
    ensures
        tokens(valued, words, i) == Seq::new(
            (words.len() - i) as nat,
            |j: int| TokenView { word: words[i + j], value: None },
        ),
    decreases words.len() - i,
{
    let t = tokens(valued, words, i);
    if i < words.len() {
        assert(!dashed(words[i]));
        plain_words_are_read(valued, words, i + 1);
        assert(t =~= Seq::new(
            (words.len() - i) as nat,
            |j: int| TokenView { word: words[i + j], value: None },
        ));
    } else {
        assert(t =~= Seq::new(
            (words.len() - i) as nat,
            |j: int| TokenView { word: words[i + j], value: None },
        ));
    }
}

/// The last value that a flag is given counts, and other words do not change it.
pub proof fn last_value_counts(t: Seq<TokenView>, flag: Seq<char>, more: TokenView)
    ensures
        last_value(t.push(more), flag) == (if more.word == flag && more.value is Some {
            more.value
        } else {
            last_value(t, flag)
        }),
        last_value(Seq::empty(), flag) is None,
{
    assert(t.push(more).drop_last() =~= t);
}

/// A plain word comes behind those before it; flags and their values are none.
pub proof fn plain_words_keep_their_order(t: Seq<TokenView>, more: TokenView)
    ensures
        plain_words(t.push(more)) == (if more.value is None && !(more.word.len() > 0 && more.word[0]
            == '-') {
            plain_words(t).push(more.word)
        } else {
            plain_words(t)
        }),
{
    assert(t.push(more).drop_last() =~= t);
}

} // verus!
