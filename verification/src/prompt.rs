//! The prompt in the text of a Slack message.

use vstd::prelude::*;

use crate::text::{
    chars_of, is_separator, is_white_space, is_word, join, joined, law_joined_words_come_apart,
    law_nothing_to_trim, law_trimming_takes_off_white_space, lemma_filter_all, lemma_joined_ends,
    lemma_runs_are_words, runs, split_runs, trim, trimmed, views,
};

verus! {

/// Whether a word mentions someone, as Slack writes it.
pub open spec fn is_mention(word: Seq<char>) -> bool {
    &&& "<@"@.is_prefix_of(word)
    &&& word.last() == '>'
}

/// The words of a text that belong to its prompt: all or, if mentions are to go, all
/// that mention no one.
pub open spec fn prompt_words(text: Seq<char>, remove_mentions: bool) -> Seq<Seq<char>> {
    runs(text, false).filter(|word: Seq<char>| !(remove_mentions && is_mention(word)))
}

/// The prompt in a text: its words, with one space between each two.
pub open spec fn prompt_of(text: Seq<char>, remove_mentions: bool) -> Seq<char> {
    trimmed(joined(prompt_words(text, remove_mentions), " "@))
}

/// Whether a word mentions someone, as Slack writes it.
fn mentions(word: &str) -> (r: bool)
    requires
        word@.len() > 0,
    ensures
        r == is_mention(word@),
{
    let chars = chars_of(word);
    proof {
        reveal_strlit("<@");
        assert("<@"@ == seq!['<', '@']);
        if word@.len() >= 2 {
            assert(word@.subrange(0, 2) == seq![word@[0], word@[1]]);
            assert(seq!['<', '@'][0] == '<' && seq!['<', '@'][1] == '@');
        }
    }
    chars.len() >= 2 && chars[0] == '<' && chars[1] == '@' && chars[chars.len() - 1] == '>'
}

/// The prompt in the text of a Slack message: its words, with one space between each two
/// and, if `remove_mentions` is set, without those that mention someone.
pub fn sanitize_slack_prompt(text: &str, remove_mentions: bool) -> (r: String)
    ensures
        r@ == prompt_of(text@, remove_mentions),
{
    let words = split_runs(text, false);
    let ghost all = views(words@);
    let ghost kept = |word: Seq<char>| !(remove_mentions && is_mention(word));
    let mut prompt: Vec<String> = Vec::new();
    proof {
        reveal(Seq::filter);
        lemma_runs_are_words(text@, false);
    }
    for i in 0..words.len()
        invariant
            all == views(words@),
            all == runs(text@, false),
            forall|k: int| 0 <= k < all.len() ==> (#[trigger] all[k]).len() > 0,
            kept == (|word: Seq<char>| !(remove_mentions && is_mention(word))),
            views(prompt@) == all.take(i as int).filter(kept),
    {
        let word = &words[i];
        let ghost head = views(prompt@);
        proof {
            reveal(Seq::filter);
            assert(all.take(i + 1).drop_last() == all.take(i as int));
            assert(all.take(i + 1).last() == word@);
            assert(all[i as int] == word@);
        }
        if !(remove_mentions && mentions(word.as_str())) {
            prompt.push(word.clone());
            assert(views(prompt@) == head.push(word@));
        }
    }
    assert(all.take(all.len() as int) == all);
    trim(join(&prompt, " ").as_str())
}

/// The prompt in a text is its words with one space between each two: nothing is left to
/// trim, and the words of the prompt are just these.
pub proof fn law_prompt_is_words_joined(text: Seq<char>, remove_mentions: bool)
    ensures
        prompt_of(text, remove_mentions) == joined(prompt_words(text, remove_mentions), " "@),
        runs(prompt_of(text, remove_mentions), false) == prompt_words(text, remove_mentions),
{
    let words = prompt_words(text, remove_mentions);
    let whole = joined(words, " "@);
    reveal_strlit(" ");
    lemma_prompt_words(text, remove_mentions);
    law_joined_words_come_apart(words, " "@, false);
    if words.len() > 0 {
        lemma_joined_ends(words, " "@);
        assert(is_word(words[0], false));
        assert(!is_separator(words[0][0], false));
        assert(is_word(words[words.len() - 1], false));
        assert(!is_separator(words.last()[words.last().len() - 1], false));
    }
    law_nothing_to_trim(whole);
}

/// What is left of a text as its prompt stays as it is when it is taken for a text again.
pub proof fn law_prompt_is_stable(text: Seq<char>, remove_mentions: bool)
    ensures
        prompt_of(prompt_of(text, remove_mentions), remove_mentions) == prompt_of(
            text,
            remove_mentions,
        ),
{
    let words = prompt_words(text, remove_mentions);
    let kept = |word: Seq<char>| !(remove_mentions && is_mention(word));
    law_prompt_is_words_joined(text, remove_mentions);
    lemma_prompt_words(text, remove_mentions);
    lemma_filter_all(words, kept);
}

/// A prompt that mentions were taken out of has no word left that mentions someone.
pub proof fn law_no_mention_is_left(text: Seq<char>)
    ensures
        forall|k: int|
            0 <= k < runs(prompt_of(text, true), false).len() ==> !is_mention(
                #[trigger] runs(prompt_of(text, true), false)[k],
            ),
{
    law_prompt_is_words_joined(text, true);
    lemma_prompt_words(text, true);
}

/// A prompt neither begins nor ends with white space.
pub proof fn law_prompt_is_trimmed(text: Seq<char>, remove_mentions: bool)
    ensures
        prompt_of(text, remove_mentions).len() > 0 ==> !is_white_space(
            prompt_of(text, remove_mentions).first(),
        ) && !is_white_space(prompt_of(text, remove_mentions).last()),
{
    let cut = law_trimming_takes_off_white_space(
        joined(prompt_words(text, remove_mentions), " "@),
    );
}

/// The words of a prompt are words, and none that was to go is among them.
proof fn lemma_prompt_words(text: Seq<char>, remove_mentions: bool)
    ensures
        forall|k: int|
            0 <= k < prompt_words(text, remove_mentions).len() ==> {
                &&& is_word(#[trigger] prompt_words(text, remove_mentions)[k], false)
                &&& !(remove_mentions && is_mention(prompt_words(text, remove_mentions)[k]))
            },
{
    lemma_runs_are_words(text, false);
    let all = runs(text, false);
    let kept = |word: Seq<char>| !(remove_mentions && is_mention(word));
    assert forall|k: int| 0 <= k < all.filter(kept).len() implies {
        &&& is_word(#[trigger] all.filter(kept)[k], false)
        &&& kept(all.filter(kept)[k])
    } by {
        all.lemma_filter_contains_rev(kept, all.filter(kept)[k]);
        let j = choose|j: int| 0 <= j < all.len() && all[j] == all.filter(kept)[k];
        assert(is_word(all[j], false));
    }
}

/// A word mentions someone if and only if its first two characters are `<` and `@` and its
/// last is `>`.
pub proof fn law_mentions_by_their_characters(word: Seq<char>)
    ensures
        is_mention(word) <==> {
            &&& word.len() >= 2
            &&& word[0] == '<'
            &&& word[1] == '@'
            &&& word[word.len() - 1] == '>'
        },
{
    reveal_strlit("<@");
    let head = "<@"@;
    assert(head.len() == 2 && head[0] == '<' && head[1] == '@');
    if word.len() >= 2 {
        let first = word.subrange(0, 2);
        assert(first[0] == word[0] && first[1] == word[1]);
        if word[0] == '<' && word[1] == '@' {
            assert(head =~= first);
        }
    }
}

/// The words of a prompt are the words of its text, in their order, and all of them are
/// there but, if mentions are to go, those that begin with `<@` and end with `>`. Between
/// each two of them stands one space, and nothing else does.
pub proof fn law_prompt_keeps_all_words_but_mentions(text: Seq<char>, remove_mentions: bool)
    ensures
        ({
            let kept = runs(text, false).filter(
                |word: Seq<char>|
                    !(remove_mentions && word.len() >= 2 && word[0] == '<' && word[1] == '@'
                        && word[word.len() - 1] == '>'),
            );
            &&& runs(prompt_of(text, remove_mentions), false) == kept
            &&& prompt_of(text, remove_mentions) == joined(kept, seq![' '])
        }),
{
    let all = runs(text, false);
    let by_name = |word: Seq<char>| !(remove_mentions && is_mention(word));
    let by_characters = |word: Seq<char>|
        !(remove_mentions && word.len() >= 2 && word[0] == '<' && word[1] == '@'
            && word[word.len() - 1] == '>');
    assert forall|k: int| 0 <= k < all.len() implies #[trigger] by_name(all[k]) == by_characters(
        all[k],
    ) by {
        law_mentions_by_their_characters(all[k]);
    }
    lemma_filters_agree(all, by_name, by_characters);
    law_prompt_is_words_joined(text, remove_mentions);
    reveal_strlit(" ");
    assert(" "@ =~= seq![' ']);
}

/// Where mentions are not to go, every word of a text is a word of its prompt.
pub proof fn law_prompt_keeps_all_words(text: Seq<char>)
    ensures
        runs(prompt_of(text, false), false) == runs(text, false),
{
    law_prompt_is_words_joined(text, false);
    let remove_mentions = false;
    lemma_filter_all(
        runs(text, false),
        |word: Seq<char>| !(remove_mentions && is_mention(word)),
    );
}

/// A word that does not begin with `<@`, or does not end with `>`, is a word of the prompt,
/// whether or not mentions are to go, and it stays in its place: before it stand just those
/// words that are left of what stands before it in the text.
pub proof fn law_other_words_keep_their_place(text: Seq<char>, remove_mentions: bool, k: int)
    requires
        0 <= k < runs(text, false).len(),
        ({
            let word = runs(text, false)[k];
            word.len() < 2 || word[0] != '<' || word[1] != '@' || word[word.len() - 1] != '>'
        }),
    ensures
        ({
            let before = runs(text, false).take(k).filter(
                |word: Seq<char>|
                    !(remove_mentions && word.len() >= 2 && word[0] == '<' && word[1] == '@'
                        && word[word.len() - 1] == '>'),
            );
            let words = runs(prompt_of(text, remove_mentions), false);
            &&& before.len() < words.len()
            &&& words[before.len() as int] == runs(text, false)[k]
        }),
{
    let all = runs(text, false);
    let kept = |word: Seq<char>|
        !(remove_mentions && word.len() >= 2 && word[0] == '<' && word[1] == '@'
            && word[word.len() - 1] == '>');
    law_prompt_keeps_all_words_but_mentions(text, remove_mentions);
    let front = all.take(k);
    let rest = all.skip(k);
    assert(all == front + rest);
    Seq::filter_distributes_over_add(front, rest, kept);
    let one = seq![all[k]];
    assert(rest == one + all.skip(k + 1));
    Seq::filter_distributes_over_add(one, all.skip(k + 1), kept);
    assert(kept(all[k]));
    lemma_filter_all(one, kept);
    assert(all.filter(kept) == front.filter(kept) + (one + all.skip(k + 1).filter(kept)));
}

/// Two filters that agree on every element of a sequence leave the same of it.
proof fn lemma_filters_agree<A>(s: Seq<A>, f: spec_fn(A) -> bool, g: spec_fn(A) -> bool)
    requires
        forall|k: int| 0 <= k < s.len() ==> #[trigger] f(s[k]) == g(s[k]),
    ensures
        s.filter(f) == s.filter(g),
    decreases s.len(),
{
    reveal(Seq::filter);
    if s.len() > 0 {
        assert(f(s[s.len() - 1]) == g(s[s.len() - 1]));
        assert forall|k: int| 0 <= k < s.drop_last().len() implies #[trigger] f(s.drop_last()[k])
            == g(s.drop_last()[k]) by {
            assert(f(s[k]) == g(s[k]));
        }
        lemma_filters_agree(s.drop_last(), f, g);
    }
}

/// Where mentions are to go, the words of the prompt are those of the text that do not both
/// begin with `<@` and end with `>`, in their order.
pub proof fn law_prompt_without_mentions(text: Seq<char>)
    ensures
        ({
            let words = runs(prompt_of(text, true), false);
            &&& words == runs(text, false).filter(
                |word: Seq<char>|
                    !(word.len() >= 2 && word[0] == '<' && word[1] == '@' && word[word.len() - 1]
                        == '>'),
            )
            &&& forall|k: int|
                0 <= k < words.len() ==> {
                    let word = #[trigger] words[k];
                    word.len() < 2 || word[0] != '<' || word[1] != '@' || word[word.len() - 1]
                        != '>'
                }
        }),
{
    let all = runs(text, false);
    let words = runs(prompt_of(text, true), false);
    let by_characters = |word: Seq<char>|
        !(word.len() >= 2 && word[0] == '<' && word[1] == '@' && word[word.len() - 1] == '>');
    law_prompt_is_words_joined(text, true);
    let remove_mentions = true;
    let named = |word: Seq<char>| !(remove_mentions && is_mention(word));
    assert forall|k: int| 0 <= k < all.len() implies #[trigger] named(all[k]) == by_characters(
        all[k],
    ) by {
        law_mentions_by_their_characters(all[k]);
    }
    lemma_filters_agree(all, named, by_characters);
    law_no_mention_is_left(text);
    assert forall|k: int| 0 <= k < words.len() implies {
        let word = #[trigger] words[k];
        word.len() < 2 || word[0] != '<' || word[1] != '@' || word[word.len() - 1] != '>'
    } by {
        law_mentions_by_their_characters(words[k]);
    }
}

} // verus!
