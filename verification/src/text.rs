//! Text as sequences of characters: white space, words, trimming, joining.

use vstd::prelude::*;

verus! {

/// Whether `c` has the Unicode property `White_Space`.
pub open spec fn is_white_space(c: char) -> bool {
    let n = c as u32;
    ||| 0x09 <= n <= 0x0d
    ||| n == 0x20
    ||| n == 0x85
    ||| n == 0xa0
    ||| n == 0x1680
    ||| 0x2000 <= n <= 0x200a
    ||| n == 0x2028
    ||| n == 0x2029
    ||| n == 0x202f
    ||| n == 0x205f
    ||| n == 0x3000
}

/// Whether `c` is an ASCII letter or digit.
pub open spec fn is_alphanumeric(c: char) -> bool {
    ||| 'a' <= c <= 'z'
    ||| 'A' <= c <= 'Z'
    ||| '0' <= c <= '9'
}

/// The lower-case form of an ASCII letter; any other character unchanged.
pub open spec fn lower_char(c: char) -> char {
    if 'A' <= c <= 'Z' {
        (c as u32 + 32) as char
    } else {
        c
    }
}

/// `s` with every ASCII letter in lower case.
pub open spec fn lower(s: Seq<char>) -> Seq<char> {
    s.map_values(|c: char| lower_char(c))
}

/// A hexadecimal digit, in lower case.
pub open spec fn hex_digit(n: int) -> char {
    if n < 10 {
        (n + '0' as int) as char
    } else {
        (n - 10 + 'a' as int) as char
    }
}

/// `s` without the white space in front.
pub open spec fn trim_start(s: Seq<char>) -> Seq<char>
    decreases s.len(),
{
    if s.len() > 0 && is_white_space(s.first()) {
        trim_start(s.drop_first())
    } else {
        s
    }
}

/// `s` without the white space at the end.
pub open spec fn trim_end(s: Seq<char>) -> Seq<char>
    decreases s.len(),
{
    if s.len() > 0 && is_white_space(s.last()) {
        trim_end(s.drop_last())
    } else {
        s
    }
}

/// `s` without the white space at either end.
pub open spec fn trimmed(s: Seq<char>) -> Seq<char> {
    trim_end(trim_start(s))
}

/// What separates two items of a text: white space, or, where `commas` is set, a comma too.
pub open spec fn is_separator(c: char, commas: bool) -> bool {
    is_white_space(c) || (commas && c == ',')
}

/// The maximal runs of characters of `s` that are no separators, in order.
pub open spec fn runs(s: Seq<char>, commas: bool) -> Seq<Seq<char>>
    decreases s.len(),
{
    if s.len() == 0 {
        Seq::empty()
    } else {
        let front = runs(s.drop_last(), commas);
        if is_separator(s.last(), commas) {
            front
        } else if s.len() == 1 || is_separator(s[s.len() - 2], commas) {
            front.push(seq![s.last()])
        } else {
            front.drop_last().push(front.last().push(s.last()))
        }
    }
}

/// The parts one after the other, with `glue` between each two of them.
pub open spec fn joined(parts: Seq<Seq<char>>, glue: Seq<char>) -> Seq<char>
    decreases parts.len(),
{
    if parts.len() == 0 {
        Seq::empty()
    } else if parts.len() == 1 {
        parts[0]
    } else {
        joined(parts.drop_last(), glue) + glue + parts.last()
    }
}

/// The views of the strings of a list.
pub open spec fn views(list: Seq<String>) -> Seq<Seq<char>> {
    list.map_values(|s: String| s@)
}

/// The view of an optional string.
pub open spec fn opt_view(s: Option<String>) -> Option<Seq<char>> {
    match s {
        Some(text) => Some(text@),
        None => None,
    }
}

/// A result, with its error message taken by its view.
pub open spec fn outcome<T>(r: Result<T, String>) -> Result<T, Seq<char>> {
    match r {
        Ok(value) => Ok(value),
        Err(message) => Err(message@),
    }
}

/// A text or an error message, each taken by its view.
pub open spec fn text_outcome(r: Result<String, String>) -> Result<Seq<char>, Seq<char>> {
    match r {
        Ok(text) => Ok(text@),
        Err(message) => Err(message@),
    }
}

/// `String::push` appends one character.
pub assume_specification[ String::push ](s: &mut String, c: char)
    ensures
        final(s)@ == old(s)@.push(c),
;

/// Whether `c` has the Unicode property `White_Space`.
pub fn is_whitespace(c: char) -> (r: bool)
    ensures
        r == is_white_space(c),
{
    let n: u32 = c as u32;
    (0x09 <= n && n <= 0x0d) || n == 0x20 || n == 0x85 || n == 0xa0 || n == 0x1680 || (0x2000 <= n
        && n <= 0x200a) || n == 0x2028 || n == 0x2029 || n == 0x202f || n == 0x205f || n == 0x3000
}

/// The characters of a text.
pub(crate) fn chars_of(text: &str) -> (r: Vec<char>)
    ensures
        r@ == text@,
{
    let mut out: Vec<char> = Vec::new();
    for c in it: text.chars()
        invariant
            out@ == text@.take(it.index()),
            it.seq() == text@,
    {
        out.push(c);
    }
    out
}

/// The text that consists of the given characters.
pub(crate) fn text_of(chars: &Vec<char>) -> (r: String)
    ensures
        r@ == chars@,
{
    let mut out = String::new();
    for i in 0..chars.len()
        invariant
            out@ == chars@.take(i as int),
    {
        out.push(chars[i]);
        assert(chars@.take(i as int).push(chars@[i as int]) == chars@.take(i + 1));
    }
    out
}

/// Whether two texts are the same.
pub(crate) fn same(a: &str, b: &str) -> (r: bool)
    ensures
        r == (a@ == b@),
{
    a.to_string() == b.to_string()
}

/// `text` without the white space at either end.
pub(crate) fn trim(text: &str) -> (r: String)
    ensures
        r@ == trimmed(text@),
{
    let chars = chars_of(text);
    let n: usize = chars.len();
    let mut lo: usize = 0;
    assert(chars@.skip(0) == chars@);
    while lo < n && is_whitespace(chars[lo])
        invariant
            lo <= n == chars@.len(),
            trim_start(chars@) == trim_start(chars@.skip(lo as int)),
        decreases n - lo,
    {
        assert(chars@.skip(lo as int).drop_first() == chars@.skip(lo + 1));
        lo = lo + 1;
    }
    let ghost front = chars@.skip(lo as int);
    let mut hi: usize = n;
    assert(front.take(hi - lo) == front);
    while lo < hi && is_whitespace(chars[hi - 1])
        invariant
            lo <= hi <= n == chars@.len(),
            front == chars@.skip(lo as int),
            trim_end(front) == trim_end(front.take(hi - lo)),
        decreases hi - lo,
    {
        assert(front.take(hi - lo).drop_last() == front.take(hi - 1 - lo));
        hi = hi - 1;
    }
    let mut out = String::new();
    let mut i: usize = lo;
    while i < hi
        invariant
            lo <= i <= hi <= chars@.len(),
            out@ == chars@.subrange(lo as int, i as int),
        decreases hi - i,
    {
        out.push(chars[i]);
        assert(chars@.subrange(lo as int, i as int).push(chars@[i as int]) == chars@.subrange(
            lo as int,
            i + 1,
        ));
        i = i + 1;
    }
    assert(out@ == front.take(hi - lo));
    out
}

/// The maximal runs of characters of `text` that are no separators, in order.
pub(crate) fn split_runs(text: &str, commas: bool) -> (r: Vec<String>)
    ensures
        views(r@) == runs(text@, commas),
{
    let chars = chars_of(text);
    let mut out: Vec<String> = Vec::new();
    let mut open: Vec<char> = Vec::new();
    for i in 0..chars.len()
        invariant
            open@.len() == 0 <==> (i == 0 || is_separator(chars@[i - 1], commas)),
            runs(chars@.take(i as int), commas) == (if open@.len() == 0 {
                views(out@)
            } else {
                views(out@).push(open@)
            }),
    {
        let ghost before = chars@.take(i as int);
        let ghost after = chars@.take(i + 1);
        let ghost done = views(out@);
        let c = chars[i];
        assert(after.drop_last() == before);
        assert(after.last() == c);
        if is_whitespace(c) || (commas && c == ',') {
            if open.len() > 0 {
                out.push(text_of(&open));
                assert(views(out@) == done.push(open@));
                open = Vec::new();
            }
        } else {
            let ghost head = open@;
            open.push(c);
            proof {
                if head.len() == 0 {
                    assert(open@ == seq![c]);
                } else {
                    assert(done.push(head).drop_last() == done);
                    assert(after[after.len() - 2] == chars@[i - 1]);
                }
            }
        }
    }
    assert(chars@.take(chars@.len() as int) == chars@);
    if open.len() > 0 {
        let ghost done = views(out@);
        out.push(text_of(&open));
        assert(views(out@) == done.push(open@));
    }
    out
}

/// The parts one after the other, with `glue` between each two of them.
pub(crate) fn join(parts: &Vec<String>, glue: &str) -> (r: String)
    ensures
        r@ == joined(views(parts@), glue@),
{
    let mut out = String::new();
    for i in 0..parts.len()
        invariant
            out@ == joined(views(parts@).take(i as int), glue@),
    {
        let ghost head = views(parts@).take(i as int);
        assert(views(parts@).take(i + 1).drop_last() == head);
        if i > 0 {
            out.append(glue);
        }
        out.append(parts[i].as_str());
    }
    assert(views(parts@).take(parts@.len() as int) == views(parts@));
    out
}

/// `text` with every ASCII letter in lower case.
pub(crate) fn to_lower(text: &str) -> (r: String)
    ensures
        r@ == lower(text@),
{
    let chars = chars_of(text);
    let mut out = String::new();
    for i in 0..chars.len()
        invariant
            out@ == lower(chars@).take(i as int),
    {
        let c = chars[i];
        if 'A' <= c && c <= 'Z' {
            let code: u8 = c as u8;
            out.push((code + 32u8) as char);
        } else {
            out.push(c);
        }
        assert(lower(chars@).take(i as int).push(lower_char(c)) == lower(chars@).take(i + 1));
    }
    assert(lower(chars@).take(chars@.len() as int) == lower(chars@));
    out
}

/// Whether the text begins with the prefix; if so, what follows it.
pub(crate) fn strip_prefix(text: &str, prefix: &str) -> (r: Option<String>)
    ensures
        match r {
            Some(rest) => prefix@.is_prefix_of(text@) && rest@ == text@.skip(
                prefix@.len() as int,
            ),
            None => !prefix@.is_prefix_of(text@),
        },
{
    let chars = chars_of(text);
    let head = chars_of(prefix);
    if chars.len() < head.len() {
        return None;
    }
    for i in 0..head.len()
        invariant
            head@ == prefix@,
            chars@ == text@,
            head@.len() <= chars@.len(),
            head@.take(i as int) == chars@.take(i as int),
    {
        if head[i] != chars[i] {
            assert(prefix@[i as int] != text@.subrange(0, prefix@.len() as int)[i as int]);
            return None;
        }
        assert(head@.take(i + 1) == head@.take(i as int).push(head@[i as int]));
        assert(chars@.take(i + 1) == chars@.take(i as int).push(chars@[i as int]));
    }
    assert(head@.take(head@.len() as int) == head@);
    let mut out = String::new();
    let mut i: usize = head.len();
    while i < chars.len()
        invariant
            head@.len() <= i <= chars@.len(),
            out@ == chars@.subrange(head@.len() as int, i as int),
        decreases chars@.len() - i,
    {
        out.push(chars[i]);
        assert(chars@.subrange(head@.len() as int, i as int).push(chars@[i as int])
            == chars@.subrange(head@.len() as int, i + 1));
        i = i + 1;
    }
    Some(out)
}

/// A filter that every element passes changes nothing.
pub proof fn lemma_filter_all<A>(s: Seq<A>, kept: spec_fn(A) -> bool)
    requires
        forall|k: int| 0 <= k < s.len() ==> kept(#[trigger] s[k]),
    ensures
        s.filter(kept) == s,
    decreases s.len(),
{
    reveal(Seq::filter);
    if s.len() > 0 {
        lemma_filter_all(s.drop_last(), kept);
        assert(s.drop_last().push(s.last()) == s);
    }
}

/// Whether a word has characters, none of which is a separator.
pub open spec fn is_word(word: Seq<char>, commas: bool) -> bool {
    &&& word.len() > 0
    &&& forall|i: int| 0 <= i < word.len() ==> !is_separator(#[trigger] word[i], commas)
}

/// Every run of a text is a word.
pub proof fn lemma_runs_are_words(text: Seq<char>, commas: bool)
    ensures
        forall|k: int|
            0 <= k < runs(text, commas).len() ==> is_word(
                #[trigger] runs(text, commas)[k],
                commas,
            ),
        text.len() > 0 && !is_separator(text.last(), commas) ==> runs(text, commas).len() > 0,
    decreases text.len(),
{
    if text.len() > 0 {
        let init = text.drop_last();
        let front = runs(init, commas);
        let all = runs(text, commas);
        lemma_runs_are_words(init, commas);
        if text.len() > 1 {
            assert(init.last() == text[text.len() - 2]);
        }
        assert forall|k: int| 0 <= k < all.len() implies is_word(#[trigger] all[k], commas) by {
            if k < front.len() {
                assert(is_word(front[k], commas));
            }
        }
    }
}

/// Whether the characters from `lo` up to `hi` are a run of a text: there are some, none
/// of them is a separator, and the run goes no further either way.
pub open spec fn is_run(s: Seq<char>, commas: bool, lo: int, hi: int) -> bool {
    &&& 0 <= lo < hi <= s.len()
    &&& forall|i: int| lo <= i < hi ==> !is_separator(#[trigger] s[i], commas)
    &&& lo > 0 ==> is_separator(s[lo - 1], commas)
    &&& hi < s.len() ==> is_separator(s[hi], commas)
}

/// The runs of a text are all of its maximal runs of characters that are no separators,
/// from the left to the right: the bounds of each can be given.
pub proof fn law_runs_are_maximal(s: Seq<char>, commas: bool) -> (bounds: Seq<(int, int)>)
    ensures
        bounds.len() == runs(s, commas).len(),
        forall|k: int|
            0 <= k < bounds.len() ==> {
                &&& is_run(s, commas, (#[trigger] bounds[k]).0, bounds[k].1)
                &&& runs(s, commas)[k] == s.subrange(bounds[k].0, bounds[k].1)
            },
        forall|j: int, k: int|
            0 <= j < k < bounds.len() ==> (#[trigger] bounds[j]).1 < (#[trigger] bounds[k]).0,
        forall|lo: int, hi: int| #[trigger] is_run(s, commas, lo, hi) ==> bounds.contains((lo, hi)),
    decreases s.len(),
{
    let init = s.drop_last();
    let n = init.len() as int;
    let front = if s.len() == 0 {
        Seq::empty()
    } else {
        law_runs_are_maximal(init, commas)
    };
    assert forall|k: int|
        0 <= k < front.len() && ((#[trigger] front[k]).1 < n || is_separator(
            s.last(),
            commas,
        )) implies is_run(s, commas, front[k].0, front[k].1) && init.subrange(
        front[k].0,
        front[k].1,
    ) == s.subrange(front[k].0, front[k].1) by {
        lemma_run_of_front(s, commas, front[k].0, front[k].1);
    }
    if s.len() == 0 {
        front
    } else if is_separator(s.last(), commas) {
        assert forall|lo: int, hi: int| #[trigger] is_run(s, commas, lo, hi) implies front.contains(
            (lo, hi),
        ) by {
            if hi == s.len() {
                assert(!is_separator(s[hi - 1], commas));
            }
            assert(is_run(init, commas, lo, hi));
        }
        front
    } else if n == 0 || is_separator(s[n - 1], commas) {
        let bounds = front.push((n, n + 1));
        assert forall|k: int| 0 <= k < front.len() implies (#[trigger] front[k]).1 < n by {
            assert(is_run(init, commas, front[k].0, front[k].1));
            assert(!is_separator(init[front[k].1 - 1], commas));
        }
        assert(s.subrange(n, n + 1) == seq![s.last()]);
        assert forall|lo: int, hi: int| #[trigger]
            is_run(s, commas, lo, hi) implies bounds.contains((lo, hi)) by {
            if hi == s.len() {
                if lo < n {
                    assert(!is_separator(s[n - 1], commas));
                }
                assert(bounds[front.len() as int] == (lo, hi));
            } else {
                if hi == n {
                    assert(!is_separator(s[hi - 1], commas));
                }
                assert(is_run(init, commas, lo, hi));
                let k = choose|k: int| 0 <= k < front.len() && front[k] == (lo, hi);
                assert(bounds[k] == (lo, hi));
            }
        }
        bounds
    } else {
        let start = lemma_last_run(init, commas);
        let last = front.len() - 1;
        let at = choose|k: int| 0 <= k < front.len() && front[k] == (start, n);
        assert(at == last) by {
            if at < last {
                assert(front[at].1 < front[last].0);
                assert(is_run(init, commas, front[last].0, front[last].1));
            }
        }
        let bounds = front.drop_last().push((start, n + 1));
        assert forall|k: int| 0 <= k < last implies (#[trigger] front[k]).1 < n by {
            assert(front[k].1 < front[last].0);
        }
        assert(is_run(s, commas, start, n + 1)) by {
            assert forall|i: int| start <= i < n + 1 implies !is_separator(
                #[trigger] s[i],
                commas,
            ) by {
                if i < n {
                    assert(!is_separator(init[i], commas));
                }
            }
        }
        assert(s.subrange(start, n + 1) == init.subrange(start, n).push(s.last()));
        assert forall|k: int| 0 <= k < bounds.len() implies {
            &&& is_run(s, commas, (#[trigger] bounds[k]).0, bounds[k].1)
            &&& runs(s, commas)[k] == s.subrange(bounds[k].0, bounds[k].1)
        } by {
            if k < last {
                assert(bounds[k] == front[k]);
            }
        }
        assert forall|lo: int, hi: int| #[trigger]
            is_run(s, commas, lo, hi) implies bounds.contains((lo, hi)) by {
            if hi == s.len() {
                assert(is_run(init, commas, front[last].0, front[last].1));
                if lo < start {
                    assert(!is_separator(s[start - 1], commas));
                } else if lo > start {
                    assert(!is_separator(init[lo - 1], commas));
                }
                assert(bounds[last] == (lo, hi));
            } else {
                if hi == n {
                    assert(is_separator(s[n], commas));
                }
                assert(is_run(init, commas, lo, hi));
                let k = choose|k: int| 0 <= k < front.len() && front[k] == (lo, hi);
                assert(bounds[k] == (lo, hi));
            }
        }
        bounds
    }
}

/// A run of a text is one of the text with a character more, unless that goes on with it.
proof fn lemma_run_of_front(s: Seq<char>, commas: bool, lo: int, hi: int)
    requires
        s.len() > 0,
        is_run(s.drop_last(), commas, lo, hi),
        hi < s.len() - 1 || is_separator(s.last(), commas),
    ensures
        is_run(s, commas, lo, hi),
        s.drop_last().subrange(lo, hi) == s.subrange(lo, hi),
{
    assert forall|i: int| lo <= i < hi implies !is_separator(#[trigger] s[i], commas) by {
        assert(!is_separator(s.drop_last()[i], commas));
    }
    assert(lo > 0 ==> s.drop_last()[lo - 1] == s[lo - 1]);
    assert(hi < s.len() - 1 ==> s.drop_last()[hi] == s[hi]);
}

/// A text that does not end with a separator ends with a run.
proof fn lemma_last_run(s: Seq<char>, commas: bool) -> (start: int)
    requires
        s.len() > 0,
        !is_separator(s.last(), commas),
    ensures
        is_run(s, commas, start, s.len() as int),
    decreases s.len(),
{
    let n = s.len() as int;
    if n == 1 || is_separator(s[n - 2], commas) {
        n - 1
    } else {
        let start = lemma_last_run(s.drop_last(), commas);
        assert forall|i: int| start <= i < n implies !is_separator(#[trigger] s[i], commas) by {
            if i < n - 1 {
                assert(!is_separator(s.drop_last()[i], commas));
            }
        }
        assert(start > 0 ==> s.drop_last()[start - 1] == s[start - 1]);
        start
    }
}

/// A word behind a separator, or in front of everything, is a run of its own.
proof fn lemma_runs_append(text: Seq<char>, word: Seq<char>, commas: bool)
    requires
        is_word(word, commas),
        text.len() == 0 || is_separator(text.last(), commas),
    ensures
        runs(text + word, commas) == runs(text, commas).push(word),
    decreases word.len(),
{
    let whole = text + word;
    assert(whole.last() == word.last());
    assert(whole.drop_last() == text + word.drop_last());
    if word.len() == 1 {
        assert(text + word.drop_last() == text);
        assert(word == seq![word.last()]);
        if text.len() > 0 {
            assert(whole[whole.len() - 2] == text.last());
        }
    } else {
        lemma_runs_append(text, word.drop_last(), commas);
        assert(whole[whole.len() - 2] == word[word.len() - 2]);
        let front = runs(whole.drop_last(), commas);
        assert(front == runs(text, commas).push(word.drop_last()));
        assert(front.drop_last() == runs(text, commas));
        assert(word.drop_last().push(word.last()) == word);
    }
}

/// Separators at the end of a text add no run.
proof fn lemma_runs_separators(text: Seq<char>, glue: Seq<char>, commas: bool)
    requires
        forall|i: int| 0 <= i < glue.len() ==> is_separator(#[trigger] glue[i], commas),
    ensures
        runs(text + glue, commas) == runs(text, commas),
    decreases glue.len(),
{
    if glue.len() == 0 {
        assert(text + glue == text);
    } else {
        assert((text + glue).drop_last() == text + glue.drop_last());
        assert((text + glue).last() == glue[glue.len() - 1]);
        lemma_runs_separators(text, glue.drop_last(), commas);
    }
}

/// Words that are joined by separators are the words of what comes out.
pub proof fn law_joined_words_come_apart(words: Seq<Seq<char>>, glue: Seq<char>, commas: bool)
    requires
        forall|k: int| 0 <= k < words.len() ==> is_word(#[trigger] words[k], commas),
        glue.len() > 0,
        forall|i: int| 0 <= i < glue.len() ==> is_separator(#[trigger] glue[i], commas),
    ensures
        runs(joined(words, glue), commas) == words,
    decreases words.len(),
{
    let whole = joined(words, glue);
    if words.len() == 0 {
        assert(runs(whole, commas) == words);
    } else if words.len() == 1 {
        let word = words[0];
        assert(Seq::<char>::empty() + word == word);
        lemma_runs_append(Seq::empty(), word, commas);
        assert(runs(Seq::<char>::empty(), commas).push(word) == words);
    } else {
        let front = joined(words.drop_last(), glue);
        let word = words.last();
        assert forall|k: int| 0 <= k < words.drop_last().len() implies is_word(
            #[trigger] words.drop_last()[k],
            commas,
        ) by {
            assert(is_word(words[k], commas));
        }
        law_joined_words_come_apart(words.drop_last(), glue, commas);
        assert(is_word(words[words.len() - 1], commas));
        lemma_runs_separators(front, glue, commas);
        assert((front + glue).last() == glue[glue.len() - 1]);
        lemma_runs_append(front + glue, word, commas);
        assert(words.drop_last().push(word) == words);
    }
}

/// Words that are joined begin with the first of them and end with the last.
pub proof fn lemma_joined_ends(words: Seq<Seq<char>>, glue: Seq<char>)
    requires
        words.len() > 0,
        forall|k: int| 0 <= k < words.len() ==> (#[trigger] words[k]).len() > 0,
    ensures
        joined(words, glue).len() > 0,
        joined(words, glue).first() == words[0].first(),
        joined(words, glue).last() == words.last().last(),
    decreases words.len(),
{
    assert(words[words.len() - 1].len() > 0);
    if words.len() > 1 {
        assert forall|k: int| 0 <= k < words.drop_last().len() implies (
        #[trigger] words.drop_last()[k]).len() > 0 by {
            assert(words[k].len() > 0);
        }
        lemma_joined_ends(words.drop_last(), glue);
    }
}

/// Whether all of a text is white space.
pub open spec fn is_blank(s: Seq<char>) -> bool {
    forall|i: int| 0 <= i < s.len() ==> is_white_space(#[trigger] s[i])
}

/// White space in front of a text is trimmed off.
proof fn lemma_trim_start_blank(blank: Seq<char>, s: Seq<char>)
    requires
        is_blank(blank),
    ensures
        trim_start(blank + s) == trim_start(s),
    decreases blank.len(),
{
    if blank.len() == 0 {
        assert(blank + s == s);
    } else {
        assert((blank + s).first() == blank[0]);
        assert((blank + s).drop_first() == blank.drop_first() + s);
        assert forall|i: int| 0 <= i < blank.drop_first().len() implies is_white_space(
            #[trigger] blank.drop_first()[i],
        ) by {
            assert(is_white_space(blank[i + 1]));
        }
        lemma_trim_start_blank(blank.drop_first(), s);
    }
}

/// White space behind a text is trimmed off.
proof fn lemma_trim_end_blank(s: Seq<char>, blank: Seq<char>)
    requires
        is_blank(blank),
    ensures
        trim_end(s + blank) == trim_end(s),
    decreases blank.len(),
{
    if blank.len() == 0 {
        assert(s + blank == s);
    } else {
        assert((s + blank).last() == blank[blank.len() - 1]);
        assert((s + blank).drop_last() == s + blank.drop_last());
        lemma_trim_end_blank(s, blank.drop_last());
    }
}

/// What is trimmed off the front of a text is white space.
proof fn lemma_trim_start_splits(s: Seq<char>) -> (blank: Seq<char>)
    ensures
        is_blank(blank),
        s == blank + trim_start(s),
        trim_start(s).len() > 0 ==> !is_white_space(trim_start(s).first()),
    decreases s.len(),
{
    if s.len() > 0 && is_white_space(s.first()) {
        let rest = lemma_trim_start_splits(s.drop_first());
        let blank = seq![s.first()] + rest;
        assert(s == blank + trim_start(s)) by {
            assert(s == seq![s.first()] + s.drop_first());
        }
        assert forall|i: int| 0 <= i < blank.len() implies is_white_space(#[trigger] blank[i]) by {
            if i > 0 {
                assert(is_white_space(rest[i - 1]));
            }
        }
        blank
    } else {
        assert(s == Seq::<char>::empty() + s);
        Seq::empty()
    }
}

/// What is trimmed off the end of a text is white space.
proof fn lemma_trim_end_splits(s: Seq<char>) -> (blank: Seq<char>)
    ensures
        is_blank(blank),
        s == trim_end(s) + blank,
        trim_end(s).len() > 0 ==> !is_white_space(trim_end(s).last()),
    decreases s.len(),
{
    if s.len() > 0 && is_white_space(s.last()) {
        let rest = lemma_trim_end_splits(s.drop_last());
        let blank = rest.push(s.last());
        assert(s == trim_end(s) + blank) by {
            assert(s == s.drop_last().push(s.last()));
        }
        blank
    } else {
        assert(s == s + Seq::<char>::empty());
        Seq::empty()
    }
}

/// Trimming takes white space off both ends, and leaves none there.
pub proof fn law_trimming_takes_off_white_space(s: Seq<char>) -> (cut: (Seq<char>, Seq<char>))
    ensures
        is_blank(cut.0),
        is_blank(cut.1),
        s == cut.0 + trimmed(s) + cut.1,
        trimmed(s).len() > 0 ==> !is_white_space(trimmed(s).first()) && !is_white_space(
            trimmed(s).last(),
        ),
{
    let front = lemma_trim_start_splits(s);
    let back = lemma_trim_end_splits(trim_start(s));
    assert(s == front + trimmed(s) + back);
    if trimmed(s).len() > 0 {
        assert(trim_start(s).first() == trimmed(s).first());
    }
    (front, back)
}

/// White space around a text makes no difference to what is left of it by trimming.
pub proof fn law_trimming_ignores_white_space_around(
    before: Seq<char>,
    s: Seq<char>,
    after: Seq<char>,
)
    requires
        is_blank(before),
        is_blank(after),
    ensures
        trimmed(before + s + after) == trimmed(s),
{
    let front = lemma_trim_start_splits(s);
    assert(before + s + after == before + (s + after));
    lemma_trim_start_blank(before, s + after);
    let rest = trim_start(s);
    assert(s + after == front + (rest + after));
    lemma_trim_start_blank(front, rest + after);
    if rest.len() == 0 {
        lemma_trim_start_blank(after, Seq::empty());
        assert(after + Seq::<char>::empty() == after);
        assert(rest + after == after);
    } else {
        assert((rest + after).first() == rest.first());
        assert(trim_start(rest + after) == rest + after);
        lemma_trim_end_blank(rest, after);
    }
}

/// A text is trimmed down to nothing only if all of it is white space.
pub proof fn law_trimmed_is_empty_iff_blank(s: Seq<char>)
    ensures
        trimmed(s).len() == 0 <==> is_blank(s),
{
    let (front, back) = law_trimming_takes_off_white_space(s);
    if trimmed(s).len() == 0 {
        assert forall|i: int| 0 <= i < s.len() implies is_white_space(#[trigger] s[i]) by {
            if i < front.len() {
                assert(is_white_space(front[i]));
            } else {
                assert(is_white_space(back[i - front.len()]));
            }
        }
    } else {
        assert(s[front.len() as int] == trimmed(s).first());
    }
}

/// A text that neither begins nor ends with white space is left as it is by trimming.
pub proof fn law_nothing_to_trim(s: Seq<char>)
    requires
        s.len() > 0 ==> !is_white_space(s.first()) && !is_white_space(s.last()),
    ensures
        trimmed(s) == s,
{
}

/// It makes no difference whether a text is trimmed before or after its letters are put
/// into lower case.
pub proof fn law_trimming_and_case(s: Seq<char>)
    ensures
        trimmed(lower(s)) == lower(trimmed(s)),
{
    lemma_lower_trim_start(s);
    lemma_lower_trim_end(trim_start(s));
}

proof fn lemma_lower_trim_start(s: Seq<char>)
    ensures
        trim_start(lower(s)) == lower(trim_start(s)),
    decreases s.len(),
{
    if s.len() > 0 {
        assert(lower(s).drop_first() == lower(s.drop_first()));
        lemma_lower_trim_start(s.drop_first());
    }
}

proof fn lemma_lower_trim_end(s: Seq<char>)
    ensures
        trim_end(lower(s)) == lower(trim_end(s)),
    decreases s.len(),
{
    if s.len() > 0 {
        assert(lower(s).drop_last() == lower(s.drop_last()));
        lemma_lower_trim_end(s.drop_last());
    }
}

/// White space is these characters and no other.
pub proof fn law_white_space_characters(c: char)
    ensures
        is_white_space(c) <==> {
            ||| c == '\t'
            ||| c == '\n'
            ||| c == '\u{b}'
            ||| c == '\u{c}'
            ||| c == '\r'
            ||| c == ' '
            ||| c == '\u{85}'
            ||| c == '\u{a0}'
            ||| c == '\u{1680}'
            ||| '\u{2000}' <= c <= '\u{200a}'
            ||| c == '\u{2028}'
            ||| c == '\u{2029}'
            ||| c == '\u{202f}'
            ||| c == '\u{205f}'
            ||| c == '\u{3000}'
        },
{
}

/// Letters and digits are those of ASCII.
pub proof fn law_letters_and_digits(c: char)
    ensures
        is_alphanumeric(c) <==> {
            ||| 48 <= c as int <= 57
            ||| 65 <= c as int <= 90
            ||| 97 <= c as int <= 122
        },
{
}

/// A comma separates items where commas count; white space always does, and nothing else.
pub proof fn law_separators(c: char)
    ensures
        is_separator(c, false) <==> is_white_space(c),
        is_separator(c, true) <==> is_white_space(c) || c == ',',
{
}

/// What is left by trimming stands in the text: before it and behind it is white space
/// only, and it neither begins nor ends with white space.
pub proof fn law_trimming_finds_the_ends(s: Seq<char>) -> (ends: (int, int))
    ensures
        0 <= ends.0 <= ends.1 <= s.len(),
        trimmed(s) == s.subrange(ends.0, ends.1),
        forall|i: int| 0 <= i < ends.0 ==> is_white_space(#[trigger] s[i]),
        forall|i: int| ends.1 <= i < s.len() ==> is_white_space(#[trigger] s[i]),
        ends.0 < ends.1 ==> !is_white_space(s[ends.0]) && !is_white_space(s[ends.1 - 1]),
{
    let (front, back) = law_trimming_takes_off_white_space(s);
    let lo = front.len() as int;
    let hi = lo + trimmed(s).len();
    assert(trimmed(s) == s.subrange(lo, hi));
    assert forall|i: int| 0 <= i < lo implies is_white_space(#[trigger] s[i]) by {
        assert(s[i] == front[i]);
    }
    assert forall|i: int| hi <= i < s.len() implies is_white_space(#[trigger] s[i]) by {
        assert(s[i] == back[i - hi]);
    }
    if lo < hi {
        assert(trimmed(s).first() == s[lo]);
        assert(trimmed(s).last() == s[hi - 1]);
    }
    (lo, hi)
}

/// The runs of a text stand in it from the left to the right. None of their characters is
/// a separator, and there is a separator or nothing on either side of each. Whatever stands
/// in the text like that is one of them.
pub proof fn law_runs_stand_between_separators(s: Seq<char>, commas: bool) -> (bounds: Seq<
    (int, int),
>)
    ensures
        bounds.len() == runs(s, commas).len(),
        forall|k: int|
            0 <= k < bounds.len() ==> {
                &&& 0 <= (#[trigger] bounds[k]).0 < bounds[k].1 <= s.len()
                &&& runs(s, commas)[k] == s.subrange(bounds[k].0, bounds[k].1)
                &&& bounds[k].0 > 0 ==> is_separator(s[bounds[k].0 - 1], commas)
                &&& bounds[k].1 < s.len() ==> is_separator(s[bounds[k].1], commas)
            },
        forall|k: int, i: int|
            0 <= k < bounds.len() && (#[trigger] bounds[k]).0 <= i < bounds[k].1
                ==> !is_separator(#[trigger] s[i], commas),
        forall|j: int, k: int|
            0 <= j < k < bounds.len() ==> (#[trigger] bounds[j]).1 < (#[trigger] bounds[k]).0,
        forall|lo: int, hi: int|
            {
                &&& 0 <= lo < hi <= s.len()
                &&& forall|i: int| lo <= i < hi ==> !is_separator(#[trigger] s[i], commas)
                &&& lo > 0 ==> is_separator(s[lo - 1], commas)
                &&& hi < s.len() ==> is_separator(s[hi], commas)
            } ==> #[trigger] bounds.contains((lo, hi)),
{
    let bounds = law_runs_are_maximal(s, commas);
    assert forall|k: int, i: int|
        0 <= k < bounds.len() && (#[trigger] bounds[k]).0 <= i < bounds[k].1 implies !is_separator(
        #[trigger] s[i],
        commas,
    ) by {
        assert(is_run(s, commas, bounds[k].0, bounds[k].1));
    }
    assert forall|k: int| 0 <= k < bounds.len() implies {
        &&& 0 <= (#[trigger] bounds[k]).0 < bounds[k].1 <= s.len()
        &&& runs(s, commas)[k] == s.subrange(bounds[k].0, bounds[k].1)
        &&& bounds[k].0 > 0 ==> is_separator(s[bounds[k].0 - 1], commas)
        &&& bounds[k].1 < s.len() ==> is_separator(s[bounds[k].1], commas)
    } by {
        assert(is_run(s, commas, bounds[k].0, bounds[k].1));
    }
    assert forall|lo: int, hi: int|
        {
            &&& 0 <= lo < hi <= s.len()
            &&& forall|i: int| lo <= i < hi ==> !is_separator(#[trigger] s[i], commas)
            &&& lo > 0 ==> is_separator(s[lo - 1], commas)
            &&& hi < s.len() ==> is_separator(s[hi], commas)
        } implies #[trigger] bounds.contains((lo, hi)) by {
        assert(is_run(s, commas, lo, hi));
    }
    bounds
}

/// One part is joined to itself, no parts to nothing, and what is joined in two goes makes,
/// with the glue between, what is joined in one.
pub proof fn law_joining_in_two_goes(
    part: Seq<char>,
    front: Seq<Seq<char>>,
    back: Seq<Seq<char>>,
    glue: Seq<char>,
)
    ensures
        joined(Seq::empty(), glue).len() == 0,
        joined(seq![part], glue) == part,
        front.len() > 0 && back.len() > 0 ==> joined(front + back, glue) == joined(front, glue)
            + glue + joined(back, glue),
    decreases back.len(),
{
    if front.len() > 0 && back.len() > 0 {
        let whole = front + back;
        assert(whole.last() == back.last());
        assert(whole.drop_last() == front + back.drop_last());
        if back.len() == 1 {
            assert(whole.drop_last() == front);
        } else {
            law_joining_in_two_goes(part, front, back.drop_last(), glue);
        }
        assert(joined(whole, glue) == joined(front, glue) + glue + joined(back, glue));
    }
}

/// Putting a text into lower case moves the letters `A` to `Z` by 32 places, and leaves all
/// other characters as and where they are.
pub proof fn law_lower_case(s: Seq<char>)
    ensures
        lower(s).len() == s.len(),
        forall|i: int|
            0 <= i < s.len() ==> #[trigger] lower(s)[i] as int == (if 65 <= s[i] as int <= 90 {
                s[i] as int + 32
            } else {
                s[i] as int
            }),
{
}

/// Texts are taken for their characters, one by one, and so are those that may not be
/// there and the messages of errors.
pub proof fn law_texts_are_their_characters<T>(
    list: Seq<String>,
    option: Option<String>,
    result: Result<T, String>,
    text: Result<String, String>,
)
    ensures
        views(list).len() == list.len(),
        forall|i: int| 0 <= i < list.len() ==> #[trigger] views(list)[i] == list[i]@,
        opt_view(option) is Some <==> option is Some,
        option is Some ==> opt_view(option)->0 == option->0@,
        outcome(result) is Ok <==> result is Ok,
        result is Ok ==> outcome(result)->Ok_0 == result->Ok_0,
        result is Err ==> outcome(result)->Err_0 == result->Err_0@,
        text_outcome(text) is Ok <==> text is Ok,
        text is Ok ==> text_outcome(text)->Ok_0 == text->Ok_0@,
        text is Err ==> text_outcome(text)->Err_0 == text->Err_0@,
{
}

/// A text is blank if and only if it holds no character but white space.
pub proof fn law_blank_texts(s: Seq<char>)
    ensures
        !is_blank(s) <==> exists|i: int| 0 <= i < s.len() && !is_white_space(#[trigger] s[i]),
{
}

} // verus!
