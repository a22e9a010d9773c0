//! Sets of names, as the environment lists them.

use vstd::prelude::*;

use crate::text::{
    chars_of, is_separator, is_white_space, is_word, joined, law_joined_words_come_apart,
    law_runs_stand_between_separators, lemma_runs_are_words, opt_view, runs, same, split_runs,
    views,
};

verus! {

/// Whether `a` comes before `b` in the order of texts: by the first character in which
/// they differ, or else the shorter one first.
pub open spec fn precedes(a: Seq<char>, b: Seq<char>) -> bool
    decreases a.len(),
{
    if b.len() == 0 {
        false
    } else if a.len() == 0 {
        true
    } else {
        a[0] < b[0] || (a[0] == b[0] && precedes(a.drop_first(), b.drop_first()))
    }
}

/// Whether each of the names comes before all that follow it.
pub open spec fn ascending(names: Seq<Seq<char>>) -> bool {
    forall|i: int, j: int|
        0 <= i < j < names.len() ==> precedes(#[trigger] names[i], #[trigger] names[j])
}

/// A set of tool names, kept in the order of texts.
#[derive(Debug)]
pub struct ToolNames {
    items: Vec<String>,
}

/// A set of channel identifiers.
#[derive(Debug)]
pub struct ChannelNames {
    items: Vec<String>,
}

impl View for ToolNames {
    type V = Set<Seq<char>>;

    closed spec fn view(&self) -> Set<Seq<char>> {
        views(self.items@).to_set()
    }
}

impl View for ChannelNames {
    type V = Set<Seq<char>>;

    closed spec fn view(&self) -> Set<Seq<char>> {
        views(self.items@).to_set()
    }
}

/// No text comes before itself.
proof fn lemma_precedes_irreflexive(a: Seq<char>)
    ensures
        !precedes(a, a),
    decreases a.len(),
{
    if a.len() > 0 {
        lemma_precedes_irreflexive(a.drop_first());
    }
}

/// No name stands twice among names that are in the order of texts.
proof fn lemma_ascending_is_distinct(names: Seq<Seq<char>>)
    requires
        ascending(names),
    ensures
        names.no_duplicates(),
{
    assert forall|i: int, j: int| 0 <= i < j < names.len() implies names[i] != names[j] by {
        assert(precedes(names[i], names[j]));
        lemma_precedes_irreflexive(names[i]);
    }
}

/// The order of texts is transitive.
proof fn lemma_precedes_transitive(a: Seq<char>, b: Seq<char>, c: Seq<char>)
    requires
        precedes(a, b),
        precedes(b, c),
    ensures
        precedes(a, c),
    decreases a.len(),
{
    if a.len() > 0 && a[0] == b[0] && b[0] == c[0] {
        lemma_precedes_transitive(a.drop_first(), b.drop_first(), c.drop_first());
    }
}

/// Of two different texts, one comes before the other.
proof fn lemma_precedes_total(a: Seq<char>, b: Seq<char>)
    requires
        a != b,
    ensures
        precedes(a, b) || precedes(b, a),
    decreases a.len(),
{
    if a.len() > 0 && b.len() > 0 && a[0] == b[0] {
        if a.drop_first() == b.drop_first() {
            assert(a == seq![a[0]] + a.drop_first());
            assert(b == seq![b[0]] + b.drop_first());
        }
        lemma_precedes_total(a.drop_first(), b.drop_first());
    } else if a.len() == 0 && b.len() == 0 {
        assert(a == b);
    }
}

/// Whether `a` comes before `b` in the order of texts.
fn comes_before(a: &str, b: &str) -> (r: bool)
    ensures
        r == precedes(a@, b@),
{
    let x = chars_of(a);
    let y = chars_of(b);
    let mut i: usize = 0;
    assert(x@.skip(0) == x@);
    assert(y@.skip(0) == y@);
    while i < x.len() && i < y.len() && x[i] == y[i]
        invariant
            i <= x@.len(),
            i <= y@.len(),
            precedes(x@, y@) == precedes(x@.skip(i as int), y@.skip(i as int)),
        decreases x@.len() - i,
    {
        assert(x@.skip(i as int).drop_first() == x@.skip(i + 1));
        assert(y@.skip(i as int).drop_first() == y@.skip(i + 1));
        i = i + 1;
    }
    if i >= y.len() {
        false
    } else if i >= x.len() {
        true
    } else {
        x[i] < y[i]
    }
}

/// Whether a name is in a list.
fn lists(items: &Vec<String>, name: &str) -> (r: bool)
    ensures
        r == views(items@).to_set().contains(name@),
{
    for i in 0..items.len()
        invariant
            forall|k: int| 0 <= k < i ==> (#[trigger] items@[k])@ != name@,
    {
        if same(items[i].as_str(), name) {
            assert(views(items@)[i as int] == name@);
            return true;
        }
    }
    assert forall|k: int| 0 <= k < views(items@).len() implies views(items@)[k] != name@ by {
        assert(items@[k]@ != name@);
    }
    false
}

/// Puts a name into a list that is in the order of texts.
fn insert_sorted(items: &mut Vec<String>, name: String)
    requires
        ascending(views(old(items)@)),
    ensures
        ascending(views(final(items)@)),
        views(final(items)@).to_set() == views(old(items)@).to_set().insert(name@),
{
    let ghost before = views(items@);
    let mut at: usize = 0;
    while at < items.len() && comes_before(items[at].as_str(), name.as_str())
        invariant
            at <= items@.len(),
            before == views(items@),
            forall|k: int| 0 <= k < at ==> precedes(#[trigger] before[k], name@),
        decreases items@.len() - at,
    {
        at = at + 1;
    }
    if at < items.len() && same(items[at].as_str(), name.as_str()) {
        assert(before[at as int] == name@);
        assert(before.to_set().insert(name@) == before.to_set());
        return;
    }
    let ghost word = name@;
    items.insert(at, name);
    proof {
        let after = views(items@);
        assert(after == before.insert(at as int, word));
        assert forall|k: int| at <= k < before.len() implies precedes(
            word,
            #[trigger] before[k],
        ) by {
            lemma_precedes_total(word, before[at as int]);
            if k > at {
                lemma_precedes_transitive(word, before[at as int], before[k]);
            }
        }
        assert forall|i: int, j: int| 0 <= i < j < after.len() implies precedes(
            #[trigger] after[i],
            #[trigger] after[j],
        ) by {
            if j < at {
                assert(precedes(before[i], before[j]));
            } else if j == at {
                assert(precedes(before[i], word));
            } else if i == at {
                assert(precedes(word, before[j - 1]));
            } else if i < at {
                assert(precedes(before[i], before[j - 1]));
            } else {
                assert(precedes(before[i - 1], before[j - 1]));
            }
        }
        lemma_insert_to_set(before, at as int, word);
    }
}

/// Putting an element into a sequence puts it into the set of its elements.
proof fn lemma_insert_to_set(s: Seq<Seq<char>>, at: int, x: Seq<char>)
    requires
        0 <= at <= s.len(),
    ensures
        s.insert(at, x).to_set() == s.to_set().insert(x),
{
    let t = s.insert(at, x);
    assert(t[at] == x);
    assert forall|y: Seq<char>| s.to_set().insert(x).contains(y) implies t.to_set().contains(y) by {
        if y != x {
            let k = choose|k: int| 0 <= k < s.len() && s[k] == y;
            if k < at {
                assert(t[k] == y);
            } else {
                assert(t[k + 1] == y);
            }
        }
    }
    assert forall|y: Seq<char>| t.to_set().contains(y) implies s.to_set().insert(x).contains(y) by {
        let k = choose|k: int| 0 <= k < t.len() && t[k] == y;
        if k < at {
            assert(s[k] == y);
        } else if k > at {
            assert(s[k - 1] == y);
        }
    }
    assert(t.to_set() =~= s.to_set().insert(x));
}

impl Clone for ToolNames {
    fn clone(&self) -> (r: Self)
        ensures
            r@ == self@,
    {
        proof {
            use_type_invariant(self);
        }
        let items = self.items.clone();
        assert(items@ =~= self.items@);
        ToolNames { items }
    }
}

impl ToolNames {
    #[verifier::type_invariant]
    spec fn in_order(self) -> bool {
        ascending(views(self.items@))
    }

    /// Whether a name is in the set.
    pub fn contains(&self, name: &str) -> (r: bool)
        ensures
            r == self@.contains(name@),
    {
        lists(&self.items, name)
    }

    /// The names of the set, each once, in the order of texts.
    pub fn items(&self) -> (r: &Vec<String>)
        ensures
            ascending(views(r@)),
            views(r@).no_duplicates(),
            views(r@).to_set() == self@,
    {
        proof {
            use_type_invariant(self);
            lemma_ascending_is_distinct(views(self.items@));
        }
        &self.items
    }
}

impl Clone for ChannelNames {
    fn clone(&self) -> (r: Self)
        ensures
            r@ == self@,
    {
        proof {
            use_type_invariant(self);
        }
        let items = self.items.clone();
        assert(items@ =~= self.items@);
        ChannelNames { items }
    }
}

impl ChannelNames {
    #[verifier::type_invariant]
    spec fn each_once(self) -> bool {
        views(self.items@).no_duplicates()
    }

    /// Whether an identifier is in the set.
    pub fn contains(&self, name: &str) -> (r: bool)
        ensures
            r == self@.contains(name@),
    {
        lists(&self.items, name)
    }
}

/// The names that a listing holds: what stands between commas and white space. There are
/// none where there is no listing.
pub open spec fn listed(value: Option<Seq<char>>) -> Seq<Seq<char>> {
    match value {
        Some(raw) => runs(raw, true),
        None => Seq::empty(),
    }
}

/// The set of names that a listing holds, if it holds any.
pub open spec fn listed_set(value: Option<Seq<char>>) -> Option<Set<Seq<char>>> {
    if listed(value).len() > 0 {
        Some(listed(value).to_set())
    } else {
        None
    }
}

/// What an optional set of tool names holds.
pub open spec fn tools_view(names: Option<ToolNames>) -> Option<Set<Seq<char>>> {
    match names {
        Some(names) => Some(names@),
        None => None,
    }
}

/// What an optional set of channels holds.
pub open spec fn channels_view(names: Option<ChannelNames>) -> Option<Set<Seq<char>>> {
    match names {
        Some(names) => Some(names@),
        None => None,
    }
}

/// The tool names that a listing holds, if it holds any.
pub fn parse_csv_set(value: Option<String>) -> (r: Option<ToolNames>)
    ensures
        tools_view(r) == listed_set(opt_view(value)),
{
    let raw = match value {
        Some(raw) => raw,
        None => return None,
    };
    let pieces = split_runs(raw.as_str(), true);
    if pieces.len() == 0 {
        return None;
    }
    let mut items: Vec<String> = Vec::new();
    for i in 0..pieces.len()
        invariant
            ascending(views(items@)),
            views(items@).to_set() =~= views(pieces@).take(i as int).to_set(),
    {
        insert_sorted(&mut items, pieces[i].clone());
        proof {
            let head = views(pieces@).take(i as int);
            assert(views(pieces@).take(i + 1) == head.insert(i as int, pieces@[i as int]@));
            lemma_insert_to_set(head, i as int, pieces@[i as int]@);
        }
    }
    assert(views(pieces@).take(pieces@.len() as int) == views(pieces@));
    Some(ToolNames { items })
}

/// The channels that a listing holds, if it holds any.
pub fn parse_hash_set(value: Option<String>) -> (r: Option<ChannelNames>)
    ensures
        channels_view(r) == listed_set(opt_view(value)),
{
    let raw = match value {
        Some(raw) => raw,
        None => return None,
    };
    let pieces = split_runs(raw.as_str(), true);
    if pieces.len() == 0 {
        return None;
    }
    let mut items: Vec<String> = Vec::new();
    for i in 0..pieces.len()
        invariant
            views(items@).no_duplicates(),
            views(items@).to_set() =~= views(pieces@).take(i as int).to_set(),
    {
        let ghost before = views(items@);
        let ghost word = pieces@[i as int]@;
        proof {
            let head = views(pieces@).take(i as int);
            assert(views(pieces@).take(i + 1) == head.insert(i as int, word));
            lemma_insert_to_set(head, i as int, word);
        }
        if lists(&items, pieces[i].as_str()) {
            assert(before.to_set().insert(word) == before.to_set());
        } else {
            items.push(pieces[i].clone());
            proof {
                assert(views(items@) == before.insert(before.len() as int, word));
                lemma_insert_to_set(before, before.len() as int, word);
                assert forall|k: int| 0 <= k < before.len() implies before[k] != word by {
                    assert(before.to_set().contains(before[k]));
                }
            }
        }
    }
    assert(views(pieces@).take(pieces@.len() as int) == views(pieces@));
    Some(ChannelNames { items })
}

/// A set of names that is read from a listing is never empty, and each name in it has
/// characters, none of which is a comma or white space.
pub proof fn law_listed_names_are_words(value: Option<Seq<char>>)
    ensures
        listed_set(value) is Some ==> {
            &&& exists|name: Seq<char>| listed_set(value)->0.contains(name)
            &&& forall|name: Seq<char>| #[trigger]
                listed_set(value)->0.contains(name) ==> is_word(name, true)
        },
{
    if let Some(raw) = value {
        lemma_runs_are_words(raw, true);
        if listed(value).len() > 0 {
            assert(listed_set(value)->0.contains(listed(value)[0]));
        }
    }
}

/// Names that are written one after the other, with commas or white space between them,
/// are read back as they are.
pub proof fn law_listing_is_read_back(names: Seq<Seq<char>>, glue: Seq<char>)
    requires
        forall|k: int| 0 <= k < names.len() ==> is_word(#[trigger] names[k], true),
        glue.len() > 0,
        forall|i: int| 0 <= i < glue.len() ==> is_separator(#[trigger] glue[i], true),
    ensures
        listed(Some(joined(names, glue))) == names,
{
    law_joined_words_come_apart(names, glue, true);
}

/// Of two texts, the one comes before the other that has the lesser character where they
/// first differ, or that ends where the other goes on.
pub proof fn law_order_of_texts(a: Seq<char>, b: Seq<char>)
    ensures
        precedes(a, b) <==> exists|k: int|
            {
                &&& 0 <= k <= a.len()
                &&& k < b.len()
                &&& #[trigger] a.take(k) == b.take(k)
                &&& k == a.len() || a[k] < b[k]
            },
    decreases a.len(),
{
    if a.len() > 0 && b.len() > 0 {
        let x = a.drop_first();
        let y = b.drop_first();
        law_order_of_texts(x, y);
        assert(a == seq![a[0]] + x);
        assert(b == seq![b[0]] + y);
        if precedes(a, b) {
            if a[0] < b[0] {
                assert(a.take(0) == b.take(0));
            } else {
                let k = choose|k: int|
                    {
                        &&& 0 <= k <= x.len()
                        &&& k < y.len()
                        &&& #[trigger] x.take(k) == y.take(k)
                        &&& k == x.len() || x[k] < y[k]
                    };
                assert(a.take(k + 1) == seq![a[0]] + x.take(k));
                assert(b.take(k + 1) == seq![b[0]] + y.take(k));
                assert(a.take(k + 1) == b.take(k + 1));
            }
        } else {
            assert forall|k: int|
                {
                    &&& 0 <= k <= a.len()
                    &&& k < b.len()
                    &&& #[trigger] a.take(k) == b.take(k)
                } implies !(k == a.len() || a[k] < b[k]) by {
                if k > 0 {
                    assert(a.take(k)[0] == b.take(k)[0]);
                    assert(x.take(k - 1) == a.take(k).drop_first());
                    assert(y.take(k - 1) == b.take(k).drop_first());
                    assert(x.take(k - 1) == y.take(k - 1));
                }
            }
        }
    } else if b.len() > 0 {
        assert(a.take(0) == b.take(0));
    }
}

/// No set of names is read where there is no listing, or from one that holds nothing but
/// commas and white space; from any other listing, one is.
pub proof fn law_when_names_are_listed(raw: Seq<char>)
    ensures
        listed_set(None) is None,
        listed_set(Some(raw)) is None <==> forall|i: int|
            0 <= i < raw.len() ==> is_white_space(#[trigger] raw[i]) || raw[i] == ',',
{
    let bounds = law_runs_stand_between_separators(raw, true);
    if listed_set(Some(raw)) is Some {
        assert(bounds[0].0 < bounds[0].1);
        assert(!is_separator(raw[bounds[0].0], true));
    } else {
        assert forall|i: int| 0 <= i < raw.len() implies is_white_space(#[trigger] raw[i]) || raw[i]
            == ',' by {
            if !is_separator(raw[i], true) {
                lemma_runs_reach(raw, i);
            }
        }
    }
}

/// Where a listing has a character that is neither a comma nor white space, it has a name.
proof fn lemma_runs_reach(raw: Seq<char>, i: int)
    requires
        0 <= i < raw.len(),
        !is_separator(raw[i], true),
    ensures
        runs(raw, true).len() > 0,
    decreases raw.len(),
{
    if i < raw.len() - 1 {
        lemma_runs_reach(raw.drop_last(), i);
    } else {
        lemma_runs_are_words(raw, true);
    }
}

/// The names that a listing holds are what stands in it between commas, white space and
/// the ends, and nothing else is.
pub proof fn law_listed_names_stand_in_the_listing(raw: Seq<char>, name: Seq<char>)
    requires
        listed_set(Some(raw)) is Some,
    ensures
        listed_set(Some(raw))->0.contains(name) <==> exists|lo: int, hi: int|
            {
                &&& 0 <= lo < hi <= raw.len()
                &&& name == #[trigger] raw.subrange(lo, hi)
                &&& forall|i: int|
                    lo <= i < hi ==> !is_white_space(#[trigger] raw[i]) && raw[i] != ','
                &&& lo > 0 ==> is_white_space(raw[lo - 1]) || raw[lo - 1] == ','
                &&& hi < raw.len() ==> is_white_space(raw[hi]) || raw[hi] == ','
            },
{
    let bounds = law_runs_stand_between_separators(raw, true);
    let names = listed(Some(raw));
    if names.to_set().contains(name) {
        let k = choose|k: int| 0 <= k < names.len() && names[k] == name;
        let (lo, hi) = bounds[k];
        assert(name == raw.subrange(lo, hi));
        assert forall|i: int| lo <= i < hi implies !is_white_space(#[trigger] raw[i]) && raw[i]
            != ',' by {
            assert(!is_separator(raw[i], true));
        }
    }
    assert forall|lo: int, hi: int|
        {
            &&& 0 <= lo < hi <= raw.len()
            &&& name == #[trigger] raw.subrange(lo, hi)
            &&& forall|i: int|
                lo <= i < hi ==> !is_white_space(#[trigger] raw[i]) && raw[i] != ','
            &&& lo > 0 ==> is_white_space(raw[lo - 1]) || raw[lo - 1] == ','
            &&& hi < raw.len() ==> is_white_space(raw[hi]) || raw[hi] == ','
        } implies names.to_set().contains(name) by {
        assert forall|i: int| lo <= i < hi implies !is_separator(#[trigger] raw[i], true) by {
            assert(!is_white_space(raw[i]));
        }
        assert(bounds.contains((lo, hi)));
        let k = choose|k: int| 0 <= k < bounds.len() && bounds[k] == (lo, hi);
        assert(names[k] == name);
    }
}

/// A set of names that may not be there is taken for the set, if it is.
pub proof fn law_optional_sets(tools: Option<ToolNames>, channels: Option<ChannelNames>)
    ensures
        tools_view(tools) is Some <==> tools is Some,
        tools is Some ==> tools_view(tools)->0 == tools->0@,
        channels_view(channels) is Some <==> channels is Some,
        channels is Some ==> channels_view(channels)->0 == channels->0@,
{
}

/// Names are in the order of texts if and only if each comes before the next.
pub proof fn law_ascending_names(names: Seq<Seq<char>>)
    ensures
        ascending(names) <==> forall|i: int|
            0 <= i < names.len() - 1 ==> #[trigger] precedes(names[i], names[i + 1]),
{
    if forall|i: int|
        0 <= i < names.len() - 1 ==> #[trigger] precedes(names[i], names[i + 1]) {
        assert forall|i: int, j: int| 0 <= i < j < names.len() implies precedes(
            #[trigger] names[i],
            #[trigger] names[j],
        ) by {
            lemma_ascending_by_steps(names, i, j);
        }
    }
}

proof fn lemma_ascending_by_steps(names: Seq<Seq<char>>, i: int, j: int)
    requires
        0 <= i < j < names.len(),
        forall|k: int| 0 <= k < names.len() - 1 ==> #[trigger] precedes(names[k], names[k + 1]),
    ensures
        precedes(names[i], names[j]),
    decreases j - i,
{
    assert(precedes(names[j - 1], names[j - 1 + 1]));
    if i < j - 1 {
        lemma_ascending_by_steps(names, i, j - 1);
        lemma_precedes_transitive(names[i], names[j - 1], names[j]);
    }
}

} // verus!
