use vstd::prelude::*;
use regex::Regex;

verus! {

#[verifier::external_type_specification]
#[verifier::external_body]
pub struct ExRegex(Regex);

/// The pattern of an HTML start tag: `<`, a run of ASCII letters and digits
/// (the tag name, captured), then anything up to the next `>`.
pub const TAG_PATTERN: &'static str = "<([a-zA-Z0-9]+)[^>]*>";

/// Whether `Regex::new` accepts `pattern`.
pub uninterp spec fn regex_compiles(pattern: Seq<char>) -> bool;

/// The pattern a regex was compiled from: what `Regex::as_str` returns,
/// documented as the original string of the regex.
pub uninterp spec fn regex_source(re: Regex) -> Seq<char>;

/// What `str::to_lowercase` returns for `s`: its Unicode lowercase form.
pub uninterp spec fn lowercase(s: Seq<char>) -> Seq<char>;

/// Whether `c` is an ASCII letter or digit (the class `[a-zA-Z0-9]`).
pub open spec fn is_ascii_alnum(c: char) -> bool {
    let n = c as u32;
    ('0' as u32 <= n <= '9' as u32) || ('a' as u32 <= n <= 'z' as u32) || ('A' as u32 <= n
        <= 'Z' as u32)
}

/// Whether every character of `s` is ASCII.
pub open spec fn is_ascii_text(s: Seq<char>) -> bool {
    forall|i: int| 0 <= i < s.len() ==> (#[trigger] s[i] as u32) < 128
}

/// `c` with an ASCII capital letter turned into its small letter.
pub open spec fn ascii_lower_char(c: char) -> char {
    if 'A' as u32 <= c as u32 <= 'Z' as u32 {
        ((c as u32) + 32) as char
    } else {
        c
    }
}

/// `s` with its ASCII capital letters turned into small letters.
pub open spec fn ascii_lower(s: Seq<char>) -> Seq<char> {
    s.map_values(|c: char| ascii_lower_char(c))
}

/// Calls `regex::Regex::new` on `pattern`; the result is present exactly
/// when the crate accepts the pattern (`regex_compiles`), and a compiled
/// regex keeps the pattern it was compiled from (`regex_source`).
#[verifier::external_body]
fn compile_regex(pattern: &str) -> (r: Option<Regex>)
    ensures
        r is Some <==> regex_compiles(pattern@),
        r matches Some(re) ==> regex_source(re) == pattern@,
{
    Regex::new(pattern).ok()
}

/// Calls `str::to_lowercase`; the result is named `lowercase` of the input,
/// and for ASCII text, whose Unicode lowercase form is its ASCII one, it is
/// the text with its capital letters made small.
#[verifier::external_body]
fn to_lowercase(s: &str) -> (r: String)
    ensures
        r@ == lowercase(s@),
        is_ascii_text(s@) ==> r@ == ascii_lower(s@),
{
    s.to_lowercase()
}

/// The compiled tag pattern. Its field is private and `TagPattern::new` is
/// its only constructor; its invariant is that the regex was compiled from
/// `TAG_PATTERN`.
pub struct TagPattern {
    regex: Regex,
}

impl TagPattern {
    #[verifier::type_invariant]
    spec fn compiled_from_tag_pattern(self) -> bool {
        regex_source(self.regex) == TAG_PATTERN@
    }

    /// The pattern the regex inside was compiled from.
    pub closed spec fn pattern(self) -> Seq<char> {
        regex_source(self.regex)
    }

    /// Compiles `TAG_PATTERN`; `None` exactly when the regex crate refuses
    /// it, else a pattern compiled from `TAG_PATTERN`.
    pub fn new() -> (r: Option<TagPattern>)
        ensures
            r is Some <==> regex_compiles(TAG_PATTERN@),
            r matches Some(p) ==> p.pattern() == TAG_PATTERN@,
    {
        match compile_regex(TAG_PATTERN) {
            Some(regex) => Some(TagPattern { regex }),
            None => None,
        }
    }
}

/// The index of the first `>` in `s` at or after `i` (`s.len()` where there
/// is none).
pub open spec fn next_close(s: Seq<char>, i: int) -> int
    decreases s.len() - i,
{
    if 0 <= i < s.len() {
        if s[i] == '>' {
            i
        } else {
            next_close(s, i + 1)
        }
    } else {
        s.len() as int
    }
}

/// The end of the run of ASCII letters and digits in `s` that starts at `i`.
pub open spec fn alnum_end(s: Seq<char>, i: int) -> int
    decreases s.len() - i,
{
    if 0 <= i < s.len() && is_ascii_alnum(s[i]) {
        alnum_end(s, i + 1)
    } else {
        i
    }
}

/// The first `>` at or after `i` lies between `i` and the end, and nothing
/// before it from `i` on is a `>`.
pub proof fn lemma_next_close(s: Seq<char>, i: int)
    requires
        0 <= i <= s.len(),
    ensures
        i <= next_close(s, i) <= s.len(),
        next_close(s, i) < s.len() ==> s[next_close(s, i)] == '>',
        forall|k: int| i <= k < next_close(s, i) ==> s[k] != '>',
    decreases s.len() - i,
{
    if i < s.len() && s[i] != '>' {
        lemma_next_close(s, i + 1);
    }
}

proof fn lemma_alnum_end(s: Seq<char>, i: int)
    requires
        0 <= i <= s.len(),
    ensures
        i <= alnum_end(s, i) <= s.len(),
        forall|k: int| i <= k < alnum_end(s, i) ==> is_ascii_alnum(#[trigger] s[k]),
    decreases s.len() - i,
{
    if i < s.len() && is_ascii_alnum(s[i]) {
        lemma_alnum_end(s, i + 1);
    }
}

/// Whether a start tag of `TAG_PATTERN` begins at `p`: a `<`, then an ASCII
/// letter or digit, and a `>` somewhere after it.
pub open spec fn tag_starts_at(s: Seq<char>, p: int) -> bool {
    &&& 0 <= p
    &&& p + 1 < s.len()
    &&& s[p] == '<'
    &&& is_ascii_alnum(s[p + 1])
    &&& next_close(s, p + 1) < s.len()
}

/// The texts of group 1 of the successive matches of `TAG_PATTERN`
/// (`<([a-zA-Z0-9]+)[^>]*>`) in `s`, searching from `p`: the leftmost place
/// where a start tag begins is a match; its group is the longest run of
/// ASCII letters and digits after the `<`, the match runs to the first `>`
/// after that, and the search goes on behind it.
pub open spec fn tag_texts_from(s: Seq<char>, p: int) -> Seq<Seq<char>>
    decreases s.len() - p,
{
    if 0 <= p < s.len() {
        if tag_starts_at(s, p) {
            proof {
                lemma_next_close(s, p + 1);
            }
            seq![s.subrange(p + 1, alnum_end(s, p + 1))] + tag_texts_from(
                s,
                next_close(s, p + 1) + 1,
            )
        } else {
            tag_texts_from(s, p + 1)
        }
    } else {
        Seq::empty()
    }
}

/// Calls `Regex::captures_iter` with a regex compiled from `TAG_PATTERN` on
/// `haystack` and collects group 1 of each match (the group always takes
/// part in a match of this pattern, so indexing it does not panic); the
/// texts are those `tag_texts_from` describes.
#[verifier::external_body]
fn tag_captures(regex: &Regex, haystack: &str) -> (r: Vec<String>)
    requires
        regex_source(*regex) == TAG_PATTERN@,
    ensures
        r@.map_values(|s: String| s@) == tag_texts_from(haystack@, 0),
{
    regex.captures_iter(haystack).map(|c| c[1].to_string()).collect()
}

proof fn lemma_tag_texts_ascii(s: Seq<char>, p: int)
    ensures
        forall|k: int|
            0 <= k < tag_texts_from(s, p).len() ==> is_ascii_text(
                #[trigger] tag_texts_from(s, p)[k],
            ),
    decreases s.len() - p,
{
    if 0 <= p < s.len() {
        if tag_starts_at(s, p) {
            lemma_next_close(s, p + 1);
            lemma_alnum_end(s, p + 1);
            lemma_tag_texts_ascii(s, next_close(s, p + 1) + 1);
            let head = s.subrange(p + 1, alnum_end(s, p + 1));
            let rest = tag_texts_from(s, next_close(s, p + 1) + 1);
            assert(tag_texts_from(s, p) == seq![head] + rest);
            assert forall|k: int| 0 <= k < tag_texts_from(s, p).len() implies is_ascii_text(
                #[trigger] tag_texts_from(s, p)[k],
            ) by {
                if k == 0 {
                    assert forall|i: int| 0 <= i < head.len() implies (#[trigger] head[i] as u32)
                        < 128 by {
                        assert(head[i] == s[p + 1 + i]);
                        assert(is_ascii_alnum(s[p + 1 + i]));
                    }
                } else {
                    assert(tag_texts_from(s, p)[k] == rest[k - 1]);
                }
            }
        } else {
            lemma_tag_texts_ascii(s, p + 1);
            assert(tag_texts_from(s, p) == tag_texts_from(s, p + 1));
        }
    } else {
        assert(tag_texts_from(s, p).len() == 0);
    }
}

/// The lowercase names of the tags in `content`, in order of appearance.
pub open spec fn tag_names(content: Seq<char>) -> Seq<Seq<char>> {
    tag_texts_from(content, 0).map_values(|g: Seq<char>| ascii_lower(g))
}

/// How often `key` is counted in `m` (0 when it is absent).
pub open spec fn count_of(m: Map<Seq<char>, nat>, key: Seq<char>) -> nat {
    if m.dom().contains(key) {
        m[key]
    } else {
        0
    }
}

/// The number of times each name occurs in `names`.
pub open spec fn tally(names: Seq<Seq<char>>) -> Map<Seq<char>, nat>
    decreases names.len(),
{
    if names.len() == 0 {
        Map::empty()
    } else {
        let m = tally(names.drop_last());
        m.insert(names.last(), count_of(m, names.last()) + 1)
    }
}

/// Two tallies added up key by key.
pub open spec fn merged(m1: Map<Seq<char>, nat>, m2: Map<Seq<char>, nat>) -> Map<Seq<char>, nat> {
    Map::new(
        |k: Seq<char>| m1.dom().contains(k) || m2.dom().contains(k),
        |k: Seq<char>| count_of(m1, k) + count_of(m2, k),
    )
}

/// The tag tally of a sequence of documents: the tallies of the documents
/// merged from first to last.
pub open spec fn corpus_tally(contents: Seq<Seq<char>>) -> Map<Seq<char>, nat>
    decreases contents.len(),
{
    if contents.len() == 0 {
        Map::empty()
    } else {
        merged(corpus_tally(contents.drop_last()), tally(tag_names(contents.last())))
    }
}

/// The texts of a list of documents.
pub open spec fn documents(contents: Seq<String>) -> Seq<Seq<char>> {
    contents.map_values(|s: String| s@)
}

/// The map a list of (name, count) entries stands for.
pub open spec fn entries_map(s: Seq<(String, usize)>) -> Map<Seq<char>, nat>
    decreases s.len(),
{
    if s.len() == 0 {
        Map::empty()
    } else {
        entries_map(s.drop_last()).insert(s.last().0@, s.last().1 as nat)
    }
}

/// No name occurs twice in the entries.
pub open spec fn keys_distinct(s: Seq<(String, usize)>) -> bool {
    forall|i: int, j: int| 0 <= i < j < s.len() ==> s[i].0@ != s[j].0@
}

proof fn lemma_entries_map_dom(s: Seq<(String, usize)>, k: Seq<char>)
    ensures
        entries_map(s).dom().contains(k) <==> exists|i: int| 0 <= i < s.len() && s[i].0@ == k,
    decreases s.len(),
{
    if s.len() > 0 {
        lemma_entries_map_dom(s.drop_last(), k);
        if entries_map(s.drop_last()).dom().contains(k) {
            let i = choose|i: int| 0 <= i < s.drop_last().len() && s.drop_last()[i].0@ == k;
            assert(s[i].0@ == k);
        }
        if exists|i: int| 0 <= i < s.len() && s[i].0@ == k {
            let i = choose|i: int| 0 <= i < s.len() && s[i].0@ == k;
            if i < s.len() - 1 {
                assert(s.drop_last()[i].0@ == k);
            }
        }
    }
}

proof fn lemma_entries_map_value(s: Seq<(String, usize)>, i: int)
    requires
        keys_distinct(s),
        0 <= i < s.len(),
    ensures
        entries_map(s).dom().contains(s[i].0@),
        entries_map(s)[s[i].0@] == s[i].1 as nat,
    decreases s.len(),
{
    if i < s.len() - 1 {
        lemma_entries_map_value(s.drop_last(), i);
        assert(s.drop_last()[i] == s[i]);
    }
}

proof fn lemma_entries_map_update(s: Seq<(String, usize)>, i: int, e: (String, usize))
    requires
        keys_distinct(s),
        0 <= i < s.len(),
        e.0@ == s[i].0@,
    ensures
        keys_distinct(s.update(i, e)),
        entries_map(s.update(i, e)) == entries_map(s).insert(e.0@, e.1 as nat),
    decreases s.len(),
{
    let t = s.update(i, e);
    if i == s.len() - 1 {
        assert(t.drop_last() =~= s.drop_last());
        lemma_entries_map_dom(s.drop_last(), e.0@);
        assert(!entries_map(s.drop_last()).dom().contains(e.0@));
        assert(entries_map(s) == entries_map(s.drop_last()).insert(s.last().0@, s.last().1 as nat));
        assert(entries_map(t) =~= entries_map(s).insert(e.0@, e.1 as nat));
    } else {
        assert(t.drop_last() =~= s.drop_last().update(i, e));
        lemma_entries_map_update(s.drop_last(), i, e);
        assert(s.last().0@ != e.0@);
        assert(entries_map(t) =~= entries_map(s).insert(e.0@, e.1 as nat));
    }
}

proof fn lemma_entries_map_len(s: Seq<(String, usize)>)
    requires
        keys_distinct(s),
    ensures
        entries_map(s).dom().finite(),
        entries_map(s).dom().len() == s.len(),
    decreases s.len(),
{
    if s.len() > 0 {
        lemma_entries_map_len(s.drop_last());
        lemma_entries_map_dom(s.drop_last(), s.last().0@);
    }
}

/// Tag counts: each tag name with the number of times it was seen.
///
/// The counts live in a vector of pairs, each name at most once, rather than
/// in a `HashMap<String, usize>`: vstd specifies what `HashMap` does only for
/// keys that obey its key model (`obeys_key_model`), which it establishes for
/// integers, `bool` and boxes of them but not for `String`, and nothing short
/// of an assumption could establish it here.
pub struct TagCounts {
    entries: Vec<(String, usize)>,
}

impl View for TagCounts {
    type V = Map<Seq<char>, nat>;

    closed spec fn view(&self) -> Map<Seq<char>, nat> {
        entries_map(self.entries@)
    }
}

impl TagCounts {
    /// No tag name is listed twice.
    pub closed spec fn wf(&self) -> bool {
        keys_distinct(self.entries@)
    }

    /// No tags counted.
    pub fn new() -> (r: TagCounts)
        ensures
            r.wf(),
            r@ == Map::<Seq<char>, nat>::empty(),
    {
        TagCounts { entries: Vec::new() }
    }

    fn find(&self, key: &String) -> (r: Option<usize>)
        requires
            self.wf(),
        ensures
            match r {
                Some(i) => i < self.entries@.len() && self.entries@[i as int].0@ == key@,
                None => !self@.dom().contains(key@),
            },
    {
        let mut i: usize = 0;
        while i < self.entries.len()
            invariant
                i <= self.entries@.len(),
                forall|k: int| 0 <= k < i ==> self.entries@[k].0@ != key@,
            decreases self.entries@.len() - i,
        {
            if self.entries[i].0 == *key {
                return Some(i);
            }
            i = i + 1;
        }
        proof {
            lemma_entries_map_dom(self.entries@, key@);
        }
        None
    }

    /// Adds `n` to the count of `key`.
    pub fn add(&mut self, key: String, n: usize)
        requires
            old(self).wf(),
            count_of(old(self)@, key@) + n <= usize::MAX,
        ensures
            final(self).wf(),
            final(self)@ == old(self)@.insert(key@, (count_of(old(self)@, key@) + n) as nat),
    {
        match self.find(&key) {
            Some(i) => {
                let old_count = self.entries[i].1;
                proof {
                    lemma_entries_map_value(self.entries@, i as int);
                    lemma_entries_map_update(self.entries@, i as int, (key, (old_count + n) as usize));
                }
                self.entries.set(i, (key, old_count + n));
            },
            None => {
                proof {
                    let pushed = self.entries@.push((key, n));
                    assert forall|a: int, b: int|
                        0 <= a < b < pushed.len() implies #[trigger] pushed[a].0@
                        != #[trigger] pushed[b].0@ by {
                        if b == self.entries@.len() {
                            lemma_entries_map_dom(self.entries@, key@);
                            assert(pushed[a] == self.entries@[a]);
                        } else {
                            assert(pushed[a] == self.entries@[a]);
                            assert(pushed[b] == self.entries@[b]);
                        }
                    }
                    assert(self.entries@.push((key, n)).drop_last() =~= self.entries@);
                }
                self.entries.push((key, n));
            },
        }
    }

    /// The number of distinct tag names counted.
    pub fn len(&self) -> (r: usize)
        requires
            self.wf(),
        ensures
            self@.dom().finite(),
            r == self@.dom().len(),
    {
        proof {
            lemma_entries_map_len(self.entries@);
        }
        self.entries.len()
    }

    /// How often `tag` was counted (0 when never).
    pub fn get(&self, tag: &String) -> (r: usize)
        requires
            self.wf(),
        ensures
            r == count_of(self@, tag@),
    {
        match self.find(tag) {
            Some(i) => {
                proof {
                    lemma_entries_map_value(self.entries@, i as int);
                }
                self.entries[i].1
            },
            None => 0,
        }
    }
}

proof fn lemma_tally_bound(names: Seq<Seq<char>>, k: Seq<char>)
    ensures
        count_of(tally(names), k) <= names.len(),
        tally(names).dom().finite(),
    decreases names.len(),
{
    if names.len() > 0 {
        lemma_tally_bound(names.drop_last(), k);
    }
}

proof fn lemma_merged_insert(a: Map<Seq<char>, nat>, b: Map<Seq<char>, nat>, k: Seq<char>, v: nat)
    requires
        !b.dom().contains(k),
    ensures
        merged(a, b.insert(k, v)) == merged(a, b).insert(k, count_of(merged(a, b), k) + v),
{
    assert(merged(a, b.insert(k, v)) =~= merged(a, b).insert(k, count_of(merged(a, b), k) + v));
}

/// Merging tallies does not depend on their order.
pub proof fn lemma_merged_commutative(m1: Map<Seq<char>, nat>, m2: Map<Seq<char>, nat>)
    ensures
        merged(m1, m2) == merged(m2, m1),
{
    assert(merged(m1, m2) =~= merged(m2, m1));
}

/// Merging tallies does not depend on how they are grouped.
pub proof fn lemma_merged_associative(
    m1: Map<Seq<char>, nat>,
    m2: Map<Seq<char>, nat>,
    m3: Map<Seq<char>, nat>,
)
    ensures
        merged(merged(m1, m2), m3) == merged(m1, merged(m2, m3)),
{
    assert(merged(merged(m1, m2), m3) =~= merged(m1, merged(m2, m3)));
}

/// The empty tally is the unit of merging.
pub proof fn lemma_merged_empty(m: Map<Seq<char>, nat>)
    ensures
        merged(m, Map::empty()) == m,
        merged(Map::empty(), m) == m,
{
    assert(merged(m, Map::empty()) =~= m);
    assert(merged(Map::empty(), m) =~= m);
}

/// Counting two runs of names one after the other gives the merge of their
/// separate counts.
pub proof fn lemma_tally_concat(a: Seq<Seq<char>>, b: Seq<Seq<char>>)
    ensures
        tally(a + b) == merged(tally(a), tally(b)),
    decreases b.len(),
{
    if b.len() == 0 {
        assert(a + b =~= a);
        lemma_merged_empty(tally(a));
    } else {
        lemma_tally_concat(a, b.drop_last());
        assert((a + b).drop_last() =~= a + b.drop_last());
        assert((a + b).last() == b.last());
        let k = b.last();
        let ta = tally(a);
        let tb = tally(b.drop_last());
        assert(tally(b) =~= tb.remove(k).insert(k, count_of(tb, k) + 1));
        lemma_merged_insert(ta, tb.remove(k), k, count_of(tb, k) + 1);
        assert(merged(ta, tb.remove(k)).insert(k, count_of(merged(ta, tb.remove(k)), k) + count_of(
            tb,
            k,
        ) + 1) =~= merged(ta, tb).insert(k, count_of(merged(ta, tb), k) + 1));
    }
}

/// The tally of documents split into two parts is the merge of the tallies
/// of the parts: counting in parallel halves and merging (fork-join, map
/// and reduce) gives what counting in one sequence gives.
pub proof fn lemma_corpus_tally_split(a: Seq<Seq<char>>, b: Seq<Seq<char>>)
    ensures
        corpus_tally(a + b) == merged(corpus_tally(a), corpus_tally(b)),
    decreases b.len(),
{
    if b.len() == 0 {
        assert(a + b =~= a);
        lemma_merged_empty(corpus_tally(a));
    } else {
        lemma_corpus_tally_split(a, b.drop_last());
        assert((a + b).drop_last() =~= a + b.drop_last());
        assert((a + b).last() == b.last());
        lemma_merged_associative(
            corpus_tally(a),
            corpus_tally(b.drop_last()),
            tally(tag_names(b.last())),
        );
    }
}

proof fn lemma_corpus_tally_monotone(s: Seq<Seq<char>>, i: int, k: Seq<char>)
    requires
        0 <= i <= s.len(),
    ensures
        count_of(corpus_tally(s.take(i)), k) <= count_of(corpus_tally(s), k),
    decreases s.len() - i,
{
    if i < s.len() {
        lemma_corpus_tally_monotone(s, i + 1, k);
        assert(s.take(i + 1).drop_last() =~= s.take(i));
    } else {
        assert(s.take(i) =~= s);
    }
}

/// Counts the tags of one document: each tag name, lowercased, with the
/// number of times it opens a tag in `content`.
pub fn count_tags(pattern: &TagPattern, content: &str) -> (r: TagCounts)
    ensures
        r.wf(),
        r@ == tally(tag_names(content@)),
{
    proof {
        use_type_invariant(pattern);
        lemma_tag_texts_ascii(content@, 0);
    }
    let caps = tag_captures(&pattern.regex, content);
    let ghost names = tag_names(content@);
    let mut counts = TagCounts::new();
    let mut i: usize = 0;
    while i < caps.len()
        invariant
            i <= caps@.len(),
            names == tag_names(content@),
            caps@.map_values(|s: String| s@) == tag_texts_from(content@, 0),
            forall|k: int|
                0 <= k < tag_texts_from(content@, 0).len() ==> is_ascii_text(
                    #[trigger] tag_texts_from(content@, 0)[k],
                ),
            counts.wf(),
            counts@ == tally(names.take(i as int)),
        decreases caps@.len() - i,
    {
        proof {
            assert(caps@.map_values(|s: String| s@)[i as int] == caps@[i as int]@);
            assert(is_ascii_text(tag_texts_from(content@, 0)[i as int]));
        }
        let lower = to_lowercase(caps[i].as_str());
        proof {
            assert(names[i as int] == lower@);
            lemma_tally_bound(names.take(i as int), lower@);
            assert(names.take(i + 1).drop_last() =~= names.take(i as int));
        }
        counts.add(lower, 1);
        i = i + 1;
    }
    proof {
        assert(names.take(caps@.len() as int) =~= names);
    }
    counts
}

/// Adds the counts of `map2` into `map1`.
pub fn merge_maps(map1: TagCounts, map2: TagCounts) -> (r: TagCounts)
    requires
        map1.wf(),
        map2.wf(),
        forall|k: Seq<char>| #[trigger] count_of(map1@, k) + count_of(map2@, k) <= usize::MAX,
    ensures
        r.wf(),
        r@ == merged(map1@, map2@),
{
    let mut total = map1;
    let ghost m1 = map1@;
    let ghost e2 = map2.entries@;
    let mut i: usize = 0;
    proof {
        assert(e2.take(0) =~= Seq::<(String, usize)>::empty());
        lemma_merged_empty(m1);
    }
    while i < map2.entries.len()
        invariant
            i <= e2.len(),
            e2 == map2.entries@,
            keys_distinct(e2),
            map2@ == entries_map(e2),
            m1 == map1@,
            forall|k: Seq<char>| #[trigger] count_of(m1, k) + count_of(map2@, k) <= usize::MAX,
            total.wf(),
            total@ == merged(m1, entries_map(e2.take(i as int))),
        decreases e2.len() - i,
    {
        let key = map2.entries[i].0.clone();
        let n = map2.entries[i].1;
        proof {
            let t = e2.take(i as int);
            assert(e2.take(i + 1).drop_last() =~= t);
            assert(e2.take(i + 1).last() == e2[i as int]);
            lemma_entries_map_dom(t, key@);
            assert forall|j: int| 0 <= j < t.len() implies t[j].0@ != key@ by {
                assert(t[j] == e2[j]);
            }
            lemma_merged_insert(m1, entries_map(t), key@, n as nat);
            lemma_entries_map_value(e2, i as int);
        }
        total.add(key, n);
        i = i + 1;
    }
    proof {
        assert(e2.take(e2.len() as int) =~= e2);
    }
    total
}

/// Whether every count of a tally fits in a `usize`.
pub open spec fn fits_usize(m: Map<Seq<char>, nat>) -> bool {
    forall|k: Seq<char>| #[trigger] count_of(m, k) <= usize::MAX
}

/// Whether adding two tallies key by key keeps every sum within a `usize`.
pub open spec fn merge_fits(m1: Map<Seq<char>, nat>, m2: Map<Seq<char>, nat>) -> bool {
    forall|k: Seq<char>| #[trigger] count_of(m1, k) + count_of(m2, k) <= usize::MAX
}

proof fn lemma_counts_fit(c: &TagCounts)
    requires
        c.wf(),
    ensures
        fits_usize(c@),
{
    assert forall|k: Seq<char>| #[trigger] count_of(c@, k) <= usize::MAX by {
        lemma_entries_map_dom(c.entries@, k);
        if c@.dom().contains(k) {
            let j = choose|j: int| 0 <= j < c.entries@.len() && c.entries@[j].0@ == k;
            lemma_entries_map_value(c.entries@, j);
        }
    }
}

/// Adds the counts of `map2` into `map1`, or gives `None` where the sum for
/// some tag would overflow a `usize`.
pub fn try_merge_maps(map1: TagCounts, map2: TagCounts) -> (r: Option<TagCounts>)
    requires
        map1.wf(),
        map2.wf(),
    ensures
        r is Some <==> merge_fits(map1@, map2@),
        r matches Some(m) ==> m.wf() && m@ == merged(map1@, map2@),
{
    let mut i: usize = 0;
    while i < map2.entries.len()
        invariant
            i <= map2.entries@.len(),
            map1.wf(),
            map2.wf(),
            forall|j: int|
                0 <= j < i ==> count_of(map1@, #[trigger] map2.entries@[j].0@) + map2.entries@[j].1
                    <= usize::MAX,
        decreases map2.entries@.len() - i,
    {
        let have = map1.get(&map2.entries[i].0);
        match have.checked_add(map2.entries[i].1) {
            None => {
                proof {
                    let k = map2.entries@[i as int].0@;
                    lemma_entries_map_value(map2.entries@, i as int);
                    assert(count_of(map1@, k) + count_of(map2@, k) > usize::MAX);
                }
                return None;
            },
            Some(_) => {},
        }
        i = i + 1;
    }
    proof {
        assert forall|k: Seq<char>| #[trigger]
            count_of(map1@, k) + count_of(map2@, k) <= usize::MAX by {
            lemma_counts_fit(&map1);
            lemma_entries_map_dom(map2.entries@, k);
            if map2@.dom().contains(k) {
                let j = choose|j: int| 0 <= j < map2.entries@.len() && map2.entries@[j].0@ == k;
                lemma_entries_map_value(map2.entries@, j);
            }
        }
    }
    Some(merge_maps(map1, map2))
}

/// Counts the tags of every document in order and merges the counts: the
/// tally of the whole corpus.
pub fn run_sequential(pattern: &TagPattern, contents: &Vec<String>) -> (r: TagCounts)
    requires
        forall|k: Seq<char>|
            #[trigger] count_of(corpus_tally(documents(contents@)), k) <= usize::MAX,
    ensures
        r.wf(),
        r@ == corpus_tally(documents(contents@)),
{
    let ghost docs = documents(contents@);
    let mut total = TagCounts::new();
    let mut i: usize = 0;
    proof {
        assert(docs.take(0) =~= Seq::<Seq<char>>::empty());
    }
    while i < contents.len()
        invariant
            i <= contents@.len(),
            docs == documents(contents@),
            forall|k: Seq<char>| #[trigger] count_of(corpus_tally(docs), k) <= usize::MAX,
            total.wf(),
            total@ == corpus_tally(docs.take(i as int)),
        decreases contents@.len() - i,
    {
        let counts = count_tags(pattern, contents[i].as_str());
        proof {
            assert(docs.take(i + 1).drop_last() =~= docs.take(i as int));
            assert(docs.take(i + 1).last() == contents@[i as int]@);
            assert forall|k: Seq<char>| #[trigger] count_of(total@, k) + count_of(counts@, k) <= usize::MAX by {
                lemma_corpus_tally_monotone(docs, i + 1, k);
            }
        }
        total = merge_maps(total, counts);
        i = i + 1;
    }
    proof {
        assert(docs.take(contents@.len() as int) =~= docs);
    }
    total
}

/// Counts the tags of every document in order and merges the counts, or
/// gives `None` where the count of some tag over the corpus overflows a
/// `usize`.
pub fn try_run_sequential(pattern: &TagPattern, contents: &Vec<String>) -> (r: Option<TagCounts>)
    ensures
        r is Some <==> fits_usize(corpus_tally(documents(contents@))),
        r matches Some(m) ==> m.wf() && m@ == corpus_tally(documents(contents@)),
{
    let ghost docs = documents(contents@);
    let mut total = TagCounts::new();
    let mut i: usize = 0;
    proof {
        assert(docs.take(0) =~= Seq::<Seq<char>>::empty());
    }
    while i < contents.len()
        invariant
            i <= contents@.len(),
            docs == documents(contents@),
            total.wf(),
            total@ == corpus_tally(docs.take(i as int)),
        decreases contents@.len() - i,
    {
        let counts = count_tags(pattern, contents[i].as_str());
        proof {
            assert(docs.take(i + 1).drop_last() =~= docs.take(i as int));
            assert(docs.take(i + 1).last() == contents@[i as int]@);
        }
        match try_merge_maps(total, counts) {
            None => {
                proof {
                    let k = choose|k: Seq<char>|
                        count_of(total@, k) + count_of(counts@, k) > usize::MAX;
                    lemma_corpus_tally_monotone(docs, i + 1, k);
                    assert(count_of(corpus_tally(docs), k) > usize::MAX);
                }
                return None;
            },
            Some(m) => {
                total = m;
            },
        }
        i = i + 1;
    }
    proof {
        assert(docs.take(contents@.len() as int) =~= docs);
        lemma_counts_fit(&total);
    }
    Some(total)
}

} // verus!
