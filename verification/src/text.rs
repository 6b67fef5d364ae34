//! Character sequences: where a pattern occurs in a text, and which pattern of
//! a table is found first.
//!
//! Every rule of this library is a statement about the characters of its
//! input, so the input is read once into a `Vec<char>` and all searching is
//! done on that.

use vstd::prelude::*;
use vstd::utf8::encode_utf8;

verus! {

/// `p` stands in `s` at index `i`.
pub open spec fn occurs_at(s: Seq<char>, p: Seq<char>, i: int) -> bool {
    &&& 0 <= i
    &&& i + p.len() <= s.len()
    &&& s.subrange(i, i + p.len()) == p
}

/// `p` is a contiguous part of `s`.
pub open spec fn occurs(s: Seq<char>, p: Seq<char>) -> bool {
    exists|i: int| occurs_at(s, p, i)
}

/// `i` is the least index at which `p` stands in `s`.
pub open spec fn is_first_occurrence(s: Seq<char>, p: Seq<char>, i: int) -> bool {
    &&& occurs_at(s, p, i)
    &&& forall|j: int| 0 <= j < i ==> !occurs_at(s, p, j)
}

/// The least index at which `p` stands in `s`; meaningful where `occurs(s, p)`.
pub open spec fn first_occurrence(s: Seq<char>, p: Seq<char>) -> int {
    choose|i: int| is_first_occurrence(s, p, i)
}

/// `s` begins with `p`.
pub open spec fn has_prefix(s: Seq<char>, p: Seq<char>) -> bool {
    occurs_at(s, p, 0)
}

/// `s` ends with the character `c`.
pub open spec fn ends_with_char(s: Seq<char>, c: char) -> bool {
    s.len() > 0 && s.last() == c
}

/// Pattern `k` of the table occurs in `s`, and none before it does.
pub open spec fn is_first_hit(s: Seq<char>, table: Seq<Seq<char>>, k: int) -> bool {
    &&& 0 <= k < table.len()
    &&& occurs(s, table[k])
    &&& forall|j: int| 0 <= j < k ==> !occurs(s, #[trigger] table[j])
}

/// Some pattern of the table occurs in `s`.
pub open spec fn any_hit(s: Seq<char>, table: Seq<Seq<char>>) -> bool {
    exists|k: int| 0 <= k < table.len() && occurs(s, #[trigger] table[k])
}

/// The index of the first pattern of the table that occurs in `s`;
/// meaningful where `any_hit(s, table)`.
pub open spec fn first_hit(s: Seq<char>, table: Seq<Seq<char>>) -> int {
    choose|k: int| is_first_hit(s, table, k)
}

/// Pattern `k` of the table is a prefix of `s`, and none before it is.
pub open spec fn is_first_prefix_hit(s: Seq<char>, table: Seq<Seq<char>>, k: int) -> bool {
    &&& 0 <= k < table.len()
    &&& has_prefix(s, table[k])
    &&& forall|j: int| 0 <= j < k ==> !has_prefix(s, #[trigger] table[j])
}

/// Some pattern of the table is a prefix of `s`.
pub open spec fn any_prefix_hit(s: Seq<char>, table: Seq<Seq<char>>) -> bool {
    exists|k: int| 0 <= k < table.len() && has_prefix(s, #[trigger] table[k])
}

/// The index of the first pattern of the table that is a prefix of `s`;
/// meaningful where `any_prefix_hit(s, table)`.
pub open spec fn first_prefix_hit(s: Seq<char>, table: Seq<Seq<char>>) -> int {
    choose|k: int| is_first_prefix_hit(s, table, k)
}

/// The character sequences that a table of string slices stands for.
pub open spec fn table_view(table: Seq<&'static str>) -> Seq<Seq<char>> {
    Seq::new(table.len(), |k: int| table[k]@)
}

/// There is only one first occurrence.
pub proof fn lemma_first_occurrence(s: Seq<char>, p: Seq<char>, i: int)
    requires
        is_first_occurrence(s, p, i),
    ensures
        occurs(s, p),
        first_occurrence(s, p) == i,
{
    let j = first_occurrence(s, p);
    assert(is_first_occurrence(s, p, j));
    if j < i {
        assert(!occurs_at(s, p, j));
    } else if i < j {
        assert(!occurs_at(s, p, i));
    }
}

/// There is only one first hit in a table.
pub proof fn lemma_first_hit(s: Seq<char>, table: Seq<Seq<char>>, k: int)
    requires
        is_first_hit(s, table, k),
    ensures
        any_hit(s, table),
        first_hit(s, table) == k,
{
    let j = first_hit(s, table);
    assert(is_first_hit(s, table, j));
    if j < k {
        assert(!occurs(s, table[j]));
    } else if k < j {
        assert(!occurs(s, table[k]));
    }
}

/// A table with a hit has a first hit.
pub proof fn lemma_any_hit_has_first(s: Seq<char>, table: Seq<Seq<char>>)
    requires
        any_hit(s, table),
    ensures
        is_first_hit(s, table, first_hit(s, table)),
{
    let w = choose|k: int| 0 <= k < table.len() && occurs(s, #[trigger] table[k]);
    lemma_least_hit(s, table, w);
}

proof fn lemma_least_hit(s: Seq<char>, table: Seq<Seq<char>>, w: int)
    requires
        0 <= w < table.len(),
        occurs(s, table[w]),
    ensures
        is_first_hit(s, table, first_hit(s, table)),
    decreases w,
{
    if exists|j: int| 0 <= j < w && occurs(s, #[trigger] table[j]) {
        let j = choose|j: int| 0 <= j < w && occurs(s, #[trigger] table[j]);
        lemma_least_hit(s, table, j);
    } else {
        assert(is_first_hit(s, table, w));
    }
}

/// There is only one first prefix hit in a table.
pub proof fn lemma_first_prefix_hit(s: Seq<char>, table: Seq<Seq<char>>, k: int)
    requires
        is_first_prefix_hit(s, table, k),
    ensures
        any_prefix_hit(s, table),
        first_prefix_hit(s, table) == k,
{
    let j = first_prefix_hit(s, table);
    assert(is_first_prefix_hit(s, table, j));
    if j < k {
        assert(!has_prefix(s, table[j]));
    } else if k < j {
        assert(!has_prefix(s, table[k]));
    }
}

/// The characters of a string slice.
pub fn chars_of(s: &str) -> (v: Vec<char>)
    ensures
        v@ == s@,
{
    let mut v: Vec<char> = Vec::new();
    for c in it: s.chars()
        invariant
            v@ == it.seq().take(it.index() as int),
            it.seq() == s@,
    {
        v.push(c);
    }
    v
}

/// The length of a text in bytes of UTF-8.
pub fn byte_length(s: &str) -> (n: usize)
    ensures
        n == encode_utf8(s@).len(),
{
    s.as_bytes().len()
}

/// A string of one character.
pub fn char_string(c: char) -> (s: String)
    ensures
        s@ == seq![c],
{
    let mut s = String::new();
    s.push(c);
    proof {
        assert(s@ =~= seq![c]);
    }
    s
}

/// A string of the given characters.
pub fn string_of(v: &Vec<char>) -> (s: String)
    ensures
        s@ == v@,
{
    let mut s = String::new();
    let mut i: usize = 0;
    while i < v.len()
        invariant
            i <= v.len(),
            s@ == v@.take(i as int),
        decreases v.len() - i,
    {
        s.push(v[i]);
        proof {
            assert(s@ =~= v@.take(i + 1));
        }
        i += 1;
    }
    proof {
        assert(v@.take(v.len() as int) =~= v@);
    }
    s
}

/// The characters of `v` from index `from` on.
pub fn skip_chars(v: &Vec<char>, from: usize) -> (r: Vec<char>)
    requires
        from <= v.len(),
    ensures
        r@ == v@.skip(from as int),
{
    let mut r: Vec<char> = Vec::new();
    let mut i: usize = from;
    while i < v.len()
        invariant
            from <= i <= v.len(),
            r@ == v@.subrange(from as int, i as int),
        decreases v.len() - i,
    {
        r.push(v[i]);
        proof {
            assert(r@ =~= v@.subrange(from as int, i + 1));
        }
        i += 1;
    }
    proof {
        assert(r@ =~= v@.skip(from as int));
    }
    r
}

/// Whether `needle` stands in `hay` at index `i`.
pub fn matches_at(hay: &Vec<char>, needle: &Vec<char>, i: usize) -> (r: bool)
    ensures
        r == occurs_at(hay@, needle@, i as int),
{
    let n: usize = needle.len();
    if n > hay.len() || i > hay.len() - n {
        return false;
    }
    let mut k: usize = 0;
    while k < n
        invariant
            k <= n,
            n == needle.len(),
            i + n <= hay.len(),
            forall|j: int| 0 <= j < k ==> hay@[i + j] == needle@[j],
        decreases n - k,
    {
        if hay[i + k] != needle[k] {
            proof {
                let sub = hay@.subrange(i as int, i + n);
                assert(sub[k as int] == hay@[i + k]);
            }
            return false;
        }
        k += 1;
    }
    proof {
        assert(hay@.subrange(i as int, i + n) =~= needle@);
    }
    true
}

/// The first index of `hay` at which `needle` stands, if there is one.
pub fn find(hay: &Vec<char>, needle: &Vec<char>) -> (r: Option<usize>)
    ensures
        match r {
            Some(i) => is_first_occurrence(hay@, needle@, i as int),
            None => !occurs(hay@, needle@),
        },
{
    let n: usize = needle.len();
    if n > hay.len() {
        return None;
    }
    let last: usize = hay.len() - n;
    let mut i: usize = 0;
    loop
        invariant
            i <= last,
            last + n == hay.len(),
            n == needle.len(),
            forall|j: int| 0 <= j < i ==> !occurs_at(hay@, needle@, j),
        decreases last - i,
    {
        if matches_at(hay, needle, i) {
            return Some(i);
        }
        if i == last {
            return None;
        }
        i += 1;
    }
}

/// Whether `hay` begins with `needle`.
pub fn starts_with(hay: &Vec<char>, needle: &Vec<char>) -> (r: bool)
    ensures
        r == has_prefix(hay@, needle@),
{
    matches_at(hay, needle, 0)
}

/// The first pattern of the table that occurs in `hay`, with the place of its
/// first occurrence.
pub fn scan_table(hay: &Vec<char>, table: &Vec<&'static str>) -> (r: Option<(usize, usize)>)
    ensures
        match r {
            Some((k, at)) => {
                &&& is_first_hit(hay@, table_view(table@), k as int)
                &&& is_first_occurrence(hay@, table@[k as int]@, at as int)
            },
            None => !any_hit(hay@, table_view(table@)),
        },
{
    let mut k: usize = 0;
    while k < table.len()
        invariant
            k <= table@.len(),
            forall|j: int| 0 <= j < k ==> !occurs(hay@, #[trigger] table_view(table@)[j]),
        decreases table@.len() - k,
    {
        let needle = chars_of(table[k]);
        match find(hay, &needle) {
            Some(at) => {
                proof {
                    assert(table_view(table@)[k as int] == needle@);
                    assert(occurs_at(hay@, needle@, at as int));
                }
                return Some((k, at));
            },
            None => {
                assert(table_view(table@)[k as int] == needle@);
            },
        }
        k += 1;
    }
    None
}

/// The first pattern of the table that `hay` begins with.
pub fn scan_prefix_table(hay: &Vec<char>, table: &Vec<&'static str>) -> (r: Option<usize>)
    ensures
        match r {
            Some(k) => is_first_prefix_hit(hay@, table_view(table@), k as int),
            None => !any_prefix_hit(hay@, table_view(table@)),
        },
{
    let mut k: usize = 0;
    while k < table.len()
        invariant
            k <= table@.len(),
            forall|j: int| 0 <= j < k ==> !has_prefix(hay@, #[trigger] table_view(table@)[j]),
        decreases table@.len() - k,
    {
        let needle = chars_of(table[k]);
        assert(table_view(table@)[k as int] == needle@);
        if starts_with(hay, &needle) {
            return Some(k);
        }
        k += 1;
    }
    None
}

} // verus!
