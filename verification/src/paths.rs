//! Paths as text: joining, splitting into components, and the component-wise
//! prefix test that confinement rests on.
//!
//! A path is a sequence of characters with `/` as its only separator. Its
//! components are the segments between separators, without the empty ones and
//! without `.`; a path that starts with a separator has the root as its first
//! component. Nothing here touches a file system.

use vstd::prelude::*;

verus! {

/// The segments of a path: what stands between its separators. A path with
/// `n` separators has `n + 1` segments, some of which may be empty.
pub open spec fn segments(p: Seq<char>) -> Seq<Seq<char>>
    decreases p.len(),
{
    if p.len() == 0 {
        seq![Seq::<char>::empty()]
    } else {
        let head = segments(p.drop_last());
        if p.last() == '/' {
            head.push(Seq::<char>::empty())
        } else {
            head.drop_last().push(head.last().push(p.last()))
        }
    }
}

/// A segment that names something: it is not empty and not `.`.
pub open spec fn is_name(segment: Seq<char>) -> bool {
    segment.len() > 0 && segment != seq!['.']
}

/// The segments that name something, in order.
pub open spec fn names_of(segments: Seq<Seq<char>>) -> Seq<Seq<char>>
    decreases segments.len(),
{
    if segments.len() == 0 {
        Seq::<Seq<char>>::empty()
    } else {
        let head = names_of(segments.drop_last());
        if is_name(segments.last()) {
            head.push(segments.last())
        } else {
            head
        }
    }
}

/// The names along a path, without the root.
pub open spec fn names(p: Seq<char>) -> Seq<Seq<char>> {
    names_of(segments(p))
}

/// The path starts at the root.
pub open spec fn is_rooted(p: Seq<char>) -> bool {
    p.len() > 0 && p[0] == '/'
}

/// The components of a path: the root, written `/`, where the path starts
/// there, then its names.
pub open spec fn components(p: Seq<char>) -> Seq<Seq<char>> {
    if is_rooted(p) {
        seq![seq!['/']] + names(p)
    } else {
        names(p)
    }
}

/// `p` is `base` or lies below it: the components of `base` are the first
/// components of `p`.
pub open spec fn path_starts_with(p: Seq<char>, base: Seq<char>) -> bool {
    components(base).is_prefix_of(components(p))
}

/// `rel` appended to `base`: an absolute `rel` replaces `base`, and a
/// separator is put between the two unless `base` is empty or ends with one.
pub open spec fn join(base: Seq<char>, rel: Seq<char>) -> Seq<char> {
    if is_rooted(rel) {
        rel
    } else if base.len() == 0 || base.last() == '/' {
        base + rel
    } else {
        base + seq!['/'] + rel
    }
}

/// Names written as a relative path, with one separator between neighbours.
pub open spec fn join_names(names: Seq<Seq<char>>) -> Seq<char>
    decreases names.len(),
{
    if names.len() == 0 {
        Seq::<char>::empty()
    } else if names.len() == 1 {
        names[0]
    } else {
        join_names(names.drop_last()) + seq!['/'] + names.last()
    }
}

/// The path that has the given names, from the root or not.
pub open spec fn render(rooted: bool, names: Seq<Seq<char>>) -> Seq<char> {
    if rooted {
        seq!['/'] + join_names(names)
    } else {
        join_names(names)
    }
}

/// The last name of a path, where it has one that is not `..`.
pub open spec fn final_name(p: Seq<char>) -> Option<Seq<char>> {
    let n = names(p);
    if n.len() == 0 || n.last() == seq!['.', '.'] {
        None
    } else {
        Some(n.last())
    }
}

/// The path without its last name; a path without names stays as it is.
pub open spec fn parent(p: Seq<char>) -> Seq<char> {
    let n = names(p);
    render(
        is_rooted(p),
        if n.len() == 0 {
            n
        } else {
            n.drop_last()
        },
    )
}

/// What is left of `p` after the components of `base`, as a relative path;
/// meaningful where `path_starts_with(p, base)`.
pub open spec fn strip_base(p: Seq<char>, base: Seq<char>) -> Seq<char> {
    join_names(components(p).skip(components(base).len() as int))
}

/// The character sequences that the rows of a table stand for.
pub open spec fn rows(table: Seq<Vec<char>>) -> Seq<Seq<char>> {
    Seq::new(table.len(), |i: int| table[i]@)
}

/// Whether two texts hold the same characters.
pub fn same_chars(a: &Vec<char>, b: &Vec<char>) -> (r: bool)
    ensures
        r == (a@ == b@),
{
    if a.len() != b.len() {
        return false;
    }
    let mut i: usize = 0;
    while i < a.len()
        invariant
            i <= a.len(),
            a.len() == b.len(),
            forall|j: int| 0 <= j < i ==> a@[j] == b@[j],
        decreases a.len() - i,
    {
        if a[i] != b[i] {
            return false;
        }
        i += 1;
    }
    proof {
        assert(a@ =~= b@);
    }
    true
}

/// A copy of a text.
pub fn copy_chars(a: &Vec<char>) -> (r: Vec<char>)
    ensures
        r@ == a@,
{
    let mut r: Vec<char> = Vec::new();
    let mut i: usize = 0;
    while i < a.len()
        invariant
            i <= a.len(),
            r@ == a@.take(i as int),
        decreases a.len() - i,
    {
        r.push(a[i]);
        proof {
            assert(r@ =~= a@.take(i + 1));
        }
        i += 1;
    }
    proof {
        assert(a@.take(a.len() as int) =~= a@);
    }
    r
}

/// Whether a path starts at the root.
pub fn rooted(p: &Vec<char>) -> (r: bool)
    ensures
        r == is_rooted(p@),
{
    p.len() > 0 && p[0] == '/'
}

/// Whether a segment names something.
pub fn names_something(segment: &Vec<char>) -> (r: bool)
    ensures
        r == is_name(segment@),
{
    if segment.len() == 0 {
        return false;
    }
    if segment.len() == 1 && segment[0] == '.' {
        proof {
            assert(segment@ =~= seq!['.']);
        }
        return false;
    }
    proof {
        if segment@.len() == 1 {
            assert(segment@[0] != '.');
        }
    }
    true
}

/// The names along a path.
pub fn split_names(p: &Vec<char>) -> (r: Vec<Vec<char>>)
    ensures
        rows(r@) == names(p@),
{
    let mut done: Vec<Vec<char>> = Vec::new();
    let mut current: Vec<char> = Vec::new();
    let mut i: usize = 0;
    proof {
        assert(p@.take(0) =~= Seq::<char>::empty());
        assert(segments(p@.take(0)).drop_last() =~= Seq::<Seq<char>>::empty());
        assert(rows(done@) =~= Seq::<Seq<char>>::empty());
    }
    while i < p.len()
        invariant
            i <= p.len(),
            segments(p@.take(i as int)).len() > 0,
            rows(done@) == names_of(segments(p@.take(i as int)).drop_last()),
            current@ == segments(p@.take(i as int)).last(),
        decreases p.len() - i,
    {
        let ghost before = segments(p@.take(i as int));
        let ghost after = segments(p@.take(i + 1));
        proof {
            assert(p@.take(i + 1).drop_last() =~= p@.take(i as int));
            assert(p@.take(i + 1).last() == p@[i as int]);
        }
        let c = p[i];
        if c == '/' {
            proof {
                assert(after == before.push(Seq::<char>::empty()));
                assert(after.drop_last() =~= before);
                assert(before.last() == current@);
            }
            if names_something(&current) {
                let ghost old_rows = rows(done@);
                done.push(current);
                proof {
                    assert(rows(done@) =~= old_rows.push(before.last()));
                }
            }
            current = Vec::new();
        } else {
            current.push(c);
            proof {
                assert(after == before.drop_last().push(before.last().push(c)));
                assert(after.drop_last() =~= before.drop_last());
            }
        }
        i += 1;
    }
    proof {
        assert(p@.take(p.len() as int) =~= p@);
    }
    if names_something(&current) {
        let ghost old_rows = rows(done@);
        let ghost last = current@;
        done.push(current);
        proof {
            assert(rows(done@) =~= old_rows.push(last));
        }
    }
    done
}

/// The components of a path: the root where it starts there, then its names.
pub fn split_components(p: &Vec<char>) -> (r: Vec<Vec<char>>)
    ensures
        rows(r@) == components(p@),
{
    let found = split_names(p);
    if !rooted(p) {
        return found;
    }
    let mut all: Vec<Vec<char>> = Vec::new();
    let mut root: Vec<char> = Vec::new();
    root.push('/');
    all.push(root);
    let mut i: usize = 0;
    proof {
        assert(root@ =~= seq!['/']);
        assert(rows(all@) =~= seq![seq!['/']] + rows(found@).take(0));
    }
    while i < found.len()
        invariant
            i <= found.len(),
            rows(all@) == seq![seq!['/']] + rows(found@).take(i as int),
        decreases found.len() - i,
    {
        let ghost old_rows = rows(all@);
        all.push(copy_chars(&found[i]));
        proof {
            assert(rows(all@) =~= old_rows.push(found@[i as int]@));
            assert(rows(found@).take(i + 1) =~= rows(found@).take(i as int).push(
                found@[i as int]@,
            ));
            assert(rows(all@) =~= seq![seq!['/']] + rows(found@).take(i + 1));
        }
        i += 1;
    }
    proof {
        assert(rows(found@).take(found.len() as int) =~= rows(found@));
    }
    all
}

/// Whether the rows of `prefix` are the first rows of `table`.
pub fn rows_start_with(table: &Vec<Vec<char>>, prefix: &Vec<Vec<char>>) -> (r: bool)
    ensures
        r == rows(prefix@).is_prefix_of(rows(table@)),
{
    if prefix.len() > table.len() {
        return false;
    }
    let mut i: usize = 0;
    while i < prefix.len()
        invariant
            i <= prefix.len(),
            prefix.len() <= table.len(),
            forall|j: int| 0 <= j < i ==> rows(prefix@)[j] == rows(table@)[j],
        decreases prefix.len() - i,
    {
        if !same_chars(&table[i], &prefix[i]) {
            proof {
                assert(rows(prefix@)[i as int] != rows(table@)[i as int]);
                if rows(prefix@).is_prefix_of(rows(table@)) {
                    assert(rows(table@).subrange(0, rows(prefix@).len() as int)[i as int]
                        == rows(table@)[i as int]);
                }
            }
            return false;
        }
        i += 1;
    }
    proof {
        assert(rows(prefix@) =~= rows(table@).subrange(0, rows(prefix@).len() as int));
    }
    true
}

/// Whether `p` is `base` or lies below it, component by component.
pub fn starts_with_path(p: &Vec<char>, base: &Vec<char>) -> (r: bool)
    ensures
        r == path_starts_with(p@, base@),
{
    let mine = split_components(p);
    let theirs = split_components(base);
    rows_start_with(&mine, &theirs)
}

/// `rel` appended to `base`.
pub fn join_paths(base: &Vec<char>, rel: &Vec<char>) -> (r: Vec<char>)
    ensures
        r@ == join(base@, rel@),
{
    if rooted(rel) {
        return copy_chars(rel);
    }
    let mut r = copy_chars(base);
    if base.len() > 0 && base[base.len() - 1] != '/' {
        r.push('/');
    }
    let mut i: usize = 0;
    let ghost stem = r@;
    while i < rel.len()
        invariant
            i <= rel.len(),
            r@ == stem + rel@.take(i as int),
        decreases rel.len() - i,
    {
        r.push(rel[i]);
        proof {
            assert(r@ =~= stem + rel@.take(i + 1));
        }
        i += 1;
    }
    proof {
        assert(rel@.take(rel.len() as int) =~= rel@);
        assert(stem + rel@ =~= join(base@, rel@));
    }
    r
}

/// The rows `from..to` of a table written as a relative path.
pub fn join_rows(table: &Vec<Vec<char>>, from: usize, to: usize) -> (r: Vec<char>)
    requires
        from <= to <= table.len(),
    ensures
        r@ == join_names(rows(table@).subrange(from as int, to as int)),
{
    let mut r: Vec<char> = Vec::new();
    let mut i: usize = from;
    proof {
        assert(rows(table@).subrange(from as int, from as int) =~= Seq::<Seq<char>>::empty());
    }
    while i < to
        invariant
            from <= i <= to <= table.len(),
            r@ == join_names(rows(table@).subrange(from as int, i as int)),
        decreases to - i,
    {
        let ghost so_far = rows(table@).subrange(from as int, i as int);
        let ghost next = rows(table@).subrange(from as int, i + 1);
        proof {
            assert(next.drop_last() =~= so_far);
            assert(next.last() == table@[i as int]@);
        }
        if i > from {
            r.push('/');
        }
        let row = &table[i];
        let ghost stem = r@;
        let mut k: usize = 0;
        while k < row.len()
            invariant
                k <= row.len(),
                r@ == stem + row@.take(k as int),
            decreases row.len() - k,
        {
            r.push(row[k]);
            proof {
                assert(r@ =~= stem + row@.take(k + 1));
            }
            k += 1;
        }
        proof {
            assert(row@.take(row.len() as int) =~= row@);
            if i == from {
                assert(next.len() == 1);
                assert(r@ =~= row@);
            } else {
                assert(next.len() > 1);
                assert(r@ =~= join_names(so_far) + seq!['/'] + row@);
            }
        }
        i += 1;
    }
    r
}

/// The last name of a path, where it has one that is not `..`.
pub fn last_name(p: &Vec<char>) -> (r: Option<Vec<char>>)
    ensures
        match r {
            Some(name) => final_name(p@) == Some(name@),
            None => final_name(p@) is None,
        },
{
    let found = split_names(p);
    if found.len() == 0 {
        return None;
    }
    let last = &found[found.len() - 1];
    proof {
        assert(rows(found@).last() == last@);
    }
    if last.len() == 2 && last[0] == '.' && last[1] == '.' {
        proof {
            assert(last@ =~= seq!['.', '.']);
        }
        return None;
    }
    proof {
        if last@ == seq!['.', '.'] {
            assert(last@.len() == 2 && last@[0] == '.' && last@[1] == '.');
        }
    }
    Some(copy_chars(last))
}

/// The path without its last name.
pub fn parent_path(p: &Vec<char>) -> (r: Vec<char>)
    ensures
        r@ == parent(p@),
{
    let found = split_names(p);
    let keep: usize = if found.len() == 0 {
        0
    } else {
        found.len() - 1
    };
    let rest = join_rows(&found, 0, keep);
    proof {
        if found.len() == 0 {
            assert(rows(found@).subrange(0, keep as int) =~= names(p@));
        } else {
            assert(rows(found@).subrange(0, keep as int) =~= names(p@).drop_last());
        }
    }
    if rooted(p) {
        let mut r: Vec<char> = Vec::new();
        r.push('/');
        let mut k: usize = 0;
        while k < rest.len()
            invariant
                k <= rest.len(),
                r@ == seq!['/'] + rest@.take(k as int),
            decreases rest.len() - k,
        {
            r.push(rest[k]);
            proof {
                assert(r@ =~= seq!['/'] + rest@.take(k + 1));
            }
            k += 1;
        }
        proof {
            assert(rest@.take(rest.len() as int) =~= rest@);
        }
        r
    } else {
        rest
    }
}

/// What is left of `p` after the components of `base`, as a relative path,
/// where `p` is `base` or lies below it.
pub fn strip_prefix(p: &Vec<char>, base: &Vec<char>) -> (r: Option<Vec<char>>)
    ensures
        match r {
            Some(rest) => path_starts_with(p@, base@) && rest@ == strip_base(p@, base@),
            None => !path_starts_with(p@, base@),
        },
{
    let mine = split_components(p);
    let theirs = split_components(base);
    if !rows_start_with(&mine, &theirs) {
        return None;
    }
    let rest = join_rows(&mine, theirs.len(), mine.len());
    proof {
        assert(rows(mine@).subrange(theirs.len() as int, mine.len() as int) =~= components(
            p@,
        ).skip(components(base@).len() as int));
    }
    Some(rest)
}

} // verus!
