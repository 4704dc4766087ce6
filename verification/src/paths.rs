use vstd::prelude::*;

verus! {

// A file path is modelled as its byte string.  Directory entries of one
// directory share their directory prefix, so byte-wise lexicographic order
// on whole paths orders them by file name, which is the order the entry
// list is kept in.

/// Byte value of `/`, the directory separator in this model.
pub const SEPARATOR: u8 = 47;

/// Byte value of `.`, which introduces a file extension.
pub const DOT: u8 = 46;

/// The byte strings of a list of paths.
pub open spec fn views_of(s: Seq<Vec<u8>>) -> Seq<Seq<u8>> {
    s.map_values(|p: Vec<u8>| p@)
}

/// Strict byte-wise lexicographic order on byte strings.
pub open spec fn lex_lt(a: Seq<u8>, b: Seq<u8>) -> bool
    decreases a.len(),
{
    if b.len() == 0 {
        false
    } else if a.len() == 0 {
        true
    } else if a[0] < b[0] {
        true
    } else if a[0] > b[0] {
        false
    } else {
        lex_lt(a.drop_first(), b.drop_first())
    }
}

/// Reflexive byte-wise lexicographic order.
pub open spec fn lex_le(a: Seq<u8>, b: Seq<u8>) -> bool {
    lex_lt(a, b) || a =~= b
}

pub proof fn lemma_lex_lt_irreflexive(a: Seq<u8>)
    ensures
        !lex_lt(a, a),
    decreases a.len(),
{
    if a.len() > 0 {
        lemma_lex_lt_irreflexive(a.drop_first());
    }
}

pub proof fn lemma_lex_lt_asymmetric(a: Seq<u8>, b: Seq<u8>)
    requires
        lex_lt(a, b),
    ensures
        !lex_lt(b, a),
    decreases a.len(),
{
    if a.len() > 0 && b.len() > 0 && a[0] == b[0] {
        lemma_lex_lt_asymmetric(a.drop_first(), b.drop_first());
    }
}

pub proof fn lemma_lex_total(a: Seq<u8>, b: Seq<u8>)
    ensures
        lex_lt(a, b) || lex_lt(b, a) || a =~= b,
    decreases a.len(),
{
    if a.len() > 0 && b.len() > 0 && a[0] == b[0] {
        lemma_lex_total(a.drop_first(), b.drop_first());
        if !lex_lt(a, b) && !lex_lt(b, a) {
            assert(a.drop_first() =~= b.drop_first());
            assert forall|i: int| 0 <= i < a.len() implies a[i] == b[i] by {
                if i > 0 {
                    assert(a[i] == a.drop_first()[i - 1]);
                    assert(b[i] == b.drop_first()[i - 1]);
                }
            }
            assert(a =~= b);
        }
    }
}

pub proof fn lemma_lex_lt_transitive(a: Seq<u8>, b: Seq<u8>, c: Seq<u8>)
    requires
        lex_lt(a, b),
        lex_lt(b, c),
    ensures
        lex_lt(a, c),
    decreases a.len(),
{
    if a.len() > 0 && b.len() > 0 && c.len() > 0 && a[0] == b[0] && b[0] == c[0] {
        lemma_lex_lt_transitive(a.drop_first(), b.drop_first(), c.drop_first());
    }
}

pub proof fn lemma_lex_le_transitive(a: Seq<u8>, b: Seq<u8>, c: Seq<u8>)
    requires
        lex_le(a, b),
        lex_le(b, c),
    ensures
        lex_le(a, c),
{
    if lex_lt(a, b) && lex_lt(b, c) {
        lemma_lex_lt_transitive(a, b, c);
    }
}

/// Equal prefixes do not decide the order.
proof fn lemma_lex_lt_skip(a: Seq<u8>, b: Seq<u8>, i: int)
    requires
        0 <= i <= a.len(),
        i <= b.len(),
        forall|j: int| 0 <= j < i ==> a[j] == b[j],
    ensures
        lex_lt(a, b) == lex_lt(a.skip(i), b.skip(i)),
    decreases i,
{
    if i == 0 {
        assert(a.skip(0) =~= a);
        assert(b.skip(0) =~= b);
    } else {
        assert(a[0] == b[0]);
        assert(forall|j: int| 0 <= j < i - 1 ==> a.drop_first()[j] == b.drop_first()[j]);
        lemma_lex_lt_skip(a.drop_first(), b.drop_first(), i - 1);
        assert(a.drop_first().skip(i - 1) =~= a.skip(i));
        assert(b.drop_first().skip(i - 1) =~= b.skip(i));
    }
}

/// Strict lexicographic comparison of two paths.
pub fn path_lt(a: &Vec<u8>, b: &Vec<u8>) -> (r: bool)
    ensures
        r == lex_lt(a@, b@),
{
    let mut i: usize = 0;
    loop
        invariant
            i <= a.len(),
            i <= b.len(),
            forall|j: int| 0 <= j < i ==> a@[j] == b@[j],
        decreases a.len() - i,
    {
        proof {
            lemma_lex_lt_skip(a@, b@, i as int);
        }
        if i == b.len() {
            assert(b@.skip(i as int) =~= Seq::<u8>::empty());
            return false;
        }
        if i == a.len() {
            assert(a@.skip(i as int) =~= Seq::<u8>::empty());
            assert(b@.skip(i as int).len() > 0);
            return true;
        }
        let x = a[i];
        let y = b[i];
        assert(a@.skip(i as int)[0] == a@[i as int]);
        assert(b@.skip(i as int)[0] == b@[i as int]);
        if x < y {
            return true;
        }
        if x > y {
            return false;
        }
        i = i + 1;
    }
}

/// Reflexive lexicographic comparison of two paths.
pub fn path_le(a: &Vec<u8>, b: &Vec<u8>) -> (r: bool)
    ensures
        r == lex_le(a@, b@),
{
    let r = path_lt(b, a);
    proof {
        if r {
            lemma_lex_lt_asymmetric(b@, a@);
            lemma_lex_lt_irreflexive(a@);
        } else {
            lemma_lex_total(a@, b@);
        }
    }
    !r
}

/// Byte equality of two paths.
pub fn path_eq(a: &Vec<u8>, b: &Vec<u8>) -> (r: bool)
    ensures
        r == (a@ =~= b@),
{
    if a.len() != b.len() {
        return false;
    }
    let mut i: usize = 0;
    while i < a.len()
        invariant
            a.len() == b.len(),
            i <= a.len(),
            forall|j: int| 0 <= j < i ==> a@[j] == b@[j],
        decreases a.len() - i,
    {
        if a[i] != b[i] {
            return false;
        }
        i = i + 1;
    }
    true
}

/// A copy of the path with the same bytes.
pub fn copy_path(p: &Vec<u8>) -> (r: Vec<u8>)
    ensures
        r@ =~= p@,
{
    copy_range(p, 0, p.len())
}

/// The suffix of `s` after the last occurrence of `c`; `s` itself when `c`
/// does not occur.
pub open spec fn suffix_after_last(s: Seq<u8>, c: u8) -> Seq<u8>
    decreases s.len(),
{
    if s.len() == 0 {
        s
    } else if s.last() == c {
        Seq::empty()
    } else {
        suffix_after_last(s.drop_last(), c).push(s.last())
    }
}

proof fn lemma_suffix_after_last_absent(s: Seq<u8>, c: u8)
    requires
        forall|j: int| 0 <= j < s.len() ==> s[j] != c,
    ensures
        suffix_after_last(s, c) =~= s,
    decreases s.len(),
{
    if s.len() > 0 {
        lemma_suffix_after_last_absent(s.drop_last(), c);
    }
}

proof fn lemma_suffix_after_last_at(s: Seq<u8>, c: u8, i: int)
    requires
        0 <= i < s.len(),
        s[i] == c,
        forall|j: int| i < j < s.len() ==> s[j] != c,
    ensures
        suffix_after_last(s, c) =~= s.skip(i + 1),
    decreases s.len(),
{
    if i == s.len() - 1 {
        assert(s.last() == c);
    } else {
        assert(s.last() != c);
        lemma_suffix_after_last_at(s.drop_last(), c, i);
        assert(s.drop_last().skip(i + 1).push(s.last()) =~= s.skip(i + 1));
    }
}

/// The file-name portion of a path: everything after the last separator.
pub open spec fn file_name_of(p: Seq<u8>) -> Seq<u8> {
    suffix_after_last(p, SEPARATOR)
}

/// ASCII lower-casing of one byte.
pub open spec fn lower_byte(c: u8) -> u8 {
    if 65 <= c <= 90 {
        (c + 32) as u8
    } else {
        c
    }
}

/// ASCII lower-casing of a byte string.
pub open spec fn lower_bytes(s: Seq<u8>) -> Seq<u8> {
    s.map_values(|c: u8| lower_byte(c))
}

/// The extension of a path: the suffix of its file name after the last dot,
/// where a dot that opens the file name does not count.
pub open spec fn extension_of(p: Seq<u8>) -> Option<Seq<u8>> {
    let name = file_name_of(p);
    if exists|i: int| 1 <= i < name.len() && name[i] == DOT {
        Some(suffix_after_last(name, DOT))
    } else {
        None
    }
}

/// Whether the path carries one of the allowed extensions, compared without
/// regard to ASCII case.
pub open spec fn has_allowed_extension(p: Seq<u8>, exts: Seq<Seq<u8>>) -> bool {
    match extension_of(p) {
        Some(e) => exists|k: int|
            0 <= k < exts.len() && lower_bytes(e) =~= lower_bytes(exts[k]),
        None => false,
    }
}

/// The extension filter as a predicate on byte strings.
pub open spec fn extension_pred(exts: Seq<Seq<u8>>) -> spec_fn(Seq<u8>) -> bool {
    |q: Seq<u8>| has_allowed_extension(q, exts)
}

/// Index of the last occurrence of `c` in `v`.
fn find_last_byte(v: &Vec<u8>, c: u8) -> (r: Option<usize>)
    ensures
        match r {
            Some(i) => i < v@.len() && v@[i as int] == c && forall|j: int|
                i < j < v@.len() ==> v@[j] != c,
            None => forall|j: int| 0 <= j < v@.len() ==> v@[j] != c,
        },
{
    let mut i: usize = v.len();
    while i > 0
        invariant
            i <= v.len(),
            forall|j: int| i <= j < v@.len() ==> v@[j] != c,
        decreases i,
    {
        i = i - 1;
        if v[i] == c {
            return Some(i);
        }
    }
    None
}

/// Copies the range `[from, to)` out of `v`.
fn copy_range(v: &Vec<u8>, from: usize, to: usize) -> (r: Vec<u8>)
    requires
        from <= to <= v@.len(),
    ensures
        r@ =~= v@.subrange(from as int, to as int),
{
    let mut r: Vec<u8> = Vec::new();
    let mut i: usize = from;
    while i < to
        invariant
            from <= i <= to <= v@.len(),
            r@ =~= v@.subrange(from as int, i as int),
        decreases to - i,
    {
        r.push(v[i]);
        assert(r@ =~= v@.subrange(from as int, i + 1));
        i = i + 1;
    }
    r
}

/// The extension of the path, if it has one.
pub fn extension(p: &Vec<u8>) -> (r: Option<Vec<u8>>)
    ensures
        match r {
            Some(e) => extension_of(p@) == Some(e@),
            None => extension_of(p@) is None,
        },
{
    let n = p.len();
    let name_start: usize = match find_last_byte(p, SEPARATOR) {
        Some(i) => {
            proof {
                lemma_suffix_after_last_at(p@, SEPARATOR, i as int);
            }
            assert(i < n);
            i + 1
        },
        None => {
            proof {
                lemma_suffix_after_last_absent(p@, SEPARATOR);
            }
            0
        },
    };
    assert(file_name_of(p@) =~= p@.skip(name_start as int));
    let ghost name = file_name_of(p@);
    match find_last_byte(p, DOT) {
        Some(d) => {
            assert(d < n);
            if d > name_start {
                proof {
                    assert(name[d - name_start] == DOT);
                    assert(forall|j: int| d - name_start < j < name.len() ==> name[j] != DOT);
                    lemma_suffix_after_last_at(name, DOT, d - name_start);
                    assert(name.skip(d - name_start + 1) =~= p@.subrange(
                        d + 1,
                        p@.len() as int,
                    ));
                }
                let e = copy_range(p, d + 1, p.len());
                assert(extension_of(p@) == Some(suffix_after_last(name, DOT)));
                assert(e@ =~= suffix_after_last(name, DOT));
                Some(e)
            } else {
                proof {
                    assert forall|i: int| 1 <= i < name.len() implies name[i] != DOT by {
                        assert(name[i] == p@[name_start + i]);
                    }
                }
                None
            }
        },
        None => {
            proof {
                assert forall|i: int| 1 <= i < name.len() implies name[i] != DOT by {
                    assert(name[i] == p@[name_start + i]);
                }
            }
            None
        },
    }
}

/// ASCII lower-casing of a byte string.
pub fn to_lower(v: &Vec<u8>) -> (r: Vec<u8>)
    ensures
        r@ =~= lower_bytes(v@),
{
    let mut r: Vec<u8> = Vec::new();
    let mut i: usize = 0;
    while i < v.len()
        invariant
            i <= v@.len(),
            r@.len() == i,
            forall|j: int| 0 <= j < i ==> r@[j] == lower_byte(v@[j]),
        decreases v@.len() - i,
    {
        let c = v[i];
        if 65 <= c && c <= 90 {
            r.push(c + 32);
        } else {
            r.push(c);
        }
        i = i + 1;
    }
    r
}

/// Whether the path carries one of the allowed extensions, compared without
/// regard to ASCII case.
pub fn matches_extensions(p: &Vec<u8>, exts: &Vec<Vec<u8>>) -> (r: bool)
    ensures
        r == has_allowed_extension(p@, views_of(exts@)),
{
    match extension(p) {
        None => false,
        Some(e) => {
            let low = to_lower(&e);
            let mut k: usize = 0;
            while k < exts.len()
                invariant
                    k <= exts@.len(),
                    low@ =~= lower_bytes(e@),
                    extension_of(p@) == Some(e@),
                    forall|j: int|
                        0 <= j < k ==> !(lower_bytes(e@) =~= lower_bytes(views_of(exts@)[j])),
                decreases exts@.len() - k,
            {
                let cand = to_lower(&exts[k]);
                if path_eq(&low, &cand) {
                    assert(lower_bytes(e@) =~= lower_bytes(views_of(exts@)[k as int]));
                    return true;
                }
                k = k + 1;
            }
            false
        },
    }
}

/// Keeps exactly the paths that carry an allowed extension, in order.
pub fn filter_by_extensions(paths: Vec<Vec<u8>>, exts: &Vec<Vec<u8>>) -> (r: Vec<Vec<u8>>)
    ensures
        views_of(r@) == views_of(paths@).filter(extension_pred(views_of(exts@))),
{
    broadcast use vstd::seq_lib::group_filter_ensures;

    let ghost pred = extension_pred(views_of(exts@));
    let mut r: Vec<Vec<u8>> = Vec::new();
    proof {
        let e = views_of(paths@).take(0);
        assert(e =~= Seq::<Seq<u8>>::empty());
        assert(e.filter(pred).len() <= e.len());
        assert(views_of(r@) =~= e.filter(pred));
    }
    let mut i: usize = 0;
    while i < paths.len()
        invariant
            i <= paths@.len(),
            views_of(r@) == views_of(paths@).take(i as int).filter(pred),
            pred == extension_pred(views_of(exts@)),
        decreases paths@.len() - i,
    {
        let keep = matches_extensions(&paths[i], exts);
        let ghost prior = views_of(r@);
        proof {
            assert(views_of(paths@).take(i + 1) =~= views_of(paths@).take(i as int).push(
                paths@[i as int]@,
            ));
            views_of(paths@).take(i as int).lemma_filter_push(paths@[i as int]@, pred);
        }
        if keep {
            let entry = copy_path(&paths[i]);
            r.push(entry);
            assert(views_of(r@) =~= prior.push(paths@[i as int]@));
        }
        i = i + 1;
    }
    proof {
        assert(views_of(paths@).take(paths@.len() as int) =~= views_of(paths@));
    }
    r
}

/// Whether a list of byte strings is in lexicographic order.
pub open spec fn sorted_paths(s: Seq<Seq<u8>>) -> bool {
    forall|i: int, j: int| 0 <= i < j < s.len() ==> #[trigger] lex_le(s[i], s[j])
}

pub proof fn lemma_sorted_index(s: Seq<Seq<u8>>, a: int, b: int)
    requires
        sorted_paths(s),
        0 <= a <= b < s.len(),
    ensures
        lex_le(s[a], s[b]),
{
    if a < b {
        assert(lex_le(s[a], s[b]));
    }
}

/// Sorts the paths lexicographically; the entries themselves are kept.
pub fn sort_paths(v: &mut Vec<Vec<u8>>)
    ensures
        sorted_paths(views_of(final(v)@)),
        views_of(final(v)@).to_multiset() == views_of(old(v)@).to_multiset(),
        final(v)@.len() == old(v)@.len(),
{
    broadcast use vstd::seq_lib::group_to_multiset_ensures;
    broadcast use vstd::multiset::group_multiset_axioms;

    if v.len() <= 1 {
        return ;
    }
    let mut i: usize = 1;
    while i < v.len()
        invariant
            1 <= i <= v@.len(),
            v@.len() == old(v)@.len(),
            sorted_paths(views_of(v@).take(i as int)),
            views_of(v@).to_multiset() == views_of(old(v)@).to_multiset(),
        decreases v@.len() - i,
    {
        let ghost before = views_of(v@);
        let x = v.remove(i);
        assert(views_of(v@) =~= before.remove(i as int));
        let ghost lo = before.remove(i as int);
        let mut pos: usize = 0;
        loop
            invariant
                pos <= i,
                i < before.len(),
                v@.len() + 1 == before.len(),
                views_of(v@) == lo,
                lo == before.remove(i as int),
                x@ == before[i as int],
                sorted_paths(before.take(i as int)),
                forall|j: int| 0 <= j < pos ==> #[trigger] lex_le(lo[j], x@),
            ensures
                pos <= i,
                views_of(v@) == lo,
                forall|j: int| 0 <= j < pos ==> #[trigger] lex_le(lo[j], x@),
                pos < i ==> lex_lt(x@, lo[pos as int]),
            decreases i - pos,
        {
            if pos == i {
                break ;
            }
            assert(pos < v@.len());
            assert(lo[pos as int] == before[pos as int]);
            assert(v@[pos as int]@ == lo[pos as int]);
            if path_le(&v[pos], &x) {
                assert(lex_le(lo[pos as int], x@));
                pos = pos + 1;
            } else {
                proof {
                    lemma_lex_total(x@, lo[pos as int]);
                    lemma_lex_lt_irreflexive(lo[pos as int]);
                }
                break ;
            }
        }
        let ghost lo_vecs = v@;
        v.insert(pos, x);
        proof {
            assert(v@ == lo_vecs.insert(pos as int, x));
            let after = views_of(v@);
            assert(after =~= lo.insert(pos as int, x@));
            assert(forall|k: int| 0 <= k < pos ==> after[k] == before[k]);
            assert(after[pos as int] == x@);
            assert(forall|k: int| pos < k <= i ==> after[k] == before[k - 1]);
            let pre = before.take(i as int);
            assert(forall|k: int| 0 <= k < i ==> pre[k] == before[k]);
            assert forall|a: int, b: int|
                0 <= a < b < i + 1 implies #[trigger] lex_le(after[a], after[b]) by {
                if b < pos {
                    lemma_sorted_index(pre, a, b);
                } else if b == pos {
                    assert(lex_le(lo[a], x@));
                    assert(lo[a] == before[a]);
                } else {
                    // entries at or past the insertion point came from the
                    // sorted prefix, shifted once to the right
                    assert(after[b] == before[b - 1]);
                    if a < pos {
                        assert(lex_le(lo[a], x@));
                        assert(lo[a] == before[a]);
                        assert(lex_lt(x@, lo[pos as int]));
                        assert(lo[pos as int] == before[pos as int]);
                        lemma_sorted_index(pre, pos as int, b - 1);
                        lemma_lex_le_transitive(x@, before[pos as int], before[b - 1]);
                        lemma_lex_le_transitive(after[a], x@, before[b - 1]);
                    } else if a == pos {
                        assert(lex_lt(x@, lo[pos as int]));
                        assert(lo[pos as int] == before[pos as int]);
                        lemma_sorted_index(pre, pos as int, b - 1);
                        lemma_lex_le_transitive(x@, before[pos as int], before[b - 1]);
                    } else {
                        assert(after[a] == before[a - 1]);
                        lemma_sorted_index(pre, a - 1, b - 1);
                    }
                }
            }
            assert(sorted_paths(after.take(i + 1))) by {
                assert(forall|k: int| 0 <= k < i + 1 ==> after.take(i + 1)[k] == after[k]);
            }
            assert(after.to_multiset() == before.to_multiset()) by {
                vstd::seq_lib::to_multiset_remove::<Seq<u8>>(before, i as int);
                vstd::seq_lib::to_multiset_insert::<Seq<u8>>(lo, pos as int, x@);
                before.to_multiset_ensures();
                assert(before.contains(before[i as int]));
                assert(before.to_multiset().count(before[i as int]) > 0);
                assert(before.to_multiset().remove(x@).insert(x@) =~= before.to_multiset());
            }
        }
        i = i + 1;
    }
    proof {
        assert(views_of(v@).take(v@.len() as int) =~= views_of(v@));
    }
}

/// Index of the first entry equal to `target`, if any.
pub fn search_for(paths: &Vec<Vec<u8>>, target: &Vec<u8>) -> (r: Option<usize>)
    ensures
        match r {
            Some(i) => i < paths@.len() && paths@[i as int]@ =~= target@ && forall|j: int|
                0 <= j < i ==> !(paths@[j]@ =~= target@),
            None => forall|j: int| 0 <= j < paths@.len() ==> !(paths@[j]@ =~= target@),
        },
{
    let mut i: usize = 0;
    while i < paths.len()
        invariant
            i <= paths@.len(),
            forall|j: int| 0 <= j < i ==> !(paths@[j]@ =~= target@),
        decreases paths@.len() - i,
    {
        if path_eq(&paths[i], target) {
            return Some(i);
        }
        i = i + 1;
    }
    None
}

} // verus!
