use vstd::prelude::*;
use vstd::std_specs::cmp::PartialEqSpecImpl;
use vstd::std_specs::convert::TryFromSpecImpl;
use vstd::string::*;

use crate::error::Error;

verus! {

broadcast use vstd::seq_lib::group_seq_properties;

// ─── Specification of path normalization ──────────────────

/// The components that splitting `s` at every `'/'` yields, in order. Like
/// `str::split('/')`, the empty text has one empty component and a slash at
/// either end yields an empty component there.
pub open spec fn split_slash(s: Seq<char>) -> Seq<Seq<char>>
    decreases s.len(),
{
    if s.len() == 0 {
        seq![Seq::<char>::empty()]
    } else {
        let prev = split_slash(s.drop_last());
        if s.last() == '/' {
            prev.push(Seq::<char>::empty())
        } else {
            prev.update(prev.len() - 1, prev.last().push(s.last()))
        }
    }
}

/// The parent-directory component `..`.
pub open spec fn parent_component() -> Seq<char> {
    seq!['.', '.']
}

/// A component that survives normalization: neither empty nor `.`.
pub open spec fn is_kept_component(c: Seq<char>) -> bool {
    c.len() > 0 && c != seq!['.']
}

/// The components of a split that survive normalization, in order.
pub open spec fn kept_components(cs: Seq<Seq<char>>) -> Seq<Seq<char>> {
    cs.filter(|c: Seq<char>| is_kept_component(c))
}

/// Each component preceded by a slash: `/c0/c1/...`.
pub open spec fn slash_join(cs: Seq<Seq<char>>) -> Seq<char>
    decreases cs.len(),
{
    if cs.len() == 0 {
        Seq::<char>::empty()
    } else {
        slash_join(cs.drop_last()) + seq!['/'] + cs.last()
    }
}

/// A path is accepted when it starts with `/` and no component is `..`.
pub open spec fn path_accepted(s: Seq<char>) -> bool {
    &&& s.len() > 0
    &&& s[0] == '/'
    &&& !split_slash(s).contains(parent_component())
}

/// The normalized form: the kept components joined under a leading slash,
/// or `/` alone when none is kept.
pub open spec fn normalize_path(s: Seq<char>) -> Seq<char> {
    let kept = kept_components(split_slash(s));
    if kept.len() == 0 {
        seq!['/']
    } else {
        slash_join(kept)
    }
}

/// The character-level shape of a normalized path: it starts with `/`, has no
/// two adjacent slashes, ends in a slash only when it is the root `/` itself,
/// and has neither a `.` nor a `..` component.
pub open spec fn is_normal_path_text(t: Seq<char>) -> bool {
    &&& t.len() > 0
    &&& t[0] == '/'
    &&& forall|i: int| 0 <= i < t.len() - 1 ==> !(#[trigger] t[i] == '/' && t[i + 1] == '/')
    &&& (t == seq!['/'] || t.last() != '/')
    &&& !split_slash(t).contains(seq!['.'])
    &&& !split_slash(t).contains(parent_component())
}

// ─── Lemmas ───────────────────────────────────────────────

proof fn lemma_split_step(s: Seq<char>, i: int)
    requires
        0 <= i < s.len(),
    ensures
        split_slash(s.take(i + 1)) == (if s[i] == '/' {
            split_slash(s.take(i)).push(Seq::<char>::empty())
        } else {
            let prev = split_slash(s.take(i));
            prev.update(prev.len() - 1, prev.last().push(s[i]))
        }),
{
    assert(s.take(i + 1).drop_last() =~= s.take(i));
}

proof fn lemma_contains_push(cs: Seq<Seq<char>>, x: Seq<char>, y: Seq<char>)
    ensures
        cs.push(x).contains(y) == (cs.contains(y) || x == y),
{
    if cs.contains(y) {
        let k = choose|k: int| 0 <= k < cs.len() && cs[k] == y;
        assert(cs.push(x)[k] == y);
    }
    if x == y {
        assert(cs.push(x)[cs.len() as int] == y);
    }
    if cs.push(x).contains(y) {
        let k = choose|k: int| 0 <= k < cs.push(x).len() && cs.push(x)[k] == y;
        if k < cs.len() {
            assert(cs[k] == y);
        }
    }
}

proof fn lemma_kept_push(cs: Seq<Seq<char>>, x: Seq<char>)
    ensures
        kept_components(cs.push(x)) == (if is_kept_component(x) {
            kept_components(cs).push(x)
        } else {
            kept_components(cs)
        }),
{
    cs.lemma_filter_push(x, |c: Seq<char>| is_kept_component(c));
}

proof fn lemma_slash_join_push(cs: Seq<Seq<char>>, x: Seq<char>)
    ensures
        slash_join(cs.push(x)) == slash_join(cs) + seq!['/'] + x,
{
    assert(cs.push(x).drop_last() =~= cs);
}


/// No component of a split holds a slash, and a split has at least one component.
proof fn lemma_split_has_no_slash(s: Seq<char>)
    ensures
        split_slash(s).len() >= 1,
        forall|i: int, k: int|
            0 <= i < split_slash(s).len() && 0 <= k < split_slash(s)[i].len()
                ==> #[trigger] split_slash(s)[i][k] != '/',
    decreases s.len(),
{
    if s.len() > 0 {
        lemma_split_has_no_slash(s.drop_last());
        let prev = split_slash(s.drop_last());
        if s.last() != '/' {
            let cur = split_slash(s);
            assert forall|i: int, k: int|
                0 <= i < cur.len() && 0 <= k < cur[i].len() implies #[trigger] cur[i][k] != '/' by {
                if i < prev.len() - 1 {
                    assert(cur[i] == prev[i]);
                } else {
                    assert(cur[i] == prev.last().push(s.last()));
                    if k < prev.last().len() {
                        assert(prev[prev.len() - 1][k] != '/');
                    }
                }
            }
        } else {
            let cur = split_slash(s);
            assert forall|i: int, k: int|
                0 <= i < cur.len() && 0 <= k < cur[i].len() implies #[trigger] cur[i][k] != '/' by {
                assert(cur[i] == prev[i]);
            }
        }
    }
}

/// The text that components spell when written one after another with a `/`
/// between each two.
pub open spec fn join_with_slashes(cs: Seq<Seq<char>>) -> Seq<char>
    decreases cs.len(),
{
    if cs.len() == 0 {
        Seq::<char>::empty()
    } else if cs.len() == 1 {
        cs[0]
    } else {
        join_with_slashes(cs.drop_last()) + seq!['/'] + cs.last()
    }
}

/// Splitting at slashes loses nothing and cuts only at slashes: the components
/// hold no slash, and written back with a slash between each two they give
/// the text again.
pub proof fn lemma_split_slash_inverse(s: Seq<char>)
    ensures
        join_with_slashes(split_slash(s)) == s,
        forall|i: int, k: int|
            0 <= i < split_slash(s).len() && 0 <= k < split_slash(s)[i].len()
                ==> #[trigger] split_slash(s)[i][k] != '/',
    decreases s.len(),
{
    lemma_split_has_no_slash(s);
    if s.len() > 0 {
        lemma_split_slash_inverse(s.drop_last());
        lemma_split_has_no_slash(s.drop_last());
        let prev = split_slash(s.drop_last());
        let cur = split_slash(s);
        if s.last() == '/' {
            assert(cur.drop_last() =~= prev);
            assert(s.drop_last() + seq!['/'] + Seq::<char>::empty() =~= s);
        } else {
            let x = prev.last().push(s.last());
            if prev.len() == 1 {
                assert(s.drop_last().push(s.last()) =~= s);
            } else {
                assert(cur.drop_last() =~= prev.drop_last());
                assert(join_with_slashes(prev.drop_last()) + seq!['/'] + x =~= (join_with_slashes(
                    prev.drop_last(),
                ) + seq!['/'] + prev.last()).push(s.last()));
                assert(s.drop_last().push(s.last()) =~= s);
            }
        }
    } else {
        assert(split_slash(s)[0] =~= s);
    }
}

/// A sequence of characters without a slash.
pub open spec fn has_no_slash(c: Seq<char>) -> bool {
    forall|k: int| 0 <= k < c.len() ==> c[k] != '/'
}

/// Splitting text that ends in a slash and one more slash-free component adds
/// exactly that component.
proof fn lemma_split_append_component(a: Seq<char>, x: Seq<char>)
    requires
        has_no_slash(x),
    ensures
        split_slash(a + seq!['/'] + x) == split_slash(a).push(x),
    decreases x.len(),
{
    if x.len() == 0 {
        assert(a + seq!['/'] + x =~= a.push('/'));
        assert(a.push('/').drop_last() =~= a);
    } else {
        let y = x.drop_last();
        lemma_split_append_component(a, y);
        assert((a + seq!['/'] + x).drop_last() =~= a + seq!['/'] + y);
        let prev = split_slash(a).push(y);
        assert(prev.update(prev.len() - 1, prev.last().push(x.last())) =~= split_slash(a).push(x)) by {
            assert(y.push(x.last()) =~= x);
        }
    }
}

/// Splitting a slash-joined path gives back an empty leading component and
/// then the joined components.
proof fn lemma_split_slash_join(cs: Seq<Seq<char>>)
    requires
        forall|i: int| 0 <= i < cs.len() ==> has_no_slash(#[trigger] cs[i]),
    ensures
        split_slash(slash_join(cs)) == seq![Seq::<char>::empty()] + cs,
    decreases cs.len(),
{
    if cs.len() == 0 {
        assert(seq![Seq::<char>::empty()] + cs =~= seq![Seq::<char>::empty()]);
    } else {
        let ds = cs.drop_last();
        assert forall|i: int| 0 <= i < ds.len() implies has_no_slash(#[trigger] ds[i]) by {
            assert(ds[i] == cs[i]);
        }
        lemma_split_slash_join(ds);
        assert(has_no_slash(cs[cs.len() - 1]));
        lemma_split_append_component(slash_join(ds), cs.last());
        assert((seq![Seq::<char>::empty()] + ds).push(cs.last()) =~= seq![Seq::<char>::empty()] + cs);
    }
}

/// A slash-joined path of at least one component starts with a slash.
proof fn lemma_slash_join_leading_slash(cs: Seq<Seq<char>>)
    requires
        cs.len() > 0,
    ensures
        slash_join(cs).len() > 0,
        slash_join(cs)[0] == '/',
    decreases cs.len(),
{
    let ds = cs.drop_last();
    if cs.len() > 1 {
        lemma_slash_join_leading_slash(ds);
        assert((slash_join(ds) + seq!['/'] + cs.last())[0] == slash_join(ds)[0]);
    } else {
        assert(slash_join(ds).len() == 0);
        assert((slash_join(ds) + seq!['/'] + cs.last())[0] == '/');
    }
}

/// Keeping the kept components of components that are all kept changes nothing.
proof fn lemma_kept_all(cs: Seq<Seq<char>>)
    requires
        forall|i: int| 0 <= i < cs.len() ==> is_kept_component(#[trigger] cs[i]),
    ensures
        kept_components(cs) == cs,
    decreases cs.len(),
{
    if cs.len() == 0 {
        assert(kept_components(cs) =~= cs) by {
            reveal(Seq::filter);
        }
    } else {
        let ds = cs.drop_last();
        assert forall|i: int| 0 <= i < ds.len() implies is_kept_component(#[trigger] ds[i]) by {
            assert(ds[i] == cs[i]);
        }
        lemma_kept_all(ds);
        assert(ds.push(cs.last()) =~= cs);
        lemma_kept_push(ds, cs.last());
    }
}

/// What normalization keeps: when no component survives, the path is `/`;
/// otherwise splitting the normalized path gives the empty root component and
/// then exactly the surviving components of the input, in order, none of them
/// empty, `.` or `..`.
pub proof fn lemma_normalized_components(s: Seq<char>)
    requires
        path_accepted(s),
    ensures
        kept_components(split_slash(s)).len() == 0 ==> normalize_path(s) == seq!['/'],
        kept_components(split_slash(s)).len() > 0 ==> split_slash(normalize_path(s)) == seq![
            Seq::<char>::empty(),
        ] + kept_components(split_slash(s)),
        kept_components(split_slash(s)).len() > 0 ==> forall|i: int|
            0 < i < split_slash(normalize_path(s)).len() ==> is_kept_component(
                #[trigger] split_slash(normalize_path(s))[i],
            ) && split_slash(normalize_path(s))[i] != parent_component(),
{
    let split = split_slash(s);
    let kept = kept_components(split);
    let pred = |c: Seq<char>| is_kept_component(c);
    lemma_split_has_no_slash(s);
    if kept.len() == 0 {
        let root = seq!['/'];
        assert(root.drop_last() =~= Seq::<char>::empty());
        assert(split_slash(Seq::<char>::empty()) == seq![Seq::<char>::empty()]);
        assert(split_slash(root) =~= seq![Seq::<char>::empty(), Seq::<char>::empty()]);
    } else {
        assert forall|i: int| 0 <= i < kept.len() implies has_no_slash(#[trigger] kept[i]) by {
            assert(kept.contains(kept[i]));
            split.lemma_filter_contains_rev(pred, kept[i]);
            let j = choose|j: int| 0 <= j < split.len() && split[j] == kept[i];
            assert forall|k: int| 0 <= k < kept[i].len() implies kept[i][k] != '/' by {
                assert(split[j][k] != '/');
            }
        }
        lemma_split_slash_join(kept);
        let parts = split_slash(normalize_path(s));
        assert forall|i: int| 0 < i < parts.len() implies is_kept_component(#[trigger] parts[i])
            && parts[i] != parent_component() by {
            assert(parts[i] == kept[i - 1]);
            split.lemma_filter_pred(pred, i - 1);
            assert(kept.contains(kept[i - 1]));
            split.lemma_filter_contains_rev(pred, kept[i - 1]);
        }
    }
}

/// A path is accepted exactly when it starts with `/` and none of its
/// components is the two dots `..`; empty components, `.` and any other name,
/// of any length, are no reason to refuse it.
pub proof fn lemma_path_acceptance(s: Seq<char>)
    ensures
        path_accepted(s) <==> (s.len() > 0 && s[0] == '/' && forall|i: int|
            0 <= i < split_slash(s).len() ==> #[trigger] split_slash(s)[i] != seq!['.', '.']),
{
    let split = split_slash(s);
    if s.len() > 0 && s[0] == '/' {
        if split.contains(parent_component()) {
            let k = choose|k: int| 0 <= k < split.len() && split[k] == parent_component();
            assert(split[k] == seq!['.', '.']);
        }
        if exists|i: int| 0 <= i < split.len() && #[trigger] split[i] == seq!['.', '.'] {
            let k = choose|k: int| 0 <= k < split.len() && #[trigger] split[k] == seq!['.', '.'];
            assert(split[k] == parent_component());
        }
    }
}

/// Normalization drops exactly the empty and `.` components of an accepted
/// path and nothing else: every other component of the input, whatever its
/// length or spelling, comes out in the same order, and when there is none
/// the result is the root `/`.
pub proof fn lemma_normalize_drops_only_empty_and_dot(s: Seq<char>)
    requires
        path_accepted(s),
    ensures
        split_slash(s).filter(|c: Seq<char>| c.len() > 0 && c != seq!['.']).len() == 0
            ==> normalize_path(s) == seq!['/'],
        split_slash(s).filter(|c: Seq<char>| c.len() > 0 && c != seq!['.']).len() > 0
            ==> split_slash(normalize_path(s)) == seq![Seq::<char>::empty()] + split_slash(s).filter(
            |c: Seq<char>| c.len() > 0 && c != seq!['.'],
        ),
        forall|i: int|
            0 <= i < split_slash(s).len() && (#[trigger] split_slash(s)[i]).len() > 0
                && split_slash(s)[i] != seq!['.'] ==> split_slash(normalize_path(s)).contains(
                split_slash(s)[i],
            ),
{
    let named = |c: Seq<char>| c.len() > 0 && c != seq!['.'];
    let kept = |c: Seq<char>| is_kept_component(c);
    assert(named =~= kept);
    lemma_normalized_components(s);
    let split = split_slash(s);
    assert forall|i: int|
        0 <= i < split.len() && (#[trigger] split[i]).len() > 0 && split[i] != seq!['.'] implies split_slash(
        normalize_path(s),
    ).contains(split[i]) by {
        split.lemma_filter_contains(kept, i);
        let out = split.filter(kept);
        let k = choose|k: int| 0 <= k < out.len() && out[k] == split[i];
        assert(split_slash(normalize_path(s))[k + 1] == split[i]);
    }
}

/// Normalization is idempotent on accepted paths: the normalized form is itself
/// accepted, and normalizing it again leaves it unchanged.
pub proof fn lemma_normalize_idempotent(s: Seq<char>)
    requires
        path_accepted(s),
    ensures
        path_accepted(normalize_path(s)),
        normalize_path(normalize_path(s)) == normalize_path(s),
{
    let split = split_slash(s);
    let kept = kept_components(split);
    let pred = |c: Seq<char>| is_kept_component(c);
    lemma_normalized_components(s);
    let parts = split_slash(normalize_path(s));
    if kept.len() == 0 {
        let root = seq!['/'];
        assert(root.drop_last() =~= Seq::<char>::empty());
        assert(split_slash(Seq::<char>::empty()) == seq![Seq::<char>::empty()]);
        assert(parts =~= seq![Seq::<char>::empty(), Seq::<char>::empty()]);
        let e = Seq::<Seq<char>>::empty();
        assert(parts =~= e.push(Seq::<char>::empty()).push(Seq::<char>::empty()));
        lemma_kept_push(e, Seq::<char>::empty());
        lemma_kept_push(e.push(Seq::<char>::empty()), Seq::<char>::empty());
        assert(kept_components(e) =~= e) by {
            reveal(Seq::filter);
        }
        assert(!parts.contains(parent_component())) by {
            if parts.contains(parent_component()) {
                let k = choose|k: int| 0 <= k < parts.len() && parts[k] == parent_component();
                assert(parts[k].len() == 0);
            }
        }
    } else {
        lemma_slash_join_leading_slash(kept);
        let e = Seq::<char>::empty();
        kept.lemma_filter_prepend(e, pred);
        assert forall|i: int| 0 <= i < kept.len() implies is_kept_component(#[trigger] kept[i]) by {
            split.lemma_filter_pred(pred, i);
        }
        lemma_kept_all(kept);
        assert((if pred(e) { seq![e] } else { Seq::<Seq<char>>::empty() }) + kept =~= kept);
        assert(!parts.contains(parent_component())) by {
            if parts.contains(parent_component()) {
                let k = choose|k: int| 0 <= k < parts.len() && parts[k] == parent_component();
                assert(parts[0] == e);
            }
        }
    }
}

/// Joining non-empty slash-free components under slashes gives text without
/// two adjacent slashes that does not end in a slash.
proof fn lemma_slash_join_shape(cs: Seq<Seq<char>>)
    requires
        cs.len() > 0,
        forall|i: int| 0 <= i < cs.len() ==> has_no_slash(#[trigger] cs[i]) && cs[i].len() > 0,
    ensures
        forall|i: int|
            0 <= i < slash_join(cs).len() - 1 ==> !(#[trigger] slash_join(cs)[i] == '/' && slash_join(
                cs,
            )[i + 1] == '/'),
        slash_join(cs).last() != '/',
    decreases cs.len(),
{
    let ds = cs.drop_last();
    let x = cs.last();
    let j = slash_join(ds);
    let t = slash_join(cs);
    assert(has_no_slash(cs[cs.len() - 1]) && cs[cs.len() - 1].len() > 0);
    assert(t == j + seq!['/'] + x);
    if ds.len() > 0 {
        assert forall|i: int| 0 <= i < ds.len() implies has_no_slash(#[trigger] ds[i]) && ds[i].len()
            > 0 by {
            assert(ds[i] == cs[i]);
        }
        lemma_slash_join_shape(ds);
    } else {
        assert(j.len() == 0);
    }
    assert forall|i: int| 0 <= i < t.len() - 1 implies !(#[trigger] t[i] == '/' && t[i + 1] == '/') by {
        if i < j.len() - 1 {
            assert(t[i] == j[i] && t[i + 1] == j[i + 1]);
        } else if i == j.len() - 1 {
            assert(t[i] == j.last());
        } else if i == j.len() {
            assert(t[i + 1] == x[0]);
        } else {
            assert(t[i] == x[i - j.len() - 1]);
        }
    }
    assert(t.last() == x.last());
}

/// The normalized form of an accepted path has the character-level shape of a
/// normalized path.
pub proof fn lemma_normalized_shape(s: Seq<char>)
    requires
        path_accepted(s),
    ensures
        is_normal_path_text(normalize_path(s)),
{
    let split = split_slash(s);
    let kept = kept_components(split);
    let pred = |c: Seq<char>| is_kept_component(c);
    lemma_normalize_idempotent(s);
    lemma_normalized_components(s);
    let t = normalize_path(s);
    let parts = split_slash(t);
    let dot = seq!['.'];
    if kept.len() == 0 {
        let root = seq!['/'];
        assert(root.drop_last() =~= Seq::<char>::empty());
        assert(split_slash(Seq::<char>::empty()) == seq![Seq::<char>::empty()]);
        assert(parts =~= seq![Seq::<char>::empty(), Seq::<char>::empty()]);
        if parts.contains(dot) {
            let k = choose|k: int| 0 <= k < parts.len() && parts[k] == dot;
            assert(parts[k].len() == 0);
        }
    } else {
        lemma_split_has_no_slash(s);
        assert forall|i: int| 0 <= i < kept.len() implies has_no_slash(#[trigger] kept[i])
            && kept[i].len() > 0 by {
            split.lemma_filter_pred(pred, i);
            assert(kept.contains(kept[i]));
            split.lemma_filter_contains_rev(pred, kept[i]);
            let j = choose|j: int| 0 <= j < split.len() && split[j] == kept[i];
            assert forall|k: int| 0 <= k < kept[i].len() implies kept[i][k] != '/' by {
                assert(split[j][k] != '/');
            }
        }
        lemma_slash_join_shape(kept);
        if parts.contains(dot) {
            let k = choose|k: int| 0 <= k < parts.len() && parts[k] == dot;
            if k == 0 {
                assert(parts[0] == Seq::<char>::empty());
            } else {
                assert(is_kept_component(parts[k]));
            }
        }
        assert(t.len() > 0 && t.last() != '/');
    }
}

// ─── Wire path ────────────────────────────────────────────

/// Appends `/` and the component `path[start..end]` to `out` when the component
/// survives normalization; reports whether the component is `..`.
fn emit_component(path: &str, start: usize, end: usize, out: &mut String) -> (is_parent: bool)
    requires
        start <= end <= path@.len(),
    ensures
        is_parent == (path@.subrange(start as int, end as int) == parent_component()),
        final(out)@ == (if is_kept_component(path@.subrange(start as int, end as int)) {
            old(out)@ + seq!['/'] + path@.subrange(start as int, end as int)
        } else {
            old(out)@
        }),
{
    let ghost component = path@.subrange(start as int, end as int);
    let len = end - start;
    let is_dot = len == 1 && path.get_char(start) == '.';
    let is_parent = len == 2 && path.get_char(start) == '.' && path.get_char(start + 1) == '.';
    proof {
        if len >= 1 {
            assert(component[0] == path@[start as int]);
        }
        if len == 2 {
            assert(component[1] == path@[start + 1]);
        }
        if len == 1 {
            assert(is_dot == (component =~= seq!['.']));
        } else {
            assert(component.len() != 1);
        }
        if len == 2 {
            assert(is_parent == (component =~= parent_component()));
        } else {
            assert(component.len() != 2);
        }
    }
    if len > 0 && !is_dot {
        proof {
            reveal_strlit("/");
        }
        out.append("/");
        out.append(path.substring_char(start, end));
    }
    is_parent
}

/// Normalizes an absolute path, or says why it is refused: the text must start
/// with `/` and have no `..` component; empty and `.` components are dropped.
fn normalize_absolute_path(path: &str) -> (result: Result<String, Error>)
    ensures
        path_accepted(path@) ==> (result matches Ok(normal) && normal@ == normalize_path(path@)),
        !path_accepted(path@) ==> (result matches Err(Error::InvalidWirePath { path: given })
            && given@ == path@),
{
    broadcast use vstd::string::group_string_axioms;

    let n = path.unicode_len();
    if n == 0 || path.get_char(0) != '/' {
        return Err(Error::InvalidWirePath { path: String::from_str(path) });
    }
    let mut out = String::new();
    let mut start: usize = 0;
    let mut i: usize = 0;
    let mut saw_parent = false;
    let ghost mut done: Seq<Seq<char>> = Seq::empty();
    proof {
        assert(path@.take(0) =~= Seq::<char>::empty());
        assert(path@.subrange(0, 0) =~= Seq::<char>::empty());
        assert(done.push(Seq::<char>::empty()) =~= seq![Seq::<char>::empty()]);
        assert(kept_components(done) =~= Seq::<Seq<char>>::empty()) by {
            reveal(Seq::filter);
        }
    }
    while i < n
        invariant
            n == path@.len(),
            0 <= start <= i <= n,
            split_slash(path@.take(i as int)) == done.push(path@.subrange(start as int, i as int)),
            out@ == slash_join(kept_components(done)),
            saw_parent == done.contains(parent_component()),
        decreases n - i,
    {
        let c = path.get_char(i);
        proof {
            lemma_split_step(path@, i as int);
        }
        if c == '/' {
            let ghost component = path@.subrange(start as int, i as int);
            let parent = emit_component(path, start, i, &mut out);
            proof {
                lemma_contains_push(done, component, parent_component());
                lemma_kept_push(done, component);
                lemma_slash_join_push(kept_components(done), component);
                done = done.push(component);
                assert(path@.subrange(i + 1, i + 1) =~= Seq::<char>::empty());
            }
            saw_parent = saw_parent || parent;
            start = i + 1;
        } else {
            proof {
                let prev = done.push(path@.subrange(start as int, i as int));
                assert(prev.last().push(c) =~= path@.subrange(start as int, i + 1));
                assert(prev.update(prev.len() - 1, prev.last().push(c)) =~= done.push(
                    path@.subrange(start as int, i + 1),
                ));
            }
        }
        i = i + 1;
    }
    let ghost component = path@.subrange(start as int, n as int);
    let parent = emit_component(path, start, n, &mut out);
    proof {
        assert(path@.take(n as int) =~= path@);
        lemma_contains_push(done, component, parent_component());
        lemma_kept_push(done, component);
        lemma_slash_join_push(kept_components(done), component);
        done = done.push(component);
    }
    if saw_parent || parent {
        return Err(Error::InvalidWirePath { path: String::from_str(path) });
    }
    proof {
        reveal_strlit("/");
        let kept = kept_components(done);
        if kept.len() > 0 {
            assert(slash_join(kept).len() > 0);
        }
    }
    if out.as_str().is_empty() {
        Ok(String::from_str("/"))
    } else {
        Ok(out)
    }
}

/// An absolute path in normalized form, as it travels on the wire: it starts
/// with `/`, and normalizing it again leaves it unchanged.
#[derive(Debug, Eq, Hash)]
pub struct WirePath(String);

impl PartialEq for WirePath {
    /// Equal exactly when the texts are equal.
    fn eq(&self, other: &WirePath) -> (equal: bool) {
        self.0 == other.0
    }
}

impl PartialEqSpecImpl for WirePath {
    open spec fn obeys_eq_spec() -> bool {
        true
    }

    open spec fn eq_spec(&self, other: &WirePath) -> bool {
        self@ == other@
    }
}

impl AsRef<str> for WirePath {
    fn as_ref(&self) -> (text: &str)
        ensures
            text@ == self@,
            path_accepted(text@),
            normalize_path(text@) == text@,
            is_normal_path_text(text@),
    {
        self.as_str()
    }
}

impl Clone for WirePath {
    fn clone(&self) -> (copy: WirePath)
        ensures
            copy@ == self@,
    {
        proof {
            use_type_invariant(self);
        }
        WirePath(self.0.clone())
    }
}

impl WirePath {
    #[verifier::type_invariant]
    spec fn is_normalized(self) -> bool {
        path_accepted(self.0@) && normalize_path(self.0@) == self.0@
    }
}

impl View for WirePath {
    type V = Seq<char>;

    closed spec fn view(&self) -> Seq<char> {
        self.0@
    }
}

impl WirePath {
    /// Same as [`WirePath::from_absolute_path`], for an owned string.
    pub fn try_new(path: String) -> (result: Result<WirePath, Error>)
        ensures
            path_accepted(path@) ==> (result matches Ok(wire) && wire@ == normalize_path(path@)),
            !path_accepted(path@) ==> (result matches Err(Error::InvalidWirePath { path: given })
                && given@ == path@),
    {
        WirePath::from_absolute_path(path.as_str())
    }

    /// Accepts an absolute path without `..` components and stores its
    /// normalized form; refuses anything else with `Error::InvalidWirePath`
    /// carrying the text as given.
    pub fn from_absolute_path(path: &str) -> (result: Result<WirePath, Error>)
        ensures
            path_accepted(path@) ==> (result matches Ok(wire) && wire@ == normalize_path(path@)),
            !path_accepted(path@) ==> (result matches Err(Error::InvalidWirePath { path: given })
                && given@ == path@),
    {
        match normalize_absolute_path(path) {
            Ok(normal) => {
                proof {
                    lemma_normalize_idempotent(path@);
                }
                Ok(WirePath(normal))
            },
            Err(error) => Err(error),
        }
    }

    /// The normalized path text. It is accepted as a path, normalizing it
    /// again gives it back unchanged, and it has the shape of a normalized
    /// path: a leading slash, no two adjacent slashes, no trailing slash but
    /// for the root, and no `.` or `..` component.
    pub fn as_str(&self) -> (text: &str)
        ensures
            text@ == self@,
            path_accepted(text@),
            normalize_path(text@) == text@,
            is_normal_path_text(text@),
    {
        proof {
            use_type_invariant(self);
            lemma_normalized_shape(self.0@);
        }
        self.0.as_str()
    }
}

impl<'a> TryFrom<&'a str> for WirePath {
    type Error = Error;

    /// Same as [`WirePath::from_absolute_path`].
    fn try_from(text: &'a str) -> (result: Result<WirePath, Error>)
        ensures
            path_accepted(text@) ==> (result matches Ok(wire) && wire@ == normalize_path(text@)),
            !path_accepted(text@) ==> (result matches Err(Error::InvalidWirePath { path: given })
                && given@ == text@),
    {
        WirePath::from_absolute_path(text)
    }
}

/// The conversion's result is stated on `try_from` itself; it has no generic
/// specification, since an error value is fixed only up to the view of the
/// text that it holds.
impl<'a> TryFromSpecImpl<&'a str> for WirePath {
    open spec fn obeys_try_from_spec() -> bool {
        false
    }

    open spec fn try_from_spec(text: &'a str) -> Result<WirePath, Error> {
        arbitrary()
    }
}

impl TryFrom<String> for WirePath {
    type Error = Error;

    /// Same as [`WirePath::from_absolute_path`].
    fn try_from(text: String) -> (result: Result<WirePath, Error>)
        ensures
            path_accepted(text@) ==> (result matches Ok(wire) && wire@ == normalize_path(text@)),
            !path_accepted(text@) ==> (result matches Err(Error::InvalidWirePath { path: given })
                && given@ == text@),
    {
        WirePath::from_absolute_path(text.as_str())
    }
}

/// The conversion's result is stated on `try_from` itself; it has no generic
/// specification, since an error value is fixed only up to the view of the
/// text that it holds.
impl TryFromSpecImpl<String> for WirePath {
    open spec fn obeys_try_from_spec() -> bool {
        false
    }

    open spec fn try_from_spec(text: String) -> Result<WirePath, Error> {
        arbitrary()
    }
}

} // verus!
