//! Repository roots, in the order of their paths.

use crate::shared::share;
use crate::windows::{Pane, Root};
use vstd::prelude::*;

verus! {

/// Whether one path comes before another, part by part.
pub open spec fn before(a: Seq<u8>, b: Seq<u8>) -> bool
    decreases a.len(),
{
    if b.len() == 0 {
        false
    } else if a.len() == 0 {
        true
    } else if a[0] != b[0] {
        a[0] < b[0]
    } else {
        before(a.drop_first(), b.drop_first())
    }
}

/// Two paths are equal or one comes before the other, and not both.
pub proof fn lemma_order(a: Seq<u8>, b: Seq<u8>)
    ensures
        a == b || before(a, b) || before(b, a),
        !(before(a, b) && before(b, a)),
        !before(a, a),
        a == b ==> !before(a, b),
    decreases a.len(),
{
    if a.len() > 0 {
        lemma_order(a.drop_first(), a.drop_first());
    }
    if a.len() > 0 && b.len() > 0 && a[0] == b[0] {
        lemma_order(a.drop_first(), b.drop_first());
        if a.drop_first() == b.drop_first() {
            assert(a =~= seq![a[0]] + a.drop_first());
            assert(b =~= seq![b[0]] + b.drop_first());
        }
    }
    if a.len() == 0 && b.len() == 0 {
        assert(a =~= b);
    }
}

pub proof fn lemma_order_transitive(a: Seq<u8>, b: Seq<u8>, c: Seq<u8>)
    requires
        before(a, b),
        before(b, c),
    ensures
        before(a, c),
    decreases a.len(),
{
    if a.len() > 0 && a[0] == b[0] && b[0] == c[0] {
        lemma_order_transitive(a.drop_first(), b.drop_first(), c.drop_first());
    }
}

/// How two paths compare.
#[derive(Clone, Copy, Debug, PartialEq, Eq, Structural)]
pub enum Place {
    Before,
    Same,
    After,
}

/// How two paths compare.
pub fn compare(a: &Vec<u8>, b: &Vec<u8>) -> (place: Place)
    ensures
        place == if a@ == b@ {
            Place::Same
        } else if before(a@, b@) {
            Place::Before
        } else {
            Place::After
        },
{
    let mut i: usize = 0;
    assert(a@.skip(0) =~= a@);
    assert(b@.skip(0) =~= b@);
    proof {
        lemma_order(a@, b@);
    }
    while i < a.len() && i < b.len() && a[i] == b[i]
        invariant
            i <= a.len(),
            i <= b.len(),
            forall|j: int| 0 <= j < i ==> a@[j] == b@[j],
            before(a@, b@) == before(a@.skip(i as int), b@.skip(i as int)),
        decreases a.len() - i,
    {
        assert(a@.skip(i as int).drop_first() =~= a@.skip(i + 1));
        assert(b@.skip(i as int).drop_first() =~= b@.skip(i + 1));
        i += 1;
    }
    if i == a.len() && i == b.len() {
        assert(a@ =~= b@);
        Place::Same
    } else if i == b.len() {
        assert(a@.len() != b@.len());
        Place::After
    } else if i == a.len() {
        assert(a@.len() != b@.len());
        Place::Before
    } else {
        assert(a@.skip(i as int)[0] == a@[i as int]);
        assert(b@.skip(i as int)[0] == b@[i as int]);
        if a[i] < b[i] { Place::Before } else { Place::After }
    }
}

/// Whether two roots are the same.
pub fn same_root(a: &Root, b: &Root) -> (same: bool)
    ensures
        same == (a@ == b@),
{
    compare(a, b) == Place::Same
}

/// The paths of some roots.
pub open spec fn paths(roots: Seq<Root>) -> Seq<Seq<u8>> {
    roots.map_values(|root: Root| root@)
}

/// Whether a root is among others.
pub open spec fn lists(roots: Seq<Root>, path: Seq<u8>) -> bool {
    exists|i: int| 0 <= i < roots.len() && (#[trigger] roots[i])@ == path
}

/// Whether roots are in order, each once.
pub open spec fn in_order(roots: Seq<Root>) -> bool {
    forall|i: int, j: int|
        0 <= i < j < roots.len() ==> before((#[trigger] roots[i])@, (#[trigger] roots[j])@)
}

pub fn contains_root(roots: &Vec<Root>, root: &Root) -> (found: bool)
    ensures
        found == lists(roots@, root@),
{
    let mut i: usize = 0;
    while i < roots.len()
        invariant
            i <= roots.len(),
            forall|j: int| 0 <= j < i ==> (#[trigger] roots@[j])@ != root@,
        decreases roots.len() - i,
    {
        if same_root(&roots[i], root) {
            return true;
        }
        i += 1;
    }
    false
}

/// Whether two lists of roots are equal.
pub fn same_roots(a: &Vec<Root>, b: &Vec<Root>) -> (same: bool)
    ensures
        same == (paths(a@) == paths(b@)),
{
    if a.len() != b.len() {
        assert(paths(a@).len() != paths(b@).len());
        return false;
    }
    let mut i: usize = 0;
    while i < a.len()
        invariant
            i <= a.len(),
            a.len() == b.len(),
            forall|j: int| 0 <= j < i ==> (#[trigger] a@[j])@ == b@[j]@,
        decreases a.len() - i,
    {
        if !same_root(&a[i], &b[i]) {
            assert(paths(a@)[i as int] != paths(b@)[i as int]);
            return false;
        }
        i += 1;
    }
    assert(paths(a@) =~= paths(b@));
    true
}

/// Puts a root into a list in order, unless it is there.
fn add_root(roots: &mut Vec<Root>, root: &Root)
    requires
        in_order(old(roots)@),
    ensures
        in_order(final(roots)@),
        forall|path: Seq<u8>| #[trigger]
            lists(final(roots)@, path) <==> lists(old(roots)@, path) || path == root@,
{
    let mut i: usize = 0;
    while i < roots.len()
        invariant
            i <= roots.len(),
            roots@ == old(roots)@,
            in_order(roots@),
            forall|j: int| 0 <= j < i ==> before((#[trigger] roots@[j])@, root@),
        ensures
            i <= roots.len(),
            roots@ == old(roots)@,
            in_order(roots@),
            forall|j: int| 0 <= j < i ==> before((#[trigger] roots@[j])@, root@),
            i < roots.len() ==> before(root@, roots@[i as int]@),
        decreases roots.len() - i,
    {
        proof {
            lemma_order(roots@[i as int]@, root@);
        }
        match compare(&roots[i], root) {
            Place::Same => {
                assert(roots@[i as int]@ == root@);
                assert(lists(roots@, root@));
                return;
            },
            Place::Before => {},
            Place::After => {
                break;
            },
        }
        i += 1;
    }
    let ghost old_roots = roots@;
    roots.insert(i, share(root));
    proof {
        let after = roots@;
        assert forall|a: int, b: int| 0 <= a < b < after.len() implies before(
            (#[trigger] after[a])@,
            (#[trigger] after[b])@,
        ) by {
            if a < i && b > i {
                assert(before(old_roots[a]@, old_roots[b - 1]@));
            } else if a > i {
                assert(before(old_roots[a - 1]@, old_roots[b - 1]@));
            } else if b < i {
                assert(before(old_roots[a]@, old_roots[b]@));
            } else if a == i {
                if b - 1 > i {
                    assert(before(old_roots[i as int]@, old_roots[b - 1]@));
                    lemma_order_transitive(root@, old_roots[i as int]@, old_roots[b - 1]@);
                }
            }
        }
        assert forall|path: Seq<u8>| #[trigger] lists(after, path) <==> lists(old_roots, path)
            || path == root@ by {
            if lists(old_roots, path) {
                let j = choose|j: int| 0 <= j < old_roots.len() && (#[trigger] old_roots[j])@ == path;
                assert(after[if j < i { j } else { j + 1 }]@ == path);
            }
            if path == root@ {
                assert(after[i as int]@ == path);
            }
            if lists(after, path) {
                let j = choose|j: int| 0 <= j < after.len() && (#[trigger] after[j])@ == path;
                if j != i {
                    assert(old_roots[if j < i { j } else { j - 1 }]@ == path);
                }
            }
        }
    }
}

/// Whether a window shows a repository.
pub open spec fn shown(panes: Seq<Pane>, path: Seq<u8>) -> bool {
    exists|i: int|
        0 <= i < panes.len() && ((#[trigger] panes[i]).git matches Some(root) && root@ == path)
}

/// The repositories that windows show, in order, each once.
pub fn shown_roots(panes: &Vec<Pane>) -> (roots: Vec<Root>)
    ensures
        in_order(roots@),
        forall|path: Seq<u8>| #[trigger] lists(roots@, path) <==> shown(panes@, path),
{
    let mut roots: Vec<Root> = Vec::new();
    let mut i: usize = 0;
    while i < panes.len()
        invariant
            i <= panes.len(),
            in_order(roots@),
            forall|path: Seq<u8>| #[trigger]
                lists(roots@, path) <==> shown(panes@.take(i as int), path),
        decreases panes.len() - i,
    {
        let ghost shorter = panes@.take(i as int);
        let ghost longer = panes@.take(i + 1);
        let ghost had = roots@;
        match &panes[i].git {
            Some(root) => {
                add_root(&mut roots, root);
            },
            None => {},
        }
        proof {
            assert forall|path: Seq<u8>| #[trigger] lists(roots@, path) <==> shown(longer, path) by {
                assert(lists(had, path) <==> shown(shorter, path));
                if shown(shorter, path) {
                    let j = choose|j: int|
                        0 <= j < shorter.len() && ((#[trigger] shorter[j]).git matches Some(root)
                            && root@ == path);
                    assert(longer[j] == shorter[j]);
                }
                if shown(longer, path) {
                    let j = choose|j: int|
                        0 <= j < longer.len() && ((#[trigger] longer[j]).git matches Some(root)
                            && root@ == path);
                    if j < i {
                        assert(shorter[j] == longer[j]);
                    }
                }
                if let Some(root) = panes@[i as int].git {
                    if root@ == path {
                        assert(longer[i as int].git == Some(root));
                    }
                }
            }
        }
        i += 1;
    }
    assert(panes@.take(i as int) =~= panes@);
    roots
}

/// A path below a root, or the root itself: what is left of it.
pub open spec fn below(path: Seq<u8>, root: Seq<u8>) -> Option<Seq<u8>> {
    let stem = if root.len() > 0 && root.last() == 0 { root } else { root.push(0) };
    if path == root {
        Some(Seq::empty())
    } else if stem.len() <= path.len() && path.take(stem.len() as int) == stem {
        Some(path.skip(stem.len() as int))
    } else {
        None
    }
}

/// What is left of a path below a root.
pub fn relative(path: &Vec<u8>, root: &Vec<u8>) -> (rest: Option<Vec<u8>>)
    ensures
        match (rest, below(path@, root@)) {
            (Some(rest), Some(left)) => rest@ == left,
            (None, None) => true,
            _ => false,
        },
{
    if compare(path, root) == Place::Same {
        let rest: Vec<u8> = Vec::new();
        assert(rest@ =~= Seq::empty());
        return Some(rest);
    }
    let ended = root.len() > 0 && root[root.len() - 1] == 0;
    let ghost stem = if ended { root@ } else { root@.push(0) };
    if path.len() < root.len() || (!ended && path.len() == root.len()) {
        return None;
    }
    let mut i: usize = 0;
    while i < root.len()
        invariant
            i <= root.len(),
            root.len() <= path.len(),
            stem == if ended { root@ } else { root@.push(0) },
            stem.len() <= path@.len(),
            forall|j: int| 0 <= j < i ==> path@[j] == root@[j],
        decreases root.len() - i,
    {
        if path[i] != root[i] {
            assert(path@.take(stem.len() as int)[i as int] != stem[i as int]);
            return None;
        }
        i += 1;
    }
    if !ended {
        if path[i] != 0 {
            assert(path@.take(stem.len() as int)[i as int] != stem[i as int]);
            return None;
        }
        i += 1;
    }
    assert(path@.take(stem.len() as int) =~= stem);
    let mut rest: Vec<u8> = Vec::new();
    let ghost start = i as int;
    assert(rest@ =~= path@.subrange(start, start));
    while i < path.len()
        invariant
            0 <= start <= i <= path.len(),
            rest@ == path@.subrange(start, i as int),
        decreases path.len() - i,
    {
        rest.push(path[i]);
        i += 1;
        assert(rest@ =~= path@.subrange(start, i as int));
    }
    assert(rest@ =~= path@.skip(start));
    Some(rest)
}

/// Whether a list names the repositories that windows show, in order, each
/// once.
pub open spec fn names_shown(roots: Seq<Root>, panes: Seq<Pane>) -> bool {
    &&& in_order(roots)
    &&& forall|path: Seq<u8>| #[trigger] lists(roots, path) <==> shown(panes, path)
}

/// Lists in order that hold the same roots are equal.
pub proof fn lemma_in_order_unique(a: Seq<Root>, b: Seq<Root>)
    requires
        in_order(a),
        in_order(b),
        forall|path: Seq<u8>| #[trigger] lists(a, path) <==> lists(b, path),
    ensures
        paths(a) == paths(b),
    decreases a.len(),
{
    if a.len() == 0 {
        if b.len() > 0 {
            assert(lists(b, b[0]@));
            assert(lists(a, b[0]@));
        }
        assert(paths(a) =~= paths(b));
    } else {
        let x = a.len() - 1;
        assert(lists(a, a[x]@));
        assert(lists(b, a[x]@));
        let y = choose|y: int| 0 <= y < b.len() && (#[trigger] b[y])@ == a[x]@;
        let z = b.len() - 1;
        assert(lists(b, b[z]@));
        assert(lists(a, b[z]@));
        let w = choose|w: int| 0 <= w < a.len() && (#[trigger] a[w])@ == b[z]@;
        if y < z {
            assert(before(b[y]@, b[z]@));
            if w < x {
                assert(before(a[w]@, a[x]@));
            }
            lemma_order(a[x]@, b[z]@);
            lemma_order(a[x]@, a[x]@);
        }
        assert(a[x]@ == b[z]@);
        let front = a.drop_last();
        let rest = b.drop_last();
        assert forall|path: Seq<u8>| #[trigger] lists(front, path) <==> lists(rest, path) by {
            lemma_front(a, path);
            lemma_front(b, path);
            assert(lists(a, path) <==> lists(b, path));
        }
        assert(in_order(front)) by {
            assert forall|i: int, j: int| 0 <= i < j < front.len() implies before(
                (#[trigger] front[i])@,
                (#[trigger] front[j])@,
            ) by {
                assert(before(a[i]@, a[j]@));
            }
        }
        assert(in_order(rest)) by {
            assert forall|i: int, j: int| 0 <= i < j < rest.len() implies before(
                (#[trigger] rest[i])@,
                (#[trigger] rest[j])@,
            ) by {
                assert(before(b[i]@, b[j]@));
            }
        }
        lemma_in_order_unique(front, rest);
        assert(paths(a) =~= paths(front).push(a[x]@));
        assert(paths(b) =~= paths(rest).push(b[z]@));
    }
}

/// What a list in order holds besides its last root.
proof fn lemma_front(roots: Seq<Root>, path: Seq<u8>)
    requires
        in_order(roots),
        roots.len() > 0,
    ensures
        lists(roots.drop_last(), path) <==> lists(roots, path) && path != roots.last()@,
{
    let front = roots.drop_last();
    let last = roots.len() - 1;
    if lists(front, path) {
        let i = choose|i: int| 0 <= i < front.len() && (#[trigger] front[i])@ == path;
        assert(roots[i]@ == path);
        assert(before(roots[i]@, roots[last]@));
        lemma_order(path, path);
    }
    if lists(roots, path) && path != roots.last()@ {
        let i = choose|i: int| 0 <= i < roots.len() && (#[trigger] roots[i])@ == path;
        assert(front[i]@ == path);
    }
}

/// Lists with the same paths name the same repositories.
pub proof fn lemma_same_names(a: Seq<Root>, b: Seq<Root>, panes: Seq<Pane>)
    requires
        names_shown(a, panes),
    ensures
        paths(a) == paths(b) <==> names_shown(b, panes),
{
    if paths(a) == paths(b) {
        assert(paths(a).len() == a.len() && paths(b).len() == b.len());
        assert forall|i: int| 0 <= i < a.len() implies (#[trigger] a[i])@ == b[i]@ by {
            assert(paths(a)[i] == a[i]@);
            assert(paths(b)[i] == b[i]@);
        }
        assert forall|i: int, j: int| 0 <= i < j < b.len() implies before(
            (#[trigger] b[i])@,
            (#[trigger] b[j])@,
        ) by {
            assert(before(a[i]@, a[j]@));
        }
        assert forall|path: Seq<u8>| #[trigger] lists(b, path) <==> shown(panes, path) by {
            assert(lists(a, path) <==> shown(panes, path));
            if lists(a, path) {
                let i = choose|i: int| 0 <= i < a.len() && (#[trigger] a[i])@ == path;
                assert(b[i]@ == path);
            }
            if lists(b, path) {
                let i = choose|i: int| 0 <= i < b.len() && (#[trigger] b[i])@ == path;
                assert(a[i]@ == path);
            }
        }
    }
    if names_shown(b, panes) {
        assert forall|path: Seq<u8>| #[trigger] lists(a, path) <==> lists(b, path) by {
            assert(lists(b, path) <==> shown(panes, path));
        }
        lemma_in_order_unique(a, b);
    }
}

/// An equal list of roots.
pub fn copy_roots(roots: &Vec<Root>) -> (copy: Vec<Root>)
    ensures
        copy@ == roots@,
{
    let mut copy: Vec<Root> = Vec::new();
    let mut i: usize = 0;
    while i < roots.len()
        invariant
            i <= roots.len(),
            copy@ == roots@.take(i as int),
        decreases roots.len() - i,
    {
        copy.push(share(&roots[i]));
        i += 1;
        assert(copy@ =~= roots@.take(i as int));
    }
    assert(copy@ =~= roots@);
    copy
}

} // verus!
