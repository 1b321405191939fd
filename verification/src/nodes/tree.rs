use vstd::prelude::*;

verus! {

/// The parent links of the nodes table: each stored node's id mapped to its
/// parent's id, `None` for a node at the root of its workspace.
pub type ParentMap = Map<u128, Option<u128>>;

/// Following parent links `steps` times from `from` arrives at `to`.
pub open spec fn reaches(parents: ParentMap, from: u128, to: u128, steps: nat) -> bool
    decreases steps,
{
    if steps == 0 {
        from == to
    } else {
        parents.contains_key(from) && match parents[from] {
            Some(p) => reaches(parents, p, to, (steps - 1) as nat),
            None => false,
        }
    }
}

/// `ancestor` lies on the parent chain of `node`, one or more links above
/// it: what the descendant query of the nodes table answers for
/// `(node, ancestor)`.
pub open spec fn is_descendant(parents: ParentMap, node: u128, ancestor: u128) -> bool {
    exists|k: nat| k >= 1 && #[trigger] reaches(parents, node, ancestor, k)
}

/// No chain of parent links leads from a node back to itself.
pub open spec fn acyclic(parents: ParentMap) -> bool {
    forall|x: u128, k: nat| k >= 1 ==> !#[trigger] reaches(parents, x, x, k)
}

/// Two chains of parent links, one after the other, make one chain.
proof fn lemma_reaches_concat(parents: ParentMap, a: u128, b: u128, c: u128, i: nat, j: nat)
    requires
        reaches(parents, a, b, i),
        reaches(parents, b, c, j),
    ensures
        reaches(parents, a, c, i + j),
    decreases i,
{
    if i > 0 {
        let p = parents[a]->Some_0;
        lemma_reaches_concat(parents, p, b, c, (i - 1) as nat, j);
        assert((i + j - 1) as nat == ((i - 1) as nat + j) as nat);
    }
}

/// A chain of links after `n` is re-parented under `target` either is a chain
/// of the old links, or runs over old links up to `n` (`j` steps) and from
/// there on over new ones.
proof fn lemma_reaches_after_reparent(
    parents: ParentMap,
    n: u128,
    target: Option<u128>,
    a: u128,
    b: u128,
    k: nat,
) -> (split: Option<nat>)
    requires
        reaches(parents.insert(n, target), a, b, k),
    ensures
        split is None ==> reaches(parents, a, b, k),
        split matches Some(j) ==> j <= k && reaches(parents, a, n, j) && reaches(
            parents.insert(n, target),
            n,
            b,
            (k - j) as nat,
        ),
    decreases k,
{
    let moved = parents.insert(n, target);
    if k == 0 {
        None
    } else if a == n {
        Some(0)
    } else {
        let c = moved[a]->Some_0;
        assert(parents[a] == moved[a]);
        match lemma_reaches_after_reparent(parents, n, target, c, b, (k - 1) as nat) {
            None => None,
            Some(j) => {
                assert(reaches(parents, a, n, j + 1));
                assert((k - (j + 1)) as nat == (((k - 1) as nat) - j) as nat);
                Some(j + 1)
            },
        }
    }
}

/// Moving a node to the root of its workspace, or under a parent that is
/// neither the node itself nor one of its descendants, keeps the parent
/// links free of cycles.
pub proof fn lemma_reparent_keeps_acyclic(parents: ParentMap, n: u128, target: Option<u128>)
    requires
        acyclic(parents),
        target matches Some(t) ==> t != n && !is_descendant(parents, t, n),
    ensures
        acyclic(parents.insert(n, target)),
{
    let moved = parents.insert(n, target);
    assert forall|x: u128, k: nat| k >= 1 implies !#[trigger] reaches(moved, x, x, k) by {
        if reaches(moved, x, x, k) {
            match lemma_reaches_after_reparent(parents, n, target, x, x, k) {
                None => {},
                Some(j) => {
                    // x reaches n over old links, and n reaches x over new ones.
                    if k - j == 0 {
                        assert(reaches(parents, n, n, j));
                    } else {
                        let t = target->Some_0;
                        assert(moved[n] == target);
                        let rest = (k - j - 1) as nat;
                        assert(reaches(moved, t, x, rest));
                        match lemma_reaches_after_reparent(parents, n, target, t, x, rest) {
                            None => {
                                lemma_reaches_concat(parents, t, x, n, rest, j);
                                if rest + j == 0 {
                                    assert(t == n);
                                } else {
                                    assert(reaches(parents, t, n, rest + j));
                                }
                            },
                            Some(i) => {
                                if i == 0 {
                                    assert(t == n);
                                } else {
                                    assert(reaches(parents, t, n, i));
                                }
                            },
                        }
                    }
                },
            }
        }
    }
}

} // verus!
