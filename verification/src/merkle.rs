//! Allowlist membership by Merkle proof.
//!
//! Two nodes are hashed in the order of their bytes, the smaller one first,
//! so that a proof is a list of sibling hashes without a side for each. Who
//! builds the tree has to hash pairs in the same order.

use vstd::prelude::*;
use crate::bytes::{
    bytes32_eq, bytes32_le, lemma_lex_le_antisymmetric, lemma_lex_le_total, lex_le, Pubkey,
};
use crate::hashing::{sha256, sha256_collides, sha256_collision, sha256_digest};

verus! {

/// The bytes `we-ne:allowlist`, which start the hashed text of a leaf.
pub const ALLOWLIST_DOMAIN: [u8; 15] = [
    0x77, 0x65, 0x2d, 0x6e, 0x65, 0x3a, 0x61, 0x6c, 0x6c, 0x6f, 0x77, 0x6c, 0x69, 0x73, 0x74,
];

/// The leaf of a recipient: the digest of the domain tag and the recipient's
/// address.
pub open spec fn allowlist_leaf_spec(claimer: Pubkey) -> [u8; 32] {
    sha256(ALLOWLIST_DOMAIN@ + claimer@)
}

/// The text that is hashed for the parent of two nodes: both nodes, the
/// smaller one first.
pub open spec fn sorted_pair_preimage(a: [u8; 32], b: [u8; 32]) -> Seq<u8> {
    if lex_le(a@, b@) {
        a@ + b@
    } else {
        b@ + a@
    }
}

/// The parent of two nodes: the digest of both, the smaller one first.
pub open spec fn sorted_pair_hash(a: [u8; 32], b: [u8; 32]) -> [u8; 32] {
    sha256(sorted_pair_preimage(a, b))
}

/// The node reached from `leaf` by hashing it with each sibling of `path` in
/// turn.
pub open spec fn merkle_fold(leaf: [u8; 32], path: Seq<[u8; 32]>) -> [u8; 32]
    decreases path.len(),
{
    if path.len() == 0 {
        leaf
    } else {
        sorted_pair_hash(merkle_fold(leaf, path.drop_last()), path.last())
    }
}

/// Writes out the text that the leaf of a recipient is the digest of.
pub fn allowlist_leaf_text(claimer: &Pubkey) -> (text: Vec<u8>)
    ensures
        text@ == ALLOWLIST_DOMAIN@ + claimer@,
{
    let mut text: Vec<u8> = Vec::new();
    text.extend_from_slice(ALLOWLIST_DOMAIN.as_slice());
    text.extend_from_slice(claimer.as_slice());
    assert(text@ =~= ALLOWLIST_DOMAIN@ + claimer@);
    text
}

/// Computes the leaf of a recipient.
pub fn allowlist_leaf(claimer: Pubkey) -> (leaf: [u8; 32])
    ensures
        leaf == allowlist_leaf_spec(claimer),
{
    let text: Vec<u8> = allowlist_leaf_text(&claimer);
    sha256_digest(text.as_slice())
}

/// Writes out the text that the parent of two nodes is the digest of: both
/// nodes, the smaller one first.
pub fn sorted_pair_text(a: &[u8; 32], b: &[u8; 32]) -> (text: Vec<u8>)
    ensures
        text@ == sorted_pair_preimage(*a, *b),
{
    let mut text: Vec<u8> = Vec::new();
    if bytes32_le(a, b) {
        text.extend_from_slice(a.as_slice());
        text.extend_from_slice(b.as_slice());
        assert(text@ =~= a@ + b@);
    } else {
        text.extend_from_slice(b.as_slice());
        text.extend_from_slice(a.as_slice());
        assert(text@ =~= b@ + a@);
    }
    text
}

/// Computes the parent of two nodes.
pub fn hash_sorted_pair(a: &[u8; 32], b: &[u8; 32]) -> (parent: [u8; 32])
    ensures
        parent == sorted_pair_hash(*a, *b),
{
    let text: Vec<u8> = sorted_pair_text(a, b);
    sha256_digest(text.as_slice())
}

/// Whether `proof` leads from `leaf` to `root`.
///
/// The proof may have any length; an empty one holds for the root itself.
pub fn verify_merkle_sorted(root: [u8; 32], leaf: [u8; 32], proof: &[[u8; 32]]) -> (ok: bool)
    ensures
        ok == (merkle_fold(leaf, proof@) == root),
{
    let mut computed: [u8; 32] = leaf;
    let mut i: usize = 0;
    assert(proof@.take(0) =~= Seq::<[u8; 32]>::empty());
    while i < proof.len()
        invariant
            i <= proof.len(),
            computed == merkle_fold(leaf, proof@.take(i as int)),
        decreases proof.len() - i,
    {
        proof {
            let next = proof@.take(i + 1);
            assert(next.drop_last() =~= proof@.take(i as int));
            assert(next.last() == proof@[i as int]);
        }
        computed = hash_sorted_pair(&computed, &proof[i]);
        i = i + 1;
    }
    assert(proof@.take(i as int) =~= proof@);
    bytes32_eq(&computed, &root)
}

/// The parent of two nodes does not depend on which of them is named
/// first.
pub proof fn lemma_sorted_pair_hash_symmetric(a: [u8; 32], b: [u8; 32])
    ensures
        sorted_pair_hash(a, b) == sorted_pair_hash(b, a),
{
    lemma_lex_le_total(a@, b@);
    if lex_le(a@, b@) && lex_le(b@, a@) {
        lemma_lex_le_antisymmetric(a@, b@);
    }
}

/// Two texts made of two 32-byte halves are equal only if their halves
/// are.
proof fn lemma_halves(a: [u8; 32], b: [u8; 32], c: [u8; 32], d: [u8; 32])
    requires
        a@ + b@ == c@ + d@,
    ensures
        a == c,
        b == d,
{
    let left = a@ + b@;
    let right = c@ + d@;
    assert(a@ =~= left.subrange(0, 32));
    assert(c@ =~= right.subrange(0, 32));
    assert(b@ =~= left.subrange(32, 64));
    assert(d@ =~= right.subrange(32, 64));
    assert(a =~= c);
    assert(b =~= d);
}

/// Two different nodes have, with one and the same sibling, different
/// parents, unless SHA-256 collides.
pub proof fn lemma_sorted_pair_hash_separates(a: [u8; 32], b: [u8; 32], sibling: [u8; 32])
    requires
        a != b,
    ensures
        sorted_pair_hash(a, sibling) != sorted_pair_hash(b, sibling) || sha256_collides(),
        sorted_pair_hash(sibling, a) != sorted_pair_hash(sibling, b) || sha256_collides(),
{
    lemma_sorted_pair_hash_symmetric(sibling, a);
    lemma_sorted_pair_hash_symmetric(sibling, b);
    let x = sorted_pair_preimage(a, sibling);
    let y = sorted_pair_preimage(b, sibling);
    assert(sorted_pair_hash(a, sibling) == sha256(x));
    assert(sorted_pair_hash(b, sibling) == sha256(y));
    if x == y {
        if lex_le(a@, sibling@) {
            if lex_le(b@, sibling@) {
                lemma_halves(a, sibling, b, sibling);
            } else {
                lemma_halves(a, sibling, sibling, b);
            }
        } else {
            if lex_le(b@, sibling@) {
                lemma_halves(sibling, a, b, sibling);
            } else {
                lemma_halves(sibling, a, sibling, b);
            }
        }
    } else if sha256(x) == sha256(y) {
        assert(sha256_collision(x, y));
    }
}

/// A proof that leads from a leaf to some node leads from any other leaf to
/// another node, unless SHA-256 collides.
pub proof fn lemma_changed_leaf_detected(leaf: [u8; 32], other: [u8; 32], path: Seq<[u8; 32]>)
    requires
        leaf != other,
    ensures
        merkle_fold(leaf, path) != merkle_fold(other, path) || sha256_collides(),
    decreases path.len(),
{
    if path.len() > 0 {
        lemma_changed_leaf_detected(leaf, other, path.drop_last());
        let a = merkle_fold(leaf, path.drop_last());
        let b = merkle_fold(other, path.drop_last());
        if a != b {
            lemma_sorted_pair_hash_separates(a, b, path.last());
        }
    }
}

/// A proof with one sibling replaced by another value leads from the same
/// leaf to another node, unless SHA-256 collides.
pub proof fn lemma_changed_sibling_detected(
    leaf: [u8; 32],
    path: Seq<[u8; 32]>,
    k: int,
    other: [u8; 32],
)
    requires
        0 <= k < path.len(),
        other != path[k],
    ensures
        merkle_fold(leaf, path.update(k, other)) != merkle_fold(leaf, path) || sha256_collides(),
    decreases path.len(),
{
    let changed = path.update(k, other);
    if k == path.len() - 1 {
        assert(changed.drop_last() =~= path.drop_last());
        lemma_sorted_pair_hash_separates(other, path[k], merkle_fold(leaf, path.drop_last()));
    } else {
        assert(changed.drop_last() =~= path.drop_last().update(k, other));
        assert(changed.last() == path.last());
        lemma_changed_sibling_detected(leaf, path.drop_last(), k, other);
        let a = merkle_fold(leaf, changed.drop_last());
        let b = merkle_fold(leaf, path.drop_last());
        if a != b {
            lemma_sorted_pair_hash_separates(a, b, path.last());
        }
    }
}

/// A tree of hashes in which every inner node is the parent of its two
/// children.
pub enum MerkleTree {
    /// A leaf with its hash.
    Leaf { hash: [u8; 32] },
    /// An inner node.
    Node { left: Box<MerkleTree>, right: Box<MerkleTree> },
}

/// The root of a tree.
pub open spec fn tree_root(tree: MerkleTree) -> [u8; 32]
    decreases tree,
{
    match tree {
        MerkleTree::Leaf { hash } => hash,
        MerkleTree::Node { left, right } => sorted_pair_hash(tree_root(*left), tree_root(*right)),
    }
}

/// The leaf at the end of `route`, which says at each inner node from the
/// root down whether to go right.
pub open spec fn leaf_at(tree: MerkleTree, route: Seq<bool>) -> Option<[u8; 32]>
    decreases tree,
{
    match tree {
        MerkleTree::Leaf { hash } => if route.len() == 0 {
            Some(hash)
        } else {
            None
        },
        MerkleTree::Node { left, right } => if route.len() == 0 {
            None
        } else if route[0] {
            leaf_at(*right, route.skip(1))
        } else {
            leaf_at(*left, route.skip(1))
        },
    }
}

/// The proof for the leaf at the end of `route`: the roots of the subtrees
/// that the route leaves aside, from the leaf up.
pub open spec fn inclusion_path(tree: MerkleTree, route: Seq<bool>) -> Seq<[u8; 32]>
    decreases tree,
{
    match tree {
        MerkleTree::Leaf { hash } => Seq::empty(),
        MerkleTree::Node { left, right } => if route.len() == 0 {
            Seq::empty()
        } else if route[0] {
            inclusion_path(*right, route.skip(1)).push(tree_root(*left))
        } else {
            inclusion_path(*left, route.skip(1)).push(tree_root(*right))
        },
    }
}

/// In a tree of any shape, the proof for a leaf leads from that leaf to the
/// root.
pub proof fn lemma_inclusion_path_verifies(tree: MerkleTree, route: Seq<bool>)
    requires
        leaf_at(tree, route) is Some,
    ensures
        merkle_fold(leaf_at(tree, route)->Some_0, inclusion_path(tree, route)) == tree_root(tree),
    decreases tree,
{
    match tree {
        MerkleTree::Leaf { hash } => {},
        MerkleTree::Node { left, right } => {
            let leaf = leaf_at(tree, route)->Some_0;
            if route[0] {
                lemma_inclusion_path_verifies(*right, route.skip(1));
                let below = inclusion_path(*right, route.skip(1));
                assert(below.push(tree_root(*left)).drop_last() =~= below);
                lemma_sorted_pair_hash_symmetric(tree_root(*right), tree_root(*left));
            } else {
                lemma_inclusion_path_verifies(*left, route.skip(1));
                let below = inclusion_path(*left, route.skip(1));
                assert(below.push(tree_root(*right)).drop_last() =~= below);
            }
        },
    }
}

} // verus!
