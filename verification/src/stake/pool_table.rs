//! A persistent map from stake pool identifiers to stake pools.
//!
//! The map is a binary trie over the bits of the identifier. An update
//! builds new nodes along one path and shares every other subtree with the
//! map it started from, which stays as it was.

use vstd::prelude::*;
use std::sync::Arc;
use crate::stake::role::{StakePoolId, StakePoolInfo};

verus! {

/// Number of bits of a stake pool identifier.
const KEY_BITS: usize = 256;

/// Bit `j` of the byte `x`, counted from the most significant.
spec fn byte_bit(x: u8, j: int) -> bool {
    (x >> ((7 - j) as u8)) & 1u8 == 1u8
}

/// Bit `i` of the identifier `key`, counted from the most significant bit of
/// its first byte.
spec fn key_bit(key: StakePoolId, i: int) -> bool {
    byte_bit(key.0.bytes@[i / 8], i % 8)
}

/// Whether the first bits of `key` are those of `path`.
spec fn on_path(key: StakePoolId, path: Seq<bool>) -> bool {
    &&& path.len() <= KEY_BITS
    &&& forall|i: int| 0 <= i < path.len() ==> key_bit(key, i) == path[i]
}

/// Two bytes with the same bits are the same.
proof fn lemma_byte_bits(a: u8, b: u8)
    requires
        forall|j: int| 0 <= j < 8 ==> byte_bit(a, j) == byte_bit(b, j),
    ensures
        a == b,
{
    assert(byte_bit(a, 0) == byte_bit(b, 0));
    assert(byte_bit(a, 1) == byte_bit(b, 1));
    assert(byte_bit(a, 2) == byte_bit(b, 2));
    assert(byte_bit(a, 3) == byte_bit(b, 3));
    assert(byte_bit(a, 4) == byte_bit(b, 4));
    assert(byte_bit(a, 5) == byte_bit(b, 5));
    assert(byte_bit(a, 6) == byte_bit(b, 6));
    assert(byte_bit(a, 7) == byte_bit(b, 7));
    assert(a == b) by (bit_vector)
        requires
            ((a >> 7u8) & 1u8 == 1u8) == ((b >> 7u8) & 1u8 == 1u8),
            ((a >> 6u8) & 1u8 == 1u8) == ((b >> 6u8) & 1u8 == 1u8),
            ((a >> 5u8) & 1u8 == 1u8) == ((b >> 5u8) & 1u8 == 1u8),
            ((a >> 4u8) & 1u8 == 1u8) == ((b >> 4u8) & 1u8 == 1u8),
            ((a >> 3u8) & 1u8 == 1u8) == ((b >> 3u8) & 1u8 == 1u8),
            ((a >> 2u8) & 1u8 == 1u8) == ((b >> 2u8) & 1u8 == 1u8),
            ((a >> 1u8) & 1u8 == 1u8) == ((b >> 1u8) & 1u8 == 1u8),
            ((a >> 0u8) & 1u8 == 1u8) == ((b >> 0u8) & 1u8 == 1u8),
    ;
}

/// Two identifiers with the same 256 bits are the same.
proof fn lemma_key_bits(a: StakePoolId, b: StakePoolId)
    requires
        forall|i: int| 0 <= i < KEY_BITS ==> key_bit(a, i) == key_bit(b, i),
    ensures
        a == b,
{
    assert forall|n: int| 0 <= n < 32 implies a.0.bytes@[n] == b.0.bytes@[n] by {
        assert forall|j: int| 0 <= j < 8 implies byte_bit(a.0.bytes@[n], j) == byte_bit(
            b.0.bytes@[n],
            j,
        ) by {
            let i = 8 * n + j;
            assert(i / 8 == n && i % 8 == j);
            assert(key_bit(a, i) == key_bit(b, i));
        }
        lemma_byte_bits(a.0.bytes@[n], b.0.bytes@[n]);
    }
    assert(a.0.bytes =~= b.0.bytes);
}

/// Bit `depth` of `key`.
fn bit_at(key: &StakePoolId, depth: usize) -> (bit: bool)
    requires
        depth < KEY_BITS,
    ensures
        bit == key_bit(*key, depth as int),
{
    let byte: u8 = key.0.bytes[depth / 8];
    let shift: u8 = (7 - depth % 8) as u8;
    (byte >> shift) & 1u8 == 1u8
}

/// A node of the trie. A branch at depth `d` holds in its first child the
/// entries whose bit `d` is 0 and in its second those whose bit `d` is 1.
#[derive(Debug)]
enum Node {
    Empty,
    Leaf(StakePoolId, StakePoolInfo),
    Branch(Arc<Node>, Arc<Node>),
}

impl Node {
    /// The entries below the node.
    spec fn map(&self) -> Map<StakePoolId, StakePoolInfo>
        decreases self,
    {
        match self {
            Node::Empty => Map::empty(),
            Node::Leaf(key, value) => Map::empty().insert(*key, *value),
            Node::Branch(zero, one) => (*zero).map().union_prefer_right((*one).map()),
        }
    }

    /// Whether the node can stand where `path` leads: every key below it
    /// starts with the bits of `path`, and so on for its children.
    spec fn wf(&self, path: Seq<bool>) -> bool
        decreases self,
    {
        match self {
            Node::Empty => true,
            Node::Leaf(key, _) => on_path(*key, path),
            Node::Branch(zero, one) => path.len() < KEY_BITS && (*zero).wf(path.push(false)) && (
            *one).wf(path.push(true)),
        }
    }

    /// Whether the node is the leaf of `key`.
    spec fn is_leaf_of(&self, key: StakePoolId) -> bool {
        match self {
            Node::Leaf(found, _) => *found == key,
            _ => false,
        }
    }

    /// The keys below a node start with the bits of the path to it.
    proof fn lemma_keys_on_path(&self, path: Seq<bool>)
        requires
            self.wf(path),
            path.len() <= KEY_BITS,
        ensures
            forall|key: StakePoolId| #[trigger] self.map().contains_key(key) ==> on_path(key, path),
        decreases self,
    {
        match self {
            Node::Branch(zero, one) => {
                (*zero).lemma_keys_on_path(path.push(false));
                (*one).lemma_keys_on_path(path.push(true));
                assert forall|key: StakePoolId| #[trigger]
                    self.map().contains_key(key) implies on_path(key, path) by {
                    assert(self.map() == zero.map().union_prefer_right(one.map()));
                    let longer = if one.map().contains_key(key) {
                        path.push(true)
                    } else {
                        assert(zero.map().contains_key(key));
                        path.push(false)
                    };
                    assert(on_path(key, longer));
                    assert forall|i: int| 0 <= i < path.len() implies key_bit(key, i)
                        == path[i] by {
                        assert(longer[i] == path[i]);
                    }
                }
            },
            _ => {},
        }
    }

    /// In a branch, a key is found in the child that its next bit selects or
    /// nowhere.
    proof fn lemma_branch(&self, path: Seq<bool>, key: StakePoolId)
        requires
            self.wf(path),
            self is Branch,
        ensures
            key_bit(key, path.len() as int) ==> !(*self->Branch_0).map().contains_key(key),
            !key_bit(key, path.len() as int) ==> !(*self->Branch_1).map().contains_key(key),
    {
        let zero = self->Branch_0;
        let one = self->Branch_1;
        zero.lemma_keys_on_path(path.push(false));
        one.lemma_keys_on_path(path.push(true));
        let d = path.len() as int;
        if zero.map().contains_key(key) {
            assert(on_path(key, path.push(false)));
            assert(key_bit(key, d) == path.push(false)[d]);
        }
        if one.map().contains_key(key) {
            assert(on_path(key, path.push(true)));
            assert(key_bit(key, d) == path.push(true)[d]);
        }
    }
}

/// A key that starts with the bits of a path starts with those bits and its
/// own next bit.
proof fn lemma_path_push(key: StakePoolId, path: Seq<bool>)
    requires
        on_path(key, path),
        path.len() < KEY_BITS,
    ensures
        on_path(key, path.push(key_bit(key, path.len() as int))),
{
}

/// Two different keys cannot share a path of 256 bits.
proof fn lemma_paths_part(a: StakePoolId, b: StakePoolId, path: Seq<bool>)
    requires
        on_path(a, path),
        on_path(b, path),
        a != b,
    ensures
        path.len() < KEY_BITS,
{
    if path.len() == KEY_BITS {
        assert forall|i: int| 0 <= i < KEY_BITS implies key_bit(a, i) == key_bit(b, i) by {
            assert(key_bit(a, i) == path[i]);
            assert(key_bit(b, i) == path[i]);
        }
        lemma_key_bits(a, b);
    }
}

/// The entry of `key` below `node`, if there is one.
fn lookup<'a>(node: &'a Node, key: &StakePoolId, depth: usize, Ghost(path): Ghost<Seq<bool>>) -> (found:
    Option<&'a StakePoolInfo>)
    requires
        node.wf(path),
        path.len() == depth,
        on_path(*key, path),
    ensures
        match found {
            Some(value) => node.map().contains_key(*key) && *value == node.map()[*key],
            None => !node.map().contains_key(*key),
        },
    decreases node,
{
    match node {
        Node::Empty => None,
        Node::Leaf(found, value) => {
            if found.same(key) {
                Some(value)
            } else {
                None
            }
        },
        Node::Branch(zero, one) => {
            proof {
                node.lemma_branch(path, *key);
                lemma_path_push(*key, path);
            }
            if bit_at(key, depth) {
                lookup(&**one, key, depth + 1, Ghost(path.push(true)))
            } else {
                lookup(&**zero, key, depth + 1, Ghost(path.push(false)))
            }
        },
    }
}

/// The smallest trie that holds two leaves of different keys.
fn join(
    a: Arc<Node>,
    key_a: &StakePoolId,
    b: Arc<Node>,
    key_b: &StakePoolId,
    depth: usize,
    Ghost(path): Ghost<Seq<bool>>,
) -> (joined: Arc<Node>)
    requires
        (*a).is_leaf_of(*key_a),
        (*b).is_leaf_of(*key_b),
        *key_a != *key_b,
        on_path(*key_a, path),
        on_path(*key_b, path),
        path.len() == depth,
    ensures
        (*joined).wf(path),
        (*joined).map() == (*a).map().union_prefer_right((*b).map()),
    decreases KEY_BITS - depth,
{
    proof {
        lemma_paths_part(*key_a, *key_b, path);
        lemma_path_push(*key_a, path);
        lemma_path_push(*key_b, path);
    }
    let bit_a = bit_at(key_a, depth);
    let bit_b = bit_at(key_b, depth);
    assert(a.wf(path.push(bit_a)));
    assert(b.wf(path.push(bit_b)));
    assert(a.map().dom() =~= set![*key_a]);
    assert(b.map().dom() =~= set![*key_b]);
    if bit_a != bit_b {
        if bit_a {
            Arc::new(Node::Branch(b, a))
        } else {
            Arc::new(Node::Branch(a, b))
        }
    } else {
        let inner = join(a, key_a, b, key_b, depth + 1, Ghost(path.push(bit_a)));
        let empty = Arc::new(Node::Empty);
        assert(empty.map() =~= Map::<StakePoolId, StakePoolInfo>::empty());
        assert(empty.wf(path.push(!bit_a)));
        if bit_a {
            Arc::new(Node::Branch(empty, inner))
        } else {
            Arc::new(Node::Branch(inner, empty))
        }
    }
}

/// The trie below `node` with the entry of `key` added; `None` where `key`
/// has an entry already.
fn insert(
    node: &Arc<Node>,
    key: StakePoolId,
    value: StakePoolInfo,
    depth: usize,
    Ghost(path): Ghost<Seq<bool>>,
) -> (grown: Option<Arc<Node>>)
    requires
        (**node).wf(path),
        path.len() == depth,
        on_path(key, path),
    ensures
        match grown {
            Some(grown) => !(**node).map().contains_key(key) && (*grown).wf(path) && (
            *grown).map() == (**node).map().insert(key, value),
            None => (**node).map().contains_key(key),
        },
    decreases **node,
{
    match &**node {
        Node::Empty => Some(Arc::new(Node::Leaf(key, value))),
        Node::Leaf(found, _) => {
            if found.same(&key) {
                None
            } else {
                let leaf = Arc::new(Node::Leaf(key, value));
                Some(join(node.clone(), found, leaf, &key, depth, Ghost(path)))
            }
        },
        Node::Branch(zero, one) => {
            proof {
                (**node).lemma_branch(path, key);
                lemma_path_push(key, path);
            }
            if bit_at(&key, depth) {
                match insert(one, key, value, depth + 1, Ghost(path.push(true))) {
                    Some(child) => Some(Arc::new(Node::Branch(zero.clone(), child))),
                    None => None,
                }
            } else {
                match insert(zero, key, value, depth + 1, Ghost(path.push(false))) {
                    Some(child) => Some(Arc::new(Node::Branch(child, one.clone()))),
                    None => None,
                }
            }
        },
    }
}

/// The branch of two children, or what stands for it in less: nothing where
/// both are empty, the leaf where one is a leaf and the other empty.
fn branch(zero: Arc<Node>, one: Arc<Node>, Ghost(path): Ghost<Seq<bool>>) -> (node: Arc<Node>)
    requires
        path.len() < KEY_BITS,
        (*zero).wf(path.push(false)),
        (*one).wf(path.push(true)),
    ensures
        (*node).wf(path),
        (*node).map() == (*zero).map().union_prefer_right((*one).map()),
{
    match (&*zero, &*one) {
        (Node::Empty, Node::Empty) => zero,
        (Node::Leaf(key, _), Node::Empty) => {
            assert forall|i: int| 0 <= i < path.len() implies key_bit(*key, i) == path[i] by {
                assert(path.push(false)[i] == path[i]);
            }
            zero
        },
        (Node::Empty, Node::Leaf(key, _)) => {
            assert forall|i: int| 0 <= i < path.len() implies key_bit(*key, i) == path[i] by {
                assert(path.push(true)[i] == path[i]);
            }
            one
        },
        _ => Arc::new(Node::Branch(zero, one)),
    }
}

/// The trie below `node` without the entry of `key`; `None` where `key` has
/// no entry.
fn remove(node: &Arc<Node>, key: &StakePoolId, depth: usize, Ghost(path): Ghost<Seq<bool>>) -> (shrunk:
    Option<Arc<Node>>)
    requires
        (**node).wf(path),
        path.len() == depth,
        on_path(*key, path),
    ensures
        match shrunk {
            Some(shrunk) => (**node).map().contains_key(*key) && (*shrunk).wf(path) && (
            *shrunk).map() == (**node).map().remove(*key),
            None => !(**node).map().contains_key(*key),
        },
    decreases **node,
{
    match &**node {
        Node::Empty => None,
        Node::Leaf(found, _) => {
            if found.same(key) {
                Some(Arc::new(Node::Empty))
            } else {
                None
            }
        },
        Node::Branch(zero, one) => {
            proof {
                (**node).lemma_branch(path, *key);
                lemma_path_push(*key, path);
            }
            if bit_at(key, depth) {
                match remove(one, key, depth + 1, Ghost(path.push(true))) {
                    Some(child) => Some(branch(zero.clone(), child, Ghost(path))),
                    None => None,
                }
            } else {
                match remove(zero, key, depth + 1, Ghost(path.push(false))) {
                    Some(child) => Some(branch(child, one.clone(), Ghost(path))),
                    None => None,
                }
            }
        },
    }
}

/// Why an entry could not be added.
#[derive(Debug, Clone, Copy, PartialEq, Eq, Structural)]
pub enum InsertError {
    /// The key has an entry already.
    EntryExists,
}

/// Why an entry could not be removed.
#[derive(Debug, Clone, Copy, PartialEq, Eq, Structural)]
pub enum RemoveError {
    /// The key has no entry.
    KeyNotFound,
}

/// All registered stake pools, by their identifier. A table is never
/// changed: adding and removing give a new table, and the old one stays
/// valid.
#[derive(Debug)]
pub struct PoolTable {
    root: Arc<Node>,
}

impl View for PoolTable {
    type V = Map<StakePoolId, StakePoolInfo>;

    closed spec fn view(&self) -> Map<StakePoolId, StakePoolInfo> {
        (*self.root).map()
    }
}

impl Clone for PoolTable {
    /// Another handle on the same table.
    fn clone(&self) -> (copy: Self)
        ensures
            copy@ == self@,
    {
        proof {
            use_type_invariant(self);
        }
        PoolTable { root: self.root.clone() }
    }
}

impl PoolTable {
    #[verifier::type_invariant]
    spec fn well_formed(self) -> bool {
        (*self.root).wf(Seq::<bool>::empty())
    }

    /// The table without entries.
    pub fn new() -> (table: PoolTable)
        ensures
            table@ == Map::<StakePoolId, StakePoolInfo>::empty(),
    {
        PoolTable { root: Arc::new(Node::Empty) }
    }

    /// The entry of `key`, if there is one.
    pub fn lookup(&self, key: &StakePoolId) -> (found: Option<&StakePoolInfo>)
        ensures
            match found {
                Some(value) => self@.contains_key(*key) && *value == self@[*key],
                None => !self@.contains_key(*key),
            },
    {
        proof {
            use_type_invariant(self);
        }
        lookup(&*self.root, key, 0, Ghost(Seq::<bool>::empty()))
    }

    /// The table with the entry of `key` added. A key that has an entry
    /// already is refused, and nothing is overwritten.
    pub fn insert(&self, key: StakePoolId, value: StakePoolInfo) -> (result: Result<
        PoolTable,
        InsertError,
    >)
        ensures
            match result {
                Ok(table) => !self@.contains_key(key) && table@ == self@.insert(key, value),
                Err(error) => self@.contains_key(key) && error == InsertError::EntryExists,
            },
    {
        proof {
            use_type_invariant(self);
        }
        match insert(&self.root, key, value, 0, Ghost(Seq::<bool>::empty())) {
            Some(root) => Ok(PoolTable { root }),
            None => Err(InsertError::EntryExists),
        }
    }

    /// The table without the entry of `key`. A key that has no entry is
    /// refused.
    pub fn remove(&self, key: &StakePoolId) -> (result: Result<PoolTable, RemoveError>)
        ensures
            match result {
                Ok(table) => self@.contains_key(*key) && table@ == self@.remove(*key),
                Err(error) => !self@.contains_key(*key) && error == RemoveError::KeyNotFound,
            },
    {
        proof {
            use_type_invariant(self);
        }
        match remove(&self.root, key, 0, Ghost(Seq::<bool>::empty())) {
            Some(root) => Ok(PoolTable { root }),
            None => Err(RemoveError::KeyNotFound),
        }
    }
}

} // verus!
