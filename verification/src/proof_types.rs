//! The layers of a Merkle proof and the specs they are held against, as plain
//! data.
//!
//! Each type mirrors the message of the same name in the ICS 23 proof format,
//! field for field. Hash and length operations are kept as the numbers that
//! the format assigns to them.

use vstd::prelude::*;

use crate::bytes::{bytes_copy, numbers_copy};
use crate::ics23_calls::{iavl_spec, proof_spec_parts, tendermint_spec};

verus! {

/// How a leaf is hashed: the key and the value are prepared (hashed and
/// prefixed with their length), joined behind `prefix`, and hashed.
#[derive(Debug, PartialEq, Eq)]
pub struct LeafOp {
    pub hash: i32,
    pub prehash_key: i32,
    pub prehash_value: i32,
    pub length: i32,
    pub prefix: Vec<u8>,
}

pub struct LeafOpView {
    pub hash: i32,
    pub prehash_key: i32,
    pub prehash_value: i32,
    pub length: i32,
    pub prefix: Seq<u8>,
}

impl View for LeafOp {
    type V = LeafOpView;

    open spec fn view(&self) -> LeafOpView {
        LeafOpView {
            hash: self.hash,
            prehash_key: self.prehash_key,
            prehash_value: self.prehash_value,
            length: self.length,
            prefix: self.prefix@,
        }
    }
}

impl Clone for LeafOp {
    fn clone(&self) -> (r: LeafOp)
        ensures
            r@ == self@,
    {
        LeafOp {
            hash: self.hash,
            prehash_key: self.prehash_key,
            prehash_value: self.prehash_value,
            length: self.length,
            prefix: bytes_copy(self.prefix.as_slice()),
        }
    }
}

/// One step from a child to its parent: the child's hash between `prefix`
/// and `suffix`, hashed.
#[derive(Clone, Debug, PartialEq, Eq)]
pub struct InnerOp {
    pub hash: i32,
    pub prefix: Vec<u8>,
    pub suffix: Vec<u8>,
}

pub struct InnerOpView {
    pub hash: i32,
    pub prefix: Seq<u8>,
    pub suffix: Seq<u8>,
}

impl View for InnerOp {
    type V = InnerOpView;

    open spec fn view(&self) -> InnerOpView {
        InnerOpView { hash: self.hash, prefix: self.prefix@, suffix: self.suffix@ }
    }
}

/// A proof that `key` is bound to `value` in a tree: the leaf and the steps
/// from the leaf up to the root.
#[derive(Clone, Debug, PartialEq, Eq)]
pub struct ExistProof {
    pub key: Vec<u8>,
    pub value: Vec<u8>,
    pub leaf: Option<LeafOp>,
    pub path: Vec<InnerOp>,
}

pub struct ExistProofView {
    pub key: Seq<u8>,
    pub value: Seq<u8>,
    pub leaf: Option<LeafOpView>,
    pub path: Seq<InnerOpView>,
}

pub open spec fn leaf_view(leaf: Option<LeafOp>) -> Option<LeafOpView> {
    match leaf {
        Some(l) => Some(l@),
        None => None,
    }
}

impl View for ExistProof {
    type V = ExistProofView;

    open spec fn view(&self) -> ExistProofView {
        ExistProofView {
            key: self.key@,
            value: self.value@,
            leaf: leaf_view(self.leaf),
            path: self.path@.map_values(|op: InnerOp| op@),
        }
    }
}

/// A proof that `key` is bound to nothing in a tree: the proofs of its
/// neighbours to the left and to the right, where there are such.
#[derive(Clone, Debug, PartialEq, Eq)]
pub struct NonexistProof {
    pub key: Vec<u8>,
    pub left: Option<ExistProof>,
    pub right: Option<ExistProof>,
}

pub struct NonexistProofView {
    pub key: Seq<u8>,
    pub left: Option<ExistProofView>,
    pub right: Option<ExistProofView>,
}

pub open spec fn existence_view(side: Option<ExistProof>) -> Option<ExistProofView> {
    match side {
        Some(p) => Some(p@),
        None => None,
    }
}

impl View for NonexistProof {
    type V = NonexistProofView;

    open spec fn view(&self) -> NonexistProofView {
        NonexistProofView {
            key: self.key@,
            left: existence_view(self.left),
            right: existence_view(self.right),
        }
    }
}

/// One layer of a Merkle proof. Batched and compressed proofs are told apart
/// from the rest and never verified, so what they hold is not kept.
#[derive(Clone, Debug, PartialEq, Eq)]
pub enum ProofLayer {
    Exist(ExistProof),
    Nonexist(NonexistProof),
    Batch,
    Compressed,
    /// A layer that holds no proof at all.
    Unset,
}

pub enum ProofLayerView {
    Exist(ExistProofView),
    Nonexist(NonexistProofView),
    Batch,
    Compressed,
    Unset,
}

impl View for ProofLayer {
    type V = ProofLayerView;

    open spec fn view(&self) -> ProofLayerView {
        match self {
            ProofLayer::Exist(p) => ProofLayerView::Exist(p@),
            ProofLayer::Nonexist(p) => ProofLayerView::Nonexist(p@),
            ProofLayer::Batch => ProofLayerView::Batch,
            ProofLayer::Compressed => ProofLayerView::Compressed,
            ProofLayer::Unset => ProofLayerView::Unset,
        }
    }
}

/// One layer of a Merkle proof as the `ics23` crate holds it, by its kind.
pub enum RawLayer {
    Exist(ics23::ExistenceProof),
    Nonexist(ics23::NonExistenceProof),
    Batch,
    Compressed,
    Unset,
}

/// What a neighbour of a proof of absence holds, where there is one.
pub open spec fn existence_held(side: Option<ics23::ExistenceProof>) -> Option<ExistProofView> {
    match side {
        Some(p) => Some(crate::ics23_calls::existence_proof_held(p)),
        None => None,
    }
}

/// The shape of the inner nodes of a tree: how many children a node has, in
/// which order they are hashed, and how long a child and a prefix may be.
#[derive(Debug, PartialEq, Eq)]
pub struct InnerSpec {
    pub child_order: Vec<i32>,
    pub child_size: i32,
    pub min_prefix_length: i32,
    pub max_prefix_length: i32,
    pub empty_child: Vec<u8>,
    pub hash: i32,
}

pub struct InnerSpecView {
    pub child_order: Seq<i32>,
    pub child_size: i32,
    pub min_prefix_length: i32,
    pub max_prefix_length: i32,
    pub empty_child: Seq<u8>,
    pub hash: i32,
}

impl View for InnerSpec {
    type V = InnerSpecView;

    open spec fn view(&self) -> InnerSpecView {
        InnerSpecView {
            child_order: self.child_order@,
            child_size: self.child_size,
            min_prefix_length: self.min_prefix_length,
            max_prefix_length: self.max_prefix_length,
            empty_child: self.empty_child@,
            hash: self.hash,
        }
    }
}

impl Clone for InnerSpec {
    fn clone(&self) -> (r: InnerSpec)
        ensures
            r@ == self@,
    {
        InnerSpec {
            child_order: numbers_copy(self.child_order.as_slice()),
            child_size: self.child_size,
            min_prefix_length: self.min_prefix_length,
            max_prefix_length: self.max_prefix_length,
            empty_child: bytes_copy(self.empty_child.as_slice()),
            hash: self.hash,
        }
    }
}

/// The greatest number of bytes that the children of one node, or a prefix,
/// may take: with it every length computed from a spec fits in 32 bits.
pub const MAX_NODE_BYTES: i32 = 0x3fff_ffff;

/// Lengths computed from the spec stay within 32 bits: there is a child,
/// no size is negative, and the children of a node and each prefix length
/// stay within `MAX_NODE_BYTES`.
pub open spec fn inner_spec_fits(s: InnerSpecView) -> bool {
    &&& 1 <= s.child_order.len()
    &&& 0 <= s.child_size
    &&& s.child_order.len() * s.child_size <= MAX_NODE_BYTES
    &&& s.child_order.len() <= MAX_NODE_BYTES
    &&& -MAX_NODE_BYTES <= s.min_prefix_length <= MAX_NODE_BYTES
    &&& -MAX_NODE_BYTES <= s.max_prefix_length <= MAX_NODE_BYTES
}

/// Lengths computed from the spec stay within 32 bits and no child is empty.
pub open spec fn inner_spec_bounded(s: InnerSpecView) -> bool {
    &&& inner_spec_fits(s)
    &&& 1 <= s.child_size
}

impl InnerSpec {
    /// Whether lengths computed from this spec stay within 32 bits.
    pub fn fits(&self) -> (r: bool)
        ensures
            r == inner_spec_fits(self@),
    {
        let n: usize = self.child_order.len();
        if n < 1 || n > 0x3fff_ffff || self.child_size < 0 {
            return false;
        }
        let children: u64 = n as u64;
        let size: u64 = self.child_size as u64;
        assert(children * size <= 0x3fff_ffff * 0x7fff_ffff) by (nonlinear_arith)
            requires
                children <= 0x3fff_ffff,
                size <= 0x7fff_ffff,
        ;
        children * size <= 0x3fff_ffff && -0x3fff_ffff <= self.min_prefix_length
            && self.min_prefix_length <= 0x3fff_ffff && -0x3fff_ffff <= self.max_prefix_length
            && self.max_prefix_length <= 0x3fff_ffff
    }

    /// Whether lengths computed from this spec stay within 32 bits and no
    /// child is empty.
    pub fn is_bounded(&self) -> (r: bool)
        ensures
            r == inner_spec_bounded(self@),
    {
        self.fits() && self.child_size >= 1
    }
}

/// What the proofs of one tree must look like.
#[derive(Debug, PartialEq, Eq)]
pub struct LayerSpec {
    pub leaf_spec: Option<LeafOp>,
    pub inner_spec: Option<InnerSpec>,
    pub max_depth: i32,
    pub min_depth: i32,
    pub prehash_key_before_comparison: bool,
}

pub struct LayerSpecView {
    pub leaf_spec: Option<LeafOpView>,
    pub inner_spec: Option<InnerSpecView>,
    pub max_depth: i32,
    pub min_depth: i32,
    pub prehash_key_before_comparison: bool,
}

pub open spec fn inner_spec_view(spec: Option<InnerSpec>) -> Option<InnerSpecView> {
    match spec {
        Some(s) => Some(s@),
        None => None,
    }
}

impl View for LayerSpec {
    type V = LayerSpecView;

    open spec fn view(&self) -> LayerSpecView {
        LayerSpecView {
            leaf_spec: leaf_view(self.leaf_spec),
            inner_spec: inner_spec_view(self.inner_spec),
            max_depth: self.max_depth,
            min_depth: self.min_depth,
            prehash_key_before_comparison: self.prehash_key_before_comparison,
        }
    }
}

impl Clone for LayerSpec {
    fn clone(&self) -> (r: LayerSpec)
        ensures
            r@ == self@,
    {
        let leaf_spec = match &self.leaf_spec {
            Some(l) => Some(l.clone()),
            None => None,
        };
        let inner_spec = match &self.inner_spec {
            Some(i) => Some(i.clone()),
            None => None,
        };
        LayerSpec {
            leaf_spec,
            inner_spec,
            max_depth: self.max_depth,
            min_depth: self.min_depth,
            prehash_key_before_comparison: self.prehash_key_before_comparison,
        }
    }
}

/// A spec without inner nodes, or one whose lengths fit.
pub open spec fn proof_spec_fits(s: LayerSpecView) -> bool {
    s.inner_spec matches Some(inner) ==> inner_spec_fits(inner)
}

/// A spec without inner nodes, or one whose inner nodes are bounded.
pub open spec fn proof_spec_bounded(s: LayerSpecView) -> bool {
    s.inner_spec matches Some(inner) ==> inner_spec_bounded(inner)
}

impl LayerSpec {
    pub fn fits(&self) -> (r: bool)
        ensures
            r == proof_spec_fits(self@),
    {
        match &self.inner_spec {
            Some(inner) => inner.fits(),
            None => true,
        }
    }

    pub fn is_bounded(&self) -> (r: bool)
        ensures
            r == proof_spec_bounded(self@),
    {
        match &self.inner_spec {
            Some(inner) => inner.is_bounded(),
            None => true,
        }
    }
}

/// The proof specs of a chain, one for each layer of its store, lowest
/// layer first.
#[derive(Debug, PartialEq, Eq)]
pub struct ProofSpecs {
    pub specs: Vec<LayerSpec>,
}

impl View for ProofSpecs {
    type V = Seq<LayerSpecView>;

    open spec fn view(&self) -> Seq<LayerSpecView> {
        self.specs@.map_values(|s: LayerSpec| s@)
    }
}

impl Clone for ProofSpecs {
    fn clone(&self) -> (r: ProofSpecs)
        ensures
            r@ == self@,
    {
        let mut specs: Vec<LayerSpec> = Vec::new();
        let mut i: usize = 0;
        while i < self.specs.len()
            invariant
                i <= self.specs@.len(),
                specs@.len() == i,
                forall|j: int| 0 <= j < i ==> specs@[j]@ == self.specs@[j]@,
            decreases self.specs@.len() - i,
        {
            specs.push(self.specs[i].clone());
            i += 1;
        }
        let r = ProofSpecs { specs };
        assert(r@ =~= self@);
        r
    }
}

/// How a leaf of an IAVL tree or of a Tendermint tree is hashed: with
/// SHA-256, the value hashed before, the lengths as varints, behind a zero
/// byte.
pub open spec fn cosmos_leaf_spec() -> LeafOpView {
    LeafOpView { hash: 1, prehash_key: 0, prehash_value: 1, length: 1, prefix: seq![0u8] }
}

/// The spec of an IAVL tree: two children of 33 bytes, behind a prefix of 4
/// to 12 bytes.
pub open spec fn iavl_layer_spec() -> LayerSpecView {
    LayerSpecView {
        leaf_spec: Some(cosmos_leaf_spec()),
        inner_spec: Some(
            InnerSpecView {
                child_order: seq![0i32, 1i32],
                child_size: 33,
                min_prefix_length: 4,
                max_prefix_length: 12,
                empty_child: Seq::empty(),
                hash: 1,
            },
        ),
        max_depth: 0,
        min_depth: 0,
        prehash_key_before_comparison: false,
    }
}

/// The spec of a Tendermint tree: two children of 32 bytes, behind a prefix
/// of one byte.
pub open spec fn tendermint_layer_spec() -> LayerSpecView {
    LayerSpecView {
        leaf_spec: Some(cosmos_leaf_spec()),
        inner_spec: Some(
            InnerSpecView {
                child_order: seq![0i32, 1i32],
                child_size: 32,
                min_prefix_length: 1,
                max_prefix_length: 1,
                empty_child: Seq::empty(),
                hash: 1,
            },
        ),
        max_depth: 0,
        min_depth: 0,
        prehash_key_before_comparison: false,
    }
}

impl ProofSpecs {
    /// The specs of a chain whose store is an IAVL tree for each module
    /// beneath one Tendermint tree.
    pub fn cosmos() -> (r: ProofSpecs)
        ensures
            r@ == seq![iavl_layer_spec(), tendermint_layer_spec()],
    {
        let mut specs: Vec<LayerSpec> = Vec::new();
        specs.push(proof_spec_parts(&iavl_spec()));
        specs.push(proof_spec_parts(&tendermint_spec()));
        let r = ProofSpecs { specs };
        assert(r@ =~= seq![iavl_layer_spec(), tendermint_layer_spec()]);
        r
    }
}

impl Default for ProofSpecs {
    /// The specs of `ProofSpecs::cosmos`.
    fn default() -> (r: ProofSpecs)
        ensures
            r@ == seq![iavl_layer_spec(), tendermint_layer_spec()],
    {
        ProofSpecs::cosmos()
    }
}

/// Two steps with the same prefix and the same suffix.
pub open spec fn steps_match(a: InnerOpView, b: InnerOpView) -> bool {
    a.prefix == b.prefix && a.suffix == b.suffix
}

/// Walking both paths down from the root, a step is found at which they
/// differ before either path ends.
pub open spec fn paths_diverge(left: Seq<InnerOpView>, right: Seq<InnerOpView>) -> bool {
    exists|j: int|
        0 <= j < left.len() && j < right.len() && !steps_match(
            #[trigger] left[left.len() - 1 - j],
            right[right.len() - 1 - j],
        )
}

/// Whether a proof of existence can be held against a spec: the inner
/// spec is read once for each step of the path, so where there is a step
/// the spec is to be bounded.
pub open spec fn existence_checkable(p: ExistProofView, spec: LayerSpecView) -> bool {
    p.path.len() > 0 ==> proof_spec_bounded(spec)
}

/// Whether a proof of absence can be held against a spec: the lengths of
/// the spec fit, each neighbour can be held against the spec, and the paths
/// of two neighbours diverge.
pub open spec fn absence_checkable(p: NonexistProofView, spec: LayerSpecView) -> bool {
    &&& proof_spec_fits(spec)
    &&& p.left matches Some(left) ==> existence_checkable(left, spec)
    &&& p.right matches Some(right) ==> existence_checkable(right, spec)
    &&& p.left is Some && p.right is Some ==> paths_diverge(p.left->0.path, p.right->0.path)
}

} // verus!
