//! The calls into the `ics23` crate, which hashes proofs and holds them
//! against proof specs.
//!
//! Nothing in this file is proved: each function states what the `ics23`
//! source shows of the call it makes. The hash functions are those of
//! `ics23::HostFunctionsManager`.

use vstd::prelude::*;

use crate::proof_types::{
    absence_checkable, existence_checkable, existence_held, iavl_layer_spec,
    tendermint_layer_spec, ExistProof, ExistProofView, InnerSpec, LayerSpec, LayerSpecView,
    LeafOp, NonexistProofView, ProofLayerView, RawLayer,
};

verus! {

/// `ics23::ExistenceProof`, carried as it is.
#[verifier::external_type_specification]
#[verifier::external_body]
pub struct ExExistenceProof(ics23::ExistenceProof);

/// `ics23::NonExistenceProof`, carried as it is.
#[verifier::external_type_specification]
#[verifier::external_body]
pub struct ExNonExistenceProof(ics23::NonExistenceProof);

/// `ics23::ProofSpec`, carried as it is.
#[verifier::external_type_specification]
#[verifier::external_body]
pub struct ExProofSpec(ics23::ProofSpec);

/// `ics23::CommitmentProof`, carried as it is.
#[verifier::external_type_specification]
#[verifier::external_body]
pub struct ExCommitmentProof(ics23::CommitmentProof);

/// The fields of an `ics23::ExistenceProof`.
pub uninterp spec fn existence_proof_held(raw: ics23::ExistenceProof) -> ExistProofView;

/// The fields of an `ics23::NonExistenceProof`.
pub uninterp spec fn non_existence_proof_held(raw: ics23::NonExistenceProof) -> NonexistProofView;

/// The fields of an `ics23::ProofSpec`.
pub uninterp spec fn proof_spec_held(raw: ics23::ProofSpec) -> LayerSpecView;

/// What an `ics23::CommitmentProof` holds: a proof of existence, a proof of
/// absence, a batch, a compressed batch, or nothing.
pub uninterp spec fn commitment_proof_held(raw: ics23::CommitmentProof) -> ProofLayerView;

/// The layers of the `ibc_proto` Merkle proof that `prost` decodes from
/// bytes, where the bytes are the encoding of one.
pub uninterp spec fn proof_layers_decoded(bytes: Seq<u8>) -> Option<Seq<ics23::CommitmentProof>>;

/// The root that `ics23::calculate_existence_root` computes from a proof:
/// the leaf hashed, then each step of the path applied in turn. There is
/// none where the key or the value is empty, the leaf is missing, or a
/// length operation does not apply.
pub uninterp spec fn existence_root(p: ExistProofView) -> Option<Seq<u8>>;

/// Whether `ics23::verify_membership` accepts a proof of existence: the proof
/// meets the spec, speaks of the key and the value, and leads to the root.
pub uninterp spec fn membership_holds(
    p: ExistProofView,
    spec: LayerSpecView,
    root: Seq<u8>,
    key: Seq<u8>,
    value: Seq<u8>,
) -> bool;

/// Whether `ics23::verify_non_membership` accepts a proof of absence: the
/// neighbours that are given exist under the root, lie on either side of the
/// key, and are adjacent in the tree.
pub uninterp spec fn non_membership_holds(
    p: NonexistProofView,
    spec: LayerSpecView,
    root: Seq<u8>,
    key: Seq<u8>,
) -> bool;

/// Builds the `ics23::ExistenceProof` with the same fields, by the struct
/// literals of `ics23::ExistenceProof`, `ics23::LeafOp` and `ics23::InnerOp`.
#[verifier::external_body]
pub(crate) fn raw_existence_proof(p: &ExistProof) -> (raw: ics23::ExistenceProof)
    ensures
        existence_proof_held(raw) == p@,
{
    ics23::ExistenceProof {
        key: p.key.clone(),
        value: p.value.clone(),
        leaf: p.leaf.as_ref().map(|l| ics23::LeafOp {
            hash: l.hash, prehash_key: l.prehash_key, prehash_value: l.prehash_value,
            length: l.length, prefix: l.prefix.clone(),
        }),
        path: p.path.iter().map(|s| ics23::InnerOp {
            hash: s.hash, prefix: s.prefix.clone(), suffix: s.suffix.clone(),
        }).collect(),
    }
}

/// Reads the fields of an `ics23::ExistenceProof`, of its `ics23::LeafOp`
/// and of its `ics23::InnerOp`s.
#[verifier::external_body]
pub(crate) fn existence_parts(raw: &ics23::ExistenceProof) -> (p: ExistProof)
    ensures
        p@ == existence_proof_held(*raw),
{
    ExistProof {
        key: raw.key.clone(),
        value: raw.value.clone(),
        leaf: raw.leaf.as_ref().map(|l| crate::proof_types::LeafOp {
            hash: l.hash, prehash_key: l.prehash_key, prehash_value: l.prehash_value,
            length: l.length, prefix: l.prefix.clone(),
        }),
        path: raw.path.iter().map(|s| crate::proof_types::InnerOp {
            hash: s.hash, prefix: s.prefix.clone(), suffix: s.suffix.clone(),
        }).collect(),
    }
}

/// Reads the fields of an `ics23::NonExistenceProof`: the key, the left
/// neighbour and the right neighbour.
#[verifier::external_body]
pub(crate) fn non_existence_parts(raw: &ics23::NonExistenceProof) -> (r: (
    Vec<u8>,
    Option<ics23::ExistenceProof>,
    Option<ics23::ExistenceProof>,
))
    ensures
        non_existence_proof_held(*raw) == (NonexistProofView {
            key: r.0@,
            left: existence_held(r.1),
            right: existence_held(r.2),
        }),
{
    (raw.key.clone(), raw.left.clone(), raw.right.clone())
}

/// Tells the variants of `ics23::commitment_proof::Proof` apart, and a
/// layer without a proof from them.
#[verifier::external_body]
pub(crate) fn layer_parts(raw: &ics23::CommitmentProof) -> (r: RawLayer)
    ensures
        commitment_proof_held(*raw) == (match r {
            RawLayer::Exist(p) => ProofLayerView::Exist(existence_proof_held(p)),
            RawLayer::Nonexist(p) => ProofLayerView::Nonexist(non_existence_proof_held(p)),
            RawLayer::Batch => ProofLayerView::Batch,
            RawLayer::Compressed => ProofLayerView::Compressed,
            RawLayer::Unset => ProofLayerView::Unset,
        }),
{
    match &raw.proof {
        Some(ics23::commitment_proof::Proof::Exist(p)) => RawLayer::Exist(p.clone()),
        Some(ics23::commitment_proof::Proof::Nonexist(p)) => RawLayer::Nonexist(p.clone()),
        Some(ics23::commitment_proof::Proof::Batch(_)) => RawLayer::Batch,
        Some(ics23::commitment_proof::Proof::Compressed(_)) => RawLayer::Compressed,
        None => RawLayer::Unset,
    }
}

/// Decodes an `ibc_proto::ibc::core::commitment::v1::MerkleProof` with
/// `prost::Message::decode` and hands out its layers. Bytes that are no
/// encoding of one become `None`.
#[verifier::external_body]
pub(crate) fn decode_proof_layers(bytes: &[u8]) -> (r: Option<Vec<ics23::CommitmentProof>>)
    ensures
        r is Some <==> proof_layers_decoded(bytes@) is Some,
        r matches Some(layers) ==> proof_layers_decoded(bytes@) == Some(layers@),
{
    let decoded: Result<ibc_proto::ibc::core::commitment::v1::MerkleProof, prost::DecodeError> =
        prost::Message::decode(bytes);
    decoded.ok().map(|p| p.proofs)
}

/// Builds the `ics23::NonExistenceProof` with the key and the neighbours
/// given, by its struct literal.
#[verifier::external_body]
pub(crate) fn raw_non_existence_proof(
    key: &Vec<u8>,
    left: Option<ics23::ExistenceProof>,
    right: Option<ics23::ExistenceProof>,
) -> (raw: ics23::NonExistenceProof)
    ensures
        non_existence_proof_held(raw) == (NonexistProofView {
            key: key@,
            left: existence_held(left),
            right: existence_held(right),
        }),
{
    ics23::NonExistenceProof { key: key.clone(), left, right }
}

/// Builds the `ics23::ProofSpec` with the same fields, by the struct
/// literals of `ics23::ProofSpec`, `ics23::LeafOp` and `ics23::InnerSpec`.
#[verifier::external_body]
pub(crate) fn raw_proof_spec(s: &LayerSpec) -> (raw: ics23::ProofSpec)
    ensures
        proof_spec_held(raw) == s@,
{
    ics23::ProofSpec {
        leaf_spec: s.leaf_spec.as_ref().map(|l| ics23::LeafOp {
            hash: l.hash, prehash_key: l.prehash_key, prehash_value: l.prehash_value,
            length: l.length, prefix: l.prefix.clone(),
        }),
        inner_spec: s.inner_spec.as_ref().map(|i| ics23::InnerSpec {
            child_order: i.child_order.clone(), child_size: i.child_size,
            min_prefix_length: i.min_prefix_length, max_prefix_length: i.max_prefix_length,
            empty_child: i.empty_child.clone(), hash: i.hash,
        }),
        max_depth: s.max_depth,
        min_depth: s.min_depth,
        prehash_key_before_comparison: s.prehash_key_before_comparison,
    }
}

/// Reads the fields of an `ics23::ProofSpec`, of its `ics23::LeafOp` and of
/// its `ics23::InnerSpec`.
#[verifier::external_body]
pub(crate) fn proof_spec_parts(raw: &ics23::ProofSpec) -> (s: LayerSpec)
    ensures
        s@ == proof_spec_held(*raw),
{
    LayerSpec {
        leaf_spec: raw.leaf_spec.as_ref().map(|l| LeafOp {
            hash: l.hash, prehash_key: l.prehash_key, prehash_value: l.prehash_value,
            length: l.length, prefix: l.prefix.clone(),
        }),
        inner_spec: raw.inner_spec.as_ref().map(|i| InnerSpec {
            child_order: i.child_order.clone(), child_size: i.child_size,
            min_prefix_length: i.min_prefix_length, max_prefix_length: i.max_prefix_length,
            empty_child: i.empty_child.clone(), hash: i.hash,
        }),
        max_depth: raw.max_depth,
        min_depth: raw.min_depth,
        prehash_key_before_comparison: raw.prehash_key_before_comparison,
    }
}

/// Calls `ics23::iavl_spec`, which builds the spec of an IAVL tree from
/// constants.
#[verifier::external_body]
pub(crate) fn iavl_spec() -> (raw: ics23::ProofSpec)
    ensures
        proof_spec_held(raw) == iavl_layer_spec(),
{
    ics23::iavl_spec()
}

/// Calls `ics23::tendermint_spec`, which builds the spec of a Tendermint
/// tree from constants.
#[verifier::external_body]
pub(crate) fn tendermint_spec() -> (raw: ics23::ProofSpec)
    ensures
        proof_spec_held(raw) == tendermint_layer_spec(),
{
    ics23::tendermint_spec()
}

/// Calls `ics23::calculate_existence_root`. An error of the call, whatever
/// it says, becomes `None`.
#[verifier::external_body]
pub(crate) fn calculate_existence_root(raw: &ics23::ExistenceProof) -> (r: Option<Vec<u8>>)
    ensures
        r is Some <==> existence_root(existence_proof_held(*raw)) is Some,
        r matches Some(v) ==> existence_root(existence_proof_held(*raw)) == Some(v@),
{
    ics23::calculate_existence_root::<ics23::HostFunctionsManager>(raw).ok()
}

/// Calls `ics23::verify_membership` on a layer that holds the proof of
/// existence given. For each step of the path the call divides by the size
/// of a child and computes lengths in 32 bits, so where the path has a step
/// the spec is to be bounded.
#[verifier::external_body]
pub(crate) fn verify_existence(
    raw: &ics23::ExistenceProof,
    spec: &ics23::ProofSpec,
    root: &Vec<u8>,
    key: &[u8],
    value: &[u8],
) -> (ok: bool)
    requires
        existence_checkable(existence_proof_held(*raw), proof_spec_held(*spec)),
    ensures
        ok == membership_holds(
            existence_proof_held(*raw),
            proof_spec_held(*spec),
            root@,
            key@,
            value@,
        ),
{
    let layer = ics23::commitment_proof::Proof::Exist(raw.clone());
    let layer = ics23::CommitmentProof { proof: Some(layer) };
    ics23::verify_membership::<ics23::HostFunctionsManager>(&layer, spec, root, key, value)
}

/// Calls `ics23::verify_non_membership` on a layer that holds the proof of
/// absence given. The call holds each neighbour against the spec as a proof
/// of existence, computes the padding of the outermost children in 32 bits,
/// and walks the paths of both neighbours down from the root until they
/// differ: so the lengths of the spec are to fit, the spec is to be bounded
/// where a neighbour's path has a step, and the paths are to diverge.
#[verifier::external_body]
pub(crate) fn verify_non_existence(
    raw: &ics23::NonExistenceProof,
    spec: &ics23::ProofSpec,
    root: &Vec<u8>,
    key: &[u8],
) -> (ok: bool)
    requires
        absence_checkable(non_existence_proof_held(*raw), proof_spec_held(*spec)),
    ensures
        ok == non_membership_holds(
            non_existence_proof_held(*raw),
            proof_spec_held(*spec),
            root@,
            key@,
        ),
{
    let layer = ics23::commitment_proof::Proof::Nonexist(raw.clone());
    let layer = ics23::CommitmentProof { proof: Some(layer) };
    ics23::verify_non_membership::<ics23::HostFunctionsManager>(&layer, spec, root, key)
}

} // verus!
