use ibc::any::AnyClientState;
use ibc::client_state::ClientStateCommon;
use ibc::commitment::{CommitmentError, CommitmentPrefix, CommitmentProofBytes, CommitmentRoot};
use ibc::error::ClientError;
use ibc::height::Height;
use ibc::ics07_tendermint::client_state::{AllowUpdate, ClientState as TmClientState};
use ibc::ics07_tendermint::types::TrustThreshold;
use ibc::identifier::ChainId;
use ibc::timestamp::Duration;
use ibc::merkle::{apply_prefix, MerklePath, MerkleProof, MerkleRoot};
use ibc::proof_types::{
    ProofLayer, ExistProof, InnerOp, InnerSpec, LayerSpec, LeafOp, NonexistProof, ProofSpecs,
};
use ics23::{HostFunctionsManager, HostFunctionsProvider};

const SHA256: i32 = 1;
const NO_HASH: i32 = 0;
const VAR_PROTO: i32 = 1;

/// The spec of the trees of a Tendermint chain.
fn tendermint_spec() -> LayerSpec {
    LayerSpec {
        leaf_spec: Some(leaf_op()),
        inner_spec: Some(InnerSpec {
            child_order: vec![0, 1],
            child_size: 32,
            min_prefix_length: 1,
            max_prefix_length: 1,
            empty_child: vec![],
            hash: SHA256,
        }),
        max_depth: 0,
        min_depth: 0,
        prehash_key_before_comparison: false,
    }
}

fn leaf_op() -> LeafOp {
    LeafOp {
        hash: SHA256,
        prehash_key: NO_HASH,
        prehash_value: SHA256,
        length: VAR_PROTO,
        prefix: vec![0],
    }
}

fn specs(n: usize) -> ProofSpecs {
    ProofSpecs { specs: (0..n).map(|_| tendermint_spec()).collect() }
}

/// The hash of a leaf of a Tendermint tree.
fn leaf_hash(key: &[u8], value: &[u8]) -> Vec<u8> {
    let mut image = vec![0u8];
    image.push(key.len() as u8);
    image.extend_from_slice(key);
    image.push(32);
    image.extend_from_slice(&HostFunctionsManager::sha2_256(value));
    HostFunctionsManager::sha2_256(&image).to_vec()
}

/// The hash of an inner node of a Tendermint tree.
fn inner_hash(left: &[u8], right: &[u8]) -> Vec<u8> {
    let mut image = vec![1u8];
    image.extend_from_slice(left);
    image.extend_from_slice(right);
    HostFunctionsManager::sha2_256(&image).to_vec()
}

/// The proof of the only leaf of a tree.
fn single_leaf(key: &[u8], value: &[u8]) -> ExistProof {
    ExistProof { key: key.to_vec(), value: value.to_vec(), leaf: Some(leaf_op()), path: vec![] }
}

/// The proofs of the left and of the right leaf of a tree of two leaves,
/// and the root of the tree.
fn two_leaves(
    left: (&[u8], &[u8]),
    right: (&[u8], &[u8]),
) -> (ExistProof, ExistProof, Vec<u8>) {
    let left_hash = leaf_hash(left.0, left.1);
    let right_hash = leaf_hash(right.0, right.1);
    let root = inner_hash(&left_hash, &right_hash);
    let left_proof = ExistProof {
        key: left.0.to_vec(),
        value: left.1.to_vec(),
        leaf: Some(leaf_op()),
        path: vec![InnerOp { hash: SHA256, prefix: vec![1], suffix: right_hash.clone() }],
    };
    let mut prefix = vec![1u8];
    prefix.extend_from_slice(&left_hash);
    let right_proof = ExistProof {
        key: right.0.to_vec(),
        value: right.1.to_vec(),
        leaf: Some(leaf_op()),
        path: vec![InnerOp { hash: SHA256, prefix, suffix: vec![] }],
    };
    (left_proof, right_proof, root)
}

fn path(keys: &[&str]) -> MerklePath {
    MerklePath { key_path: keys.iter().map(|k| k.to_string()).collect() }
}

/// A value under the key `a` in a store named `ibc`: the proof of both
/// layers, and the root of the chain.
fn two_layer_membership() -> (MerkleProof, Vec<u8>, Vec<u8>) {
    let value = b"value of a".to_vec();
    let (proof_a, _, store_root) = two_leaves((b"a", &value), (b"c", b"value of c"));
    let upper = single_leaf(b"ibc", &store_root);
    let root = leaf_hash(b"ibc", &store_root);
    let proof = MerkleProof {
        proofs: vec![ProofLayer::Exist(proof_a), ProofLayer::Exist(upper)],
    };
    (proof, root, value)
}

/// The absence of the key `b` from a store named `ibc` that holds `a` and
/// `c`: the proof of both layers, and the root of the chain.
fn two_layer_absence() -> (MerkleProof, Vec<u8>) {
    let (proof_a, proof_c, store_root) = two_leaves((b"a", b"value of a"), (b"c", b"value of c"));
    let upper = single_leaf(b"ibc", &store_root);
    let root = leaf_hash(b"ibc", &store_root);
    let absent = NonexistProof { key: b"b".to_vec(), left: Some(proof_a), right: Some(proof_c) };
    let proof = MerkleProof {
        proofs: vec![ProofLayer::Nonexist(absent), ProofLayer::Exist(upper)],
    };
    (proof, root)
}

#[test]
fn the_roots_of_the_test_trees_are_those_that_ics23_computes() {
    let (proof, root, _) = two_layer_membership();
    let upper = match &proof.proofs[1] {
        ProofLayer::Exist(p) => p,
        _ => unreachable!(),
    };
    let raw = ics23::ExistenceProof {
        key: upper.key.clone(),
        value: upper.value.clone(),
        leaf: Some(ics23::LeafOp {
            hash: SHA256,
            prehash_key: NO_HASH,
            prehash_value: SHA256,
            length: VAR_PROTO,
            prefix: vec![0],
        }),
        path: vec![],
    };
    assert_eq!(ics23::calculate_existence_root::<HostFunctionsManager>(&raw).unwrap(), root);
}

#[test]
fn genuine_membership_proof_verifies() {
    let (proof, root, value) = two_layer_membership();
    let res = proof.verify_membership(
        &specs(2),
        MerkleRoot { hash: root },
        path(&["ibc", "a"]),
        value,
        0,
    );
    assert_eq!(res, Ok(()));
}

#[test]
fn membership_fails_for_every_changed_byte_of_the_value() {
    let (proof, root, value) = two_layer_membership();
    for i in 0..value.len() {
        let mut changed = value.clone();
        changed[i] ^= 1;
        let res = proof.verify_membership(
            &specs(2),
            MerkleRoot { hash: root.clone() },
            path(&["ibc", "a"]),
            changed,
            0,
        );
        assert_eq!(res, Err(CommitmentError::VerificationFailure));
    }
}

#[test]
fn membership_fails_for_every_changed_byte_of_the_root() {
    let (proof, root, value) = two_layer_membership();
    for i in 0..root.len() {
        let mut changed = root.clone();
        changed[i] ^= 0x80;
        let res = proof.verify_membership(
            &specs(2),
            MerkleRoot { hash: changed },
            path(&["ibc", "a"]),
            value.clone(),
            0,
        );
        assert_eq!(res, Err(CommitmentError::VerificationFailure));
    }
}

#[test]
fn membership_fails_for_a_changed_key_at_either_place_of_the_path() {
    let (proof, root, value) = two_layer_membership();
    for keys in [["ibc", "b"], ["ibd", "a"], ["a", "ibc"]] {
        let res = proof.verify_membership(
            &specs(2),
            MerkleRoot { hash: root.clone() },
            path(&keys),
            value.clone(),
            0,
        );
        assert_eq!(res, Err(CommitmentError::VerificationFailure));
    }
}

#[test]
fn membership_checks_the_shape_of_its_arguments_in_order() {
    let (proof, root, value) = two_layer_membership();
    let root = MerkleRoot { hash: root };
    let empty = MerkleProof { proofs: vec![] };
    assert_eq!(
        empty.verify_membership(
            &specs(0),
            MerkleRoot { hash: vec![] },
            path(&[]),
            vec![],
            0
        ),
        Err(CommitmentError::EmptyMerkleProof)
    );
    assert_eq!(
        proof.verify_membership(&specs(1), MerkleRoot { hash: vec![] }, path(&["a"]), vec![], 0),
        Err(CommitmentError::EmptyMerkleRoot)
    );
    assert_eq!(
        proof.verify_membership(&specs(1), root.clone(), path(&["a"]), vec![], 0),
        Err(CommitmentError::NumberOfSpecsMismatch)
    );
    assert_eq!(
        proof.verify_membership(&specs(2), root.clone(), path(&["a"]), vec![], 0),
        Err(CommitmentError::NumberOfKeysMismatch)
    );
    assert_eq!(
        proof.verify_membership(&specs(2), root.clone(), path(&["ibc", "a"]), vec![], 0),
        Err(CommitmentError::EmptyVerifiedValue)
    );
    assert_eq!(
        proof.verify_membership(&specs(2), root, path(&["ibc", "a"]), value, 0),
        Ok(())
    );
}

#[test]
fn membership_rejects_layers_that_are_no_existence_proofs() {
    let (proof, root, value) = two_layer_membership();
    for other in [ProofLayer::Batch, ProofLayer::Compressed, ProofLayer::Unset] {
        let mut layers = proof.proofs.clone();
        layers[1] = other;
        let res = MerkleProof { proofs: layers }.verify_membership(
            &specs(2),
            MerkleRoot { hash: root.clone() },
            path(&["ibc", "a"]),
            value.clone(),
            0,
        );
        assert_eq!(res, Err(CommitmentError::InvalidMerkleProof));
    }
    // an existence proof without a leaf yields no root
    let mut layers = proof.proofs.clone();
    if let ProofLayer::Exist(p) = &mut layers[0] {
        p.leaf = None;
    }
    let res = MerkleProof { proofs: layers }.verify_membership(
        &specs(2),
        MerkleRoot { hash: root },
        path(&["ibc", "a"]),
        value,
        0,
    );
    assert_eq!(res, Err(CommitmentError::InvalidMerkleProof));
}

#[test]
fn membership_from_a_later_layer_takes_the_value_as_the_root_below() {
    let (proof, root, _) = two_layer_membership();
    let (_, _, store_root) = two_leaves((b"a", b"value of a"), (b"c", b"value of c"));
    let res = proof.verify_membership(
        &specs(2),
        MerkleRoot { hash: root.clone() },
        path(&["ibc", "a"]),
        store_root.clone(),
        1,
    );
    assert_eq!(res, Ok(()));
    // with every layer left out the value itself is held against the root
    assert_eq!(
        proof.verify_membership(
            &specs(2),
            MerkleRoot { hash: root.clone() },
            path(&["ibc", "a"]),
            root.clone(),
            2
        ),
        Ok(())
    );
    assert_eq!(
        proof.verify_membership(
            &specs(2),
            MerkleRoot { hash: root },
            path(&["ibc", "a"]),
            store_root,
            2
        ),
        Err(CommitmentError::VerificationFailure)
    );
}

#[test]
fn membership_rejects_a_spec_that_the_proof_does_not_meet() {
    let (proof, root, value) = two_layer_membership();
    let mut other = specs(2);
    other.specs[0].leaf_spec.as_mut().unwrap().prehash_value = NO_HASH;
    let res = proof.verify_membership(
        &other,
        MerkleRoot { hash: root },
        path(&["ibc", "a"]),
        value,
        0,
    );
    assert_eq!(res, Err(CommitmentError::VerificationFailure));
}

#[test]
fn membership_rejects_a_spec_whose_children_have_no_size() {
    let (proof, root, value) = two_layer_membership();
    for child_size in [0, -32, i32::MAX] {
        let mut unbounded = specs(2);
        unbounded.specs[0].inner_spec.as_mut().unwrap().child_size = child_size;
        assert!(!unbounded.specs[0].is_bounded());
        let res = proof.verify_membership(
            &unbounded,
            MerkleRoot { hash: root.clone() },
            path(&["ibc", "a"]),
            value.clone(),
            0,
        );
        assert_eq!(res, Err(CommitmentError::VerificationFailure));
    }
    let mut childless = specs(2);
    childless.specs[0].inner_spec.as_mut().unwrap().child_order = vec![];
    let res = proof.verify_membership(
        &childless,
        MerkleRoot { hash: root },
        path(&["ibc", "a"]),
        value,
        0,
    );
    assert_eq!(res, Err(CommitmentError::VerificationFailure));
}

#[test]
fn genuine_non_membership_proof_verifies() {
    let (proof, root) = two_layer_absence();
    let res = proof.verify_non_membership(&specs(2), MerkleRoot { hash: root }, path(&["ibc", "b"]));
    assert_eq!(res, Ok(()));
}

#[test]
fn non_membership_fails_for_a_key_that_is_present() {
    // a genuine existence proof in place of the proof of absence
    let (proof, root, _) = two_layer_membership();
    let res = proof.verify_non_membership(&specs(2), MerkleRoot { hash: root }, path(&["ibc", "a"]));
    assert_eq!(res, Err(CommitmentError::InvalidMerkleProof));

    // the proof of absence of `b` does not show that `a` or `c` is absent
    let (proof, root) = two_layer_absence();
    for present in ["a", "c"] {
        let res = proof.verify_non_membership(
            &specs(2),
            MerkleRoot { hash: root.clone() },
            path(&["ibc", present]),
        );
        assert_eq!(res, Err(CommitmentError::VerificationFailure));
    }
}

#[test]
fn non_membership_fails_for_another_root_or_store() {
    let (proof, root) = two_layer_absence();
    let mut changed = root.clone();
    changed[0] ^= 1;
    assert_eq!(
        proof.verify_non_membership(&specs(2), MerkleRoot { hash: changed }, path(&["ibc", "b"])),
        Err(CommitmentError::VerificationFailure)
    );
    assert_eq!(
        proof.verify_non_membership(&specs(2), MerkleRoot { hash: root }, path(&["ibd", "b"])),
        Err(CommitmentError::VerificationFailure)
    );
}

#[test]
fn non_membership_checks_the_shape_of_its_arguments_in_order() {
    let (proof, root) = two_layer_absence();
    let root = MerkleRoot { hash: root };
    let empty = MerkleProof { proofs: vec![] };
    assert_eq!(
        empty.verify_non_membership(&specs(0), MerkleRoot { hash: vec![] }, path(&[])),
        Err(CommitmentError::EmptyMerkleProof)
    );
    assert_eq!(
        proof.verify_non_membership(&specs(1), MerkleRoot { hash: vec![] }, path(&["b"])),
        Err(CommitmentError::EmptyMerkleRoot)
    );
    assert_eq!(
        proof.verify_non_membership(&specs(1), root.clone(), path(&["b"])),
        Err(CommitmentError::NumberOfSpecsMismatch)
    );
    assert_eq!(
        proof.verify_non_membership(&specs(2), root, path(&["b"])),
        Err(CommitmentError::NumberOfKeysMismatch)
    );
}

#[test]
fn non_membership_without_neighbours_yields_no_root() {
    let (proof, root) = two_layer_absence();
    let mut layers = proof.proofs.clone();
    layers[0] = ProofLayer::Nonexist(NonexistProof { key: b"b".to_vec(), left: None, right: None });
    let res = MerkleProof { proofs: layers }.verify_non_membership(
        &specs(2),
        MerkleRoot { hash: root },
        path(&["ibc", "b"]),
    );
    assert_eq!(res, Err(CommitmentError::InvalidMerkleProof));
}

#[test]
fn non_membership_with_neighbours_whose_paths_never_part_is_rejected() {
    // both neighbours claim to be the only leaf of their tree
    let left = single_leaf(b"a", b"value of a");
    let right = single_leaf(b"c", b"value of c");
    let store_root = leaf_hash(b"a", b"value of a");
    let upper = single_leaf(b"ibc", &store_root);
    let root = leaf_hash(b"ibc", &store_root);
    let absent = NonexistProof { key: b"b".to_vec(), left: Some(left), right: Some(right) };
    let proof = MerkleProof {
        proofs: vec![ProofLayer::Nonexist(absent), ProofLayer::Exist(upper)],
    };
    let res = proof.verify_non_membership(&specs(2), MerkleRoot { hash: root }, path(&["ibc", "b"]));
    assert_eq!(res, Err(CommitmentError::VerificationFailure));
}

#[test]
fn non_membership_between_neighbours_fails_under_a_spec_without_the_first_child() {
    let (proof, root) = two_layer_absence();
    let mut irregular = specs(2);
    irregular.specs[0].inner_spec.as_mut().unwrap().child_order = vec![1, 1];
    assert!(irregular.specs[0].is_bounded());
    let res = proof.verify_non_membership(
        &irregular,
        MerkleRoot { hash: root },
        path(&["ibc", "b"]),
    );
    assert_eq!(res, Err(CommitmentError::VerificationFailure));
}

/// The absence of a key from a store named `ibc` that holds `a` and `c`,
/// shown by one neighbour alone.
fn two_layer_absence_at_the_edge(key: &[u8], leftmost: bool) -> (MerkleProof, Vec<u8>) {
    let (proof_a, proof_c, store_root) = two_leaves((b"a", b"value of a"), (b"c", b"value of c"));
    let upper = single_leaf(b"ibc", &store_root);
    let root = leaf_hash(b"ibc", &store_root);
    let absent = if leftmost {
        NonexistProof { key: key.to_vec(), left: None, right: Some(proof_a) }
    } else {
        NonexistProof { key: key.to_vec(), left: Some(proof_c), right: None }
    };
    let proof = MerkleProof {
        proofs: vec![ProofLayer::Nonexist(absent), ProofLayer::Exist(upper)],
    };
    (proof, root)
}

#[test]
fn absence_left_of_the_leftmost_leaf_verifies() {
    let (proof, root) = two_layer_absence_at_the_edge(b"A", true);
    let res =
        proof.verify_non_membership(&specs(2), MerkleRoot { hash: root }, path(&["ibc", "A"]));
    assert_eq!(res, Ok(()));
}

#[test]
fn absence_right_of_the_rightmost_leaf_verifies() {
    let (proof, root) = two_layer_absence_at_the_edge(b"d", false);
    let res =
        proof.verify_non_membership(&specs(2), MerkleRoot { hash: root }, path(&["ibc", "d"]));
    assert_eq!(res, Ok(()));
}

#[test]
fn absence_at_the_edge_fails_for_a_key_on_the_wrong_side() {
    let (proof, root) = two_layer_absence_at_the_edge(b"b", true);
    let res =
        proof.verify_non_membership(&specs(2), MerkleRoot { hash: root }, path(&["ibc", "b"]));
    assert_eq!(res, Err(CommitmentError::VerificationFailure));
}

#[test]
fn leftmost_absence_verifies_under_a_spec_that_lists_the_first_child_twice() {
    let (proof, root) = two_layer_absence_at_the_edge(b"A", true);
    let mut irregular = specs(2);
    irregular.specs[0].inner_spec.as_mut().unwrap().child_order = vec![0, 0];
    let res = proof.verify_non_membership(
        &irregular,
        MerkleRoot { hash: root },
        path(&["ibc", "A"]),
    );
    assert_eq!(res, Ok(()));
}

#[test]
fn rightmost_absence_fails_under_a_spec_that_lists_the_first_child_twice() {
    let (proof, root) = two_layer_absence_at_the_edge(b"d", false);
    let mut irregular = specs(2);
    irregular.specs[0].inner_spec.as_mut().unwrap().child_order = vec![0, 0];
    let res = proof.verify_non_membership(
        &irregular,
        MerkleRoot { hash: root },
        path(&["ibc", "d"]),
    );
    assert_eq!(res, Err(CommitmentError::VerificationFailure));
}

#[test]
fn proofs_without_steps_verify_under_a_spec_whose_children_have_no_size() {
    let mut sizeless = specs(1);
    sizeless.specs[0].inner_spec.as_mut().unwrap().child_size = 0;
    assert!(sizeless.specs[0].fits());
    assert!(!sizeless.specs[0].is_bounded());

    // the only leaf of a tree is there
    let value = b"value of c".to_vec();
    let root = leaf_hash(b"c", &value);
    let present = MerkleProof { proofs: vec![ProofLayer::Exist(single_leaf(b"c", &value))] };
    let res = present.verify_membership(
        &sizeless,
        MerkleRoot { hash: root.clone() },
        path(&["c"]),
        value.clone(),
        0,
    );
    assert_eq!(res, Ok(()));

    // and a key before it is not
    let absent = NonexistProof {
        key: b"b".to_vec(),
        left: None,
        right: Some(single_leaf(b"c", &value)),
    };
    let absence = MerkleProof { proofs: vec![ProofLayer::Nonexist(absent)] };
    let res = absence.verify_non_membership(&sizeless, MerkleRoot { hash: root }, path(&["b"]));
    assert_eq!(res, Ok(()));
}

#[test]
fn membership_and_absence_exclude_each_other() {
    let (proof, root, value) = two_layer_membership();
    assert!(proof
        .verify_membership(
            &specs(2),
            MerkleRoot { hash: root.clone() },
            path(&["ibc", "a"]),
            value,
            0
        )
        .is_ok());
    assert!(proof
        .verify_non_membership(&specs(2), MerkleRoot { hash: root }, path(&["ibc", "a"]))
        .is_err());
}

#[test]
fn default_proof_specs_are_an_iavl_spec_and_a_tendermint_spec() {
    let specs = ProofSpecs::default();
    assert_eq!(specs, ProofSpecs::cosmos());
    assert_eq!(specs.specs.len(), 2);
    assert_eq!(specs.specs[1], tendermint_spec());
    let iavl = LayerSpec {
        inner_spec: Some(InnerSpec {
            child_order: vec![0, 1],
            child_size: 33,
            min_prefix_length: 4,
            max_prefix_length: 12,
            empty_child: vec![],
            hash: SHA256,
        }),
        ..tendermint_spec()
    };
    assert_eq!(specs.specs[0], iavl);
    assert!(specs.specs[0].is_bounded() && specs.specs[1].is_bounded());
}

#[test]
fn spec_bounds() {
    let spec = tendermint_spec();
    assert!(spec.fits());
    assert!(spec.is_bounded());
    let no_inner = LayerSpec { inner_spec: None, ..tendermint_spec() };
    assert!(no_inner.fits() && no_inner.is_bounded());
    let mut sizeless = tendermint_spec();
    sizeless.inner_spec.as_mut().unwrap().child_size = 0;
    assert!(sizeless.fits() && !sizeless.is_bounded());
    sizeless.inner_spec.as_mut().unwrap().child_size = -1;
    assert!(!sizeless.fits());
    let mut childless = tendermint_spec();
    childless.inner_spec.as_mut().unwrap().child_order = vec![];
    assert!(!childless.fits());
    let mut huge = tendermint_spec();
    huge.inner_spec.as_mut().unwrap().max_prefix_length = i32::MAX;
    assert!(!huge.is_bounded());
    let mut edge = tendermint_spec();
    edge.inner_spec.as_mut().unwrap().child_size = 0x3fff_ffff / 2;
    assert!(edge.is_bounded());
    edge.inner_spec.as_mut().unwrap().child_size = 0x3fff_ffff / 2 + 1;
    assert!(!edge.is_bounded());
}

#[test]
fn prefix_becomes_the_first_key_of_the_path() {
    let prefix = CommitmentPrefix::try_from_vec(b"ibc".to_vec()).unwrap();
    let merkle_path = apply_prefix(&prefix, vec!["clients/07-tendermint-0/clientState".to_string()]);
    assert_eq!(
        merkle_path.key_path,
        vec!["ibc".to_string(), "clients/07-tendermint-0/clientState".to_string()]
    );
    let not_text = CommitmentPrefix::try_from_vec(vec![0xff, 0x01]).unwrap();
    let merkle_path = apply_prefix(&not_text, vec![]);
    assert_eq!(merkle_path.key_path, vec!["<not valid UTF8: [255, 1]>".to_string()]);
}

#[test]
fn merkle_root_holds_the_bytes_of_the_commitment_root() {
    let root = CommitmentRoot::from_bytes(&[1, 2, 3]);
    assert_eq!(MerkleRoot::from_root(root).hash, vec![1, 2, 3]);
}

fn raw_leaf(op: &LeafOp) -> ics23::LeafOp {
    ics23::LeafOp {
        hash: op.hash,
        prehash_key: op.prehash_key,
        prehash_value: op.prehash_value,
        length: op.length,
        prefix: op.prefix.clone(),
    }
}

fn raw_existence(p: &ExistProof) -> ics23::ExistenceProof {
    ics23::ExistenceProof {
        key: p.key.clone(),
        value: p.value.clone(),
        leaf: p.leaf.as_ref().map(raw_leaf),
        path: p
            .path
            .iter()
            .map(|s| ics23::InnerOp {
                hash: s.hash,
                prefix: s.prefix.clone(),
                suffix: s.suffix.clone(),
            })
            .collect(),
    }
}

/// The bytes that a relayer sends for a proof.
fn encode(proof: &MerkleProof) -> CommitmentProofBytes {
    let proofs = proof
        .proofs
        .iter()
        .map(|layer| ics23::CommitmentProof {
            proof: match layer {
                ProofLayer::Exist(p) => Some(ics23::commitment_proof::Proof::Exist(raw_existence(p))),
                ProofLayer::Nonexist(p) => Some(ics23::commitment_proof::Proof::Nonexist(
                    ics23::NonExistenceProof {
                        key: p.key.clone(),
                        left: p.left.as_ref().map(raw_existence),
                        right: p.right.as_ref().map(raw_existence),
                    },
                )),
                ProofLayer::Batch => Some(ics23::commitment_proof::Proof::Batch(
                    ics23::BatchProof { entries: vec![] },
                )),
                ProofLayer::Compressed => Some(ics23::commitment_proof::Proof::Compressed(
                    ics23::CompressedBatchProof { entries: vec![], lookup_inners: vec![] },
                )),
                ProofLayer::Unset => None,
            },
        })
        .collect();
    let raw = ibc_proto::ibc::core::commitment::v1::MerkleProof { proofs };
    CommitmentProofBytes::try_from_vec(prost::Message::encode_to_vec(&raw)).unwrap()
}

fn tm_client(n: usize) -> AnyClientState {
    AnyClientState::Tendermint(TmClientState {
        chain_id: ChainId::new("mockgaiaB-1".to_string(), 1),
        trust_level: TrustThreshold { numerator: 1, denominator: 3 },
        trusting_period: Duration::from_secs(64000),
        unbonding_period: Duration::from_secs(128000),
        max_clock_drift: Duration::from_secs(3),
        latest_height: Height::new(1, 20).unwrap(),
        proof_specs: specs(n),
        allow_update: AllowUpdate { after_expiry: false, after_misbehaviour: false },
        frozen_height: None,
    })
}

#[test]
fn decoding_gives_back_the_proof_that_was_encoded() {
    let (membership, _, _) = two_layer_membership();
    assert_eq!(MerkleProof::decode(&encode(&membership)), Ok(membership));
    let (absence, _) = two_layer_absence();
    assert_eq!(MerkleProof::decode(&encode(&absence)), Ok(absence));
    let other = MerkleProof {
        proofs: vec![ProofLayer::Batch, ProofLayer::Compressed, ProofLayer::Unset],
    };
    assert_eq!(MerkleProof::decode(&encode(&other)), Ok(other));
    let garbage = CommitmentProofBytes::try_from_vec(vec![0xff, 0xff, 0xff]).unwrap();
    assert_eq!(MerkleProof::decode(&garbage), Err(CommitmentError::InvalidRawMerkleProof));
}

#[test]
fn tendermint_client_verifies_membership_under_its_prefix() {
    let (proof, root, value) = two_layer_membership();
    let client = tm_client(2);
    let prefix = CommitmentPrefix::try_from_vec(b"ibc".to_vec()).unwrap();
    let root = CommitmentRoot::from(root);
    let bytes = encode(&proof);
    assert!(client
        .verify_membership(&prefix, &bytes, &root, "a".to_string(), value.clone())
        .is_ok());
    assert!(matches!(
        client.verify_membership(&prefix, &bytes, &root, "b".to_string(), value.clone()),
        Err(ClientError::Ics23Verification(CommitmentError::VerificationFailure))
    ));
    let other_prefix = CommitmentPrefix::try_from_vec(b"ibd".to_vec()).unwrap();
    assert!(matches!(
        client.verify_membership(&other_prefix, &bytes, &root, "a".to_string(), value.clone()),
        Err(ClientError::Ics23Verification(CommitmentError::VerificationFailure))
    ));
    assert!(matches!(
        client.verify_non_membership(&prefix, &bytes, &root, "a".to_string()),
        Err(ClientError::Ics23Verification(CommitmentError::InvalidMerkleProof))
    ));
    assert!(matches!(
        tm_client(1).verify_membership(&prefix, &bytes, &root, "a".to_string(), value),
        Err(ClientError::Ics23Verification(CommitmentError::NumberOfSpecsMismatch))
    ));
}

#[test]
fn tendermint_client_verifies_absence_under_its_prefix() {
    let (proof, root) = two_layer_absence();
    let client = tm_client(2);
    let prefix = CommitmentPrefix::try_from_vec(b"ibc".to_vec()).unwrap();
    let root = CommitmentRoot::from(root);
    let bytes = encode(&proof);
    assert!(client.verify_non_membership(&prefix, &bytes, &root, "b".to_string()).is_ok());
    assert!(matches!(
        client.verify_non_membership(&prefix, &bytes, &root, "a".to_string()),
        Err(ClientError::Ics23Verification(CommitmentError::VerificationFailure))
    ));
    assert!(matches!(
        client.verify_membership(&prefix, &bytes, &root, "b".to_string(), vec![1]),
        Err(ClientError::Ics23Verification(CommitmentError::InvalidMerkleProof))
    ));
}
