//! Verifying a chain of Merkle proofs against a trusted root.
//!
//! A store is a tree of trees: the value sits in the lowest tree, the root of
//! each tree is a value of the tree above it, and the root of the topmost
//! tree is the commitment root. A proof has one layer for each tree, lowest
//! first; the path has one key for each tree, topmost first.

use vstd::prelude::*;
use vstd::utf8::{decode_utf8, decode_utf8_encode_utf8, encode_utf8, valid_utf8};

use crate::bytes::bytes_eq;
use crate::commitment::{
    CommitmentError, CommitmentPrefix, CommitmentProofBytes, CommitmentRoot,
};
use crate::ics23_calls::{
    calculate_existence_root, commitment_proof_held, decode_proof_layers, existence_parts,
    existence_root, layer_parts, membership_holds, non_existence_parts, non_membership_holds,
    proof_layers_decoded, raw_existence_proof, raw_non_existence_proof, raw_proof_spec,
    verify_existence, verify_non_existence,
};
use crate::proof_types::{
    absence_checkable, existence_checkable, paths_diverge, steps_match, ExistProof, InnerOp,
    LayerSpec, LayerSpecView, NonexistProof, NonexistProofView, ProofLayer, ProofLayerView,
    ProofSpecs, RawLayer,
};

verus! {

/// The root that a proof is verified against.
#[derive(Clone, Debug, PartialEq, Eq)]
pub struct MerkleRoot {
    pub hash: Vec<u8>,
}

impl View for MerkleRoot {
    type V = Seq<u8>;

    open spec fn view(&self) -> Seq<u8> {
        self.hash@
    }
}

impl MerkleRoot {
    /// The Merkle root with the bytes of a commitment root.
    pub fn from_root(root: CommitmentRoot) -> (r: MerkleRoot)
        ensures
            r@ == root@,
    {
        MerkleRoot { hash: root.into_vec() }
    }
}

/// The keys under which a value is stored, one for each tree, topmost first.
#[derive(Clone, Debug, PartialEq, Eq)]
pub struct MerklePath {
    pub key_path: Vec<String>,
}

impl View for MerklePath {
    type V = Seq<Seq<u8>>;

    /// The keys as the bytes of their UTF-8 encoding.
    open spec fn view(&self) -> Seq<Seq<u8>> {
        self.key_path@.map_values(|k: String| encode_utf8(k@))
    }
}

/// Calls `core::str::from_utf8`: the bytes as text, where they are the
/// UTF-8 encoding of some text.
#[verifier::external_body]
fn text_of_utf8(bytes: &[u8]) -> (r: Option<&str>)
    ensures
        r is Some <==> valid_utf8(bytes@),
        r matches Some(s) ==> s@ == decode_utf8(bytes@),
{
    core::str::from_utf8(bytes).ok()
}

/// The text that stands for bytes that are no UTF-8 text: the words
/// `not valid UTF8` and the list of the numbers of the bytes, in angle
/// brackets.
pub uninterp spec fn bytes_listed(bytes: Seq<u8>) -> Seq<char>;

/// Formats bytes that are no UTF-8 text with `format!`, as the list of
/// their numbers.
#[verifier::external_body]
fn list_of_bytes(bytes: &[u8]) -> (r: String)
    ensures
        r@ == bytes_listed(bytes@),
{
    format!("<not valid UTF8: {:?}>", bytes)
}

/// The key that a prefix becomes in a path: the prefix itself where it is
/// UTF-8 text, and else the text that lists its bytes.
pub open spec fn prefix_key(prefix: Seq<u8>) -> Seq<u8> {
    if valid_utf8(prefix) {
        prefix
    } else {
        encode_utf8(bytes_listed(prefix))
    }
}

/// Puts the prefix of a store in front of a path within that store. The
/// prefix becomes the first key.
pub fn apply_prefix(prefix: &CommitmentPrefix, path: Vec<String>) -> (r: MerklePath)
    ensures
        r.key_path@.len() == path@.len() + 1,
        r.key_path@.subrange(1, r.key_path@.len() as int) == path@,
        r@[0] == prefix_key(prefix@),
{
    let ghost given = path@;
    let mut rest = path;
    let first = match text_of_utf8(prefix.as_bytes()) {
        Some(text) => {
            proof {
                decode_utf8_encode_utf8(prefix@);
            }
            text.to_owned()
        },
        None => list_of_bytes(prefix.as_bytes()),
    };
    let mut key_path: Vec<String> = Vec::new();
    key_path.push(first);
    key_path.append(&mut rest);
    assert(key_path@.subrange(1, key_path@.len() as int) =~= given);
    MerklePath { key_path }
}

/// A Merkle proof: one layer for each tree, lowest first.
#[derive(Clone, Debug, PartialEq, Eq)]
pub struct MerkleProof {
    pub proofs: Vec<ProofLayer>,
}

impl View for MerkleProof {
    type V = Seq<ProofLayerView>;

    open spec fn view(&self) -> Seq<ProofLayerView> {
        self.proofs@.map_values(|p: ProofLayer| p@)
    }
}

/// The Merkle proof that bytes encode, where they encode one.
pub open spec fn merkle_proof_decoded(bytes: Seq<u8>) -> Option<Seq<ProofLayerView>> {
    match proof_layers_decoded(bytes) {
        Some(layers) => Some(layers.map_values(|l: ics23::CommitmentProof| commitment_proof_held(l))),
        None => None,
    }
}

/// Takes one decoded layer apart.
fn layer_of_raw(raw: &ics23::CommitmentProof) -> (r: ProofLayer)
    ensures
        r@ == commitment_proof_held(*raw),
{
    match layer_parts(raw) {
        RawLayer::Exist(p) => ProofLayer::Exist(existence_parts(&p)),
        RawLayer::Nonexist(p) => {
            let (key, left, right) = non_existence_parts(&p);
            let left = match left {
                Some(l) => Some(existence_parts(&l)),
                None => None,
            };
            let right = match right {
                Some(r) => Some(existence_parts(&r)),
                None => None,
            };
            ProofLayer::Nonexist(NonexistProof { key, left, right })
        },
        RawLayer::Batch => ProofLayer::Batch,
        RawLayer::Compressed => ProofLayer::Compressed,
        RawLayer::Unset => ProofLayer::Unset,
    }
}

impl MerkleProof {
    /// Decodes a Merkle proof. Bytes that encode none are refused.
    pub fn decode(bytes: &CommitmentProofBytes) -> (r: Result<MerkleProof, CommitmentError>)
        ensures
            match merkle_proof_decoded(bytes@) {
                Some(layers) => r is Ok && r->Ok_0@ == layers,
                None => r == Err::<MerkleProof, CommitmentError>(
                    CommitmentError::InvalidRawMerkleProof,
                ),
            },
    {
        let raw = match decode_proof_layers(bytes.as_bytes()) {
            Some(layers) => layers,
            None => {
                return Err(CommitmentError::InvalidRawMerkleProof);
            },
        };
        let mut proofs: Vec<ProofLayer> = Vec::new();
        let mut i: usize = 0;
        while i < raw.len()
            invariant
                i <= raw@.len(),
                proofs@.len() == i,
                forall|j: int| 0 <= j < i ==> proofs@[j]@ == commitment_proof_held(raw@[j]),
            decreases raw@.len() - i,
        {
            proofs.push(layer_of_raw(&raw[i]));
            i += 1;
        }
        let r = MerkleProof { proofs };
        assert(r@ =~= raw@.map_values(|l: ics23::CommitmentProof| commitment_proof_held(l)));
        Ok(r)
    }
}

/// What one layer makes of the value below it: the root of its tree, where
/// the layer is a proof of existence that yields a root, speaks of the key
/// and the value, and is accepted under the spec.
pub open spec fn layer_root(
    layer: ProofLayerView,
    spec: LayerSpecView,
    key: Seq<u8>,
    value: Seq<u8>,
) -> Result<Seq<u8>, CommitmentError> {
    match layer {
        ProofLayerView::Exist(p) => match existence_root(p) {
            None => Err(CommitmentError::InvalidMerkleProof),
            Some(subroot) => if existence_checkable(p, spec) && p.key == key && p.value == value
                && membership_holds(p, spec, subroot, key, value) {
                Ok(subroot)
            } else {
                Err(CommitmentError::VerificationFailure)
            },
        },
        _ => Err(CommitmentError::InvalidMerkleProof),
    }
}

/// The root reached from `value` through the layers from `index` on: layer
/// `index` is held against spec `index` and the key that many places from
/// the end of the path, and its root is the value of the next layer.
pub open spec fn layers_root(
    layers: Seq<ProofLayerView>,
    specs: Seq<LayerSpecView>,
    keys: Seq<Seq<u8>>,
    value: Seq<u8>,
    index: int,
) -> Result<Seq<u8>, CommitmentError>
    decreases layers.len() - index,
{
    if index < 0 || index >= layers.len() {
        Ok(value)
    } else {
        match layer_root(layers[index], specs[index], keys[layers.len() - 1 - index], value) {
            Err(e) => Err(e),
            Ok(subroot) => layers_root(layers, specs, keys, subroot, index + 1),
        }
    }
}

/// The first of the checks on the shape of the arguments that fails.
pub open spec fn shape_error(
    layers: Seq<ProofLayerView>,
    specs: Seq<LayerSpecView>,
    root: Seq<u8>,
    keys: Seq<Seq<u8>>,
) -> Option<CommitmentError> {
    if layers.len() == 0 {
        Some(CommitmentError::EmptyMerkleProof)
    } else if root.len() == 0 {
        Some(CommitmentError::EmptyMerkleRoot)
    } else if specs.len() != layers.len() {
        Some(CommitmentError::NumberOfSpecsMismatch)
    } else if keys.len() != layers.len() {
        Some(CommitmentError::NumberOfKeysMismatch)
    } else {
        None
    }
}

/// The outcome of verifying that `value` is stored under `keys` beneath
/// `root`, with the layers before `start` left out.
pub open spec fn membership_outcome(
    layers: Seq<ProofLayerView>,
    specs: Seq<LayerSpecView>,
    root: Seq<u8>,
    keys: Seq<Seq<u8>>,
    value: Seq<u8>,
    start: int,
) -> Result<(), CommitmentError> {
    match shape_error(layers, specs, root, keys) {
        Some(e) => Err(e),
        None => if value.len() == 0 {
            Err(CommitmentError::EmptyVerifiedValue)
        } else {
            match layers_root(layers, specs, keys, value, start) {
                Err(e) => Err(e),
                Ok(top) => if top == root {
                    Ok(())
                } else {
                    Err(CommitmentError::VerificationFailure)
                },
            }
        },
    }
}

/// The root of the tree that a proof of absence speaks of: the root that
/// the left neighbour leads to, or the right one where there is no left one.
pub open spec fn absence_root(p: NonexistProofView) -> Option<Seq<u8>> {
    match p.left {
        Some(left) => existence_root(left),
        None => match p.right {
            Some(right) => existence_root(right),
            None => None,
        },
    }
}

/// The outcome of verifying that nothing is stored under `keys` beneath
/// `root`: the lowest layer proves the absence of the last key in its tree,
/// and the layers above prove that the root of that tree is stored under
/// the keys before.
pub open spec fn non_membership_outcome(
    layers: Seq<ProofLayerView>,
    specs: Seq<LayerSpecView>,
    root: Seq<u8>,
    keys: Seq<Seq<u8>>,
) -> Result<(), CommitmentError> {
    match shape_error(layers, specs, root, keys) {
        Some(e) => Err(e),
        None => match layers[0] {
            ProofLayerView::Nonexist(p) => match absence_root(p) {
                None => Err(CommitmentError::InvalidMerkleProof),
                Some(subroot) => if absence_checkable(p, specs[0]) && non_membership_holds(
                    p,
                    specs[0],
                    subroot,
                    keys[layers.len() - 1],
                ) {
                    membership_outcome(layers, specs, root, keys, subroot, 1)
                } else {
                    Err(CommitmentError::VerificationFailure)
                },
            },
            _ => Err(CommitmentError::InvalidMerkleProof),
        },
    }
}

/// Whether two paths differ at some step before either ends, walking down
/// from the root.
pub fn paths_diverge_at_some_step(left: &Vec<InnerOp>, right: &Vec<InnerOp>) -> (r: bool)
    ensures
        r == paths_diverge(
            left@.map_values(|op: InnerOp| op@),
            right@.map_values(|op: InnerOp| op@),
        ),
{
    let ghost l = left@.map_values(|op: InnerOp| op@);
    let ghost r = right@.map_values(|op: InnerOp| op@);
    let mut j: usize = 0;
    while j < left.len() && j < right.len()
        invariant
            l == left@.map_values(|op: InnerOp| op@),
            r == right@.map_values(|op: InnerOp| op@),
            forall|k: int| 0 <= k < j ==> steps_match(#[trigger] l[l.len() - 1 - k], r[r.len() - 1 - k]),
        decreases left@.len() - j,
    {
        let a = &left[left.len() - 1 - j];
        let b = &right[right.len() - 1 - j];
        assert(l[l.len() - 1 - j] == a@);
        assert(r[r.len() - 1 - j] == b@);
        if !bytes_eq(a.prefix.as_slice(), b.prefix.as_slice()) || !bytes_eq(
            a.suffix.as_slice(),
            b.suffix.as_slice(),
        ) {
            return true;
        }
        j += 1;
    }
    false
}

/// Whether a proof of existence can be held against a spec.
fn existence_is_checkable(p: &ExistProof, spec: &LayerSpec) -> (r: bool)
    ensures
        r == existence_checkable(p@, spec@),
{
    p.path.len() == 0 || spec.is_bounded()
}

/// The root that the neighbours of a proof of absence lead to.
fn calculate_non_existence_root(p: &NonexistProof) -> (r: Option<Vec<u8>>)
    ensures
        r is Some <==> absence_root(p@) is Some,
        r matches Some(v) ==> absence_root(p@) == Some(v@),
{
    match &p.left {
        Some(left) => calculate_existence_root(&raw_existence_proof(left)),
        None => match &p.right {
            Some(right) => calculate_existence_root(&raw_existence_proof(right)),
            None => None,
        },
    }
}

/// Holds a proof of absence against a spec, a root and a key.
fn absence_holds(p: &NonexistProof, spec: &LayerSpec, root: &Vec<u8>, key: &[u8]) -> (r: bool)
    ensures
        r == (absence_checkable(p@, spec@) && non_membership_holds(p@, spec@, root@, key@)),
{
    if !spec.fits() {
        return false;
    }
    let steps_checkable = match &p.left {
        Some(l) => existence_is_checkable(l, spec),
        None => true,
    } && match &p.right {
        Some(r) => existence_is_checkable(r, spec),
        None => true,
    };
    if !steps_checkable {
        return false;
    }
    let left = match &p.left {
        Some(l) => Some(raw_existence_proof(l)),
        None => None,
    };
    let right = match &p.right {
        Some(r) => Some(raw_existence_proof(r)),
        None => None,
    };
    let diverge = match (&p.left, &p.right) {
        (Some(l), Some(r)) => paths_diverge_at_some_step(&l.path, &r.path),
        _ => true,
    };
    if !diverge {
        return false;
    }
    let raw = raw_non_existence_proof(&p.key, left, right);
    let raw_spec = raw_proof_spec(spec);
    verify_non_existence(&raw, &raw_spec, root, key)
}

/// Takes one layer from the value below it to the root of its tree.
fn verify_layer(
    layer: &ProofLayer,
    spec: &LayerSpec,
    key: &[u8],
    value: &Vec<u8>,
) -> (r: Result<Vec<u8>, CommitmentError>)
    ensures
        match r {
            Ok(subroot) => layer_root(layer@, spec@, key@, value@) == Ok::<
                Seq<u8>,
                CommitmentError,
            >(subroot@),
            Err(e) => layer_root(layer@, spec@, key@, value@) == Err::<Seq<u8>, CommitmentError>(e),
        },
{
    match layer {
        ProofLayer::Exist(p) => {
            let raw = raw_existence_proof(p);
            let subroot = match calculate_existence_root(&raw) {
                Some(subroot) => subroot,
                None => {
                    return Err(CommitmentError::InvalidMerkleProof);
                },
            };
            if !existence_is_checkable(p, spec) || !bytes_eq(p.key.as_slice(), key) || !bytes_eq(
                p.value.as_slice(),
                value.as_slice(),
            ) {
                return Err(CommitmentError::VerificationFailure);
            }
            let raw_spec = raw_proof_spec(spec);
            if !verify_existence(&raw, &raw_spec, &subroot, key, value.as_slice()) {
                return Err(CommitmentError::VerificationFailure);
            }
            Ok(subroot)
        },
        _ => Err(CommitmentError::InvalidMerkleProof),
    }
}

impl MerkleProof {
    /// Checks the shape of the arguments: a proof and a root that are not
    /// empty, and as many specs and keys as the proof has layers.
    fn check_shape(&self, specs: &ProofSpecs, root: &MerkleRoot, keys: &MerklePath) -> (r: Result<
        (),
        CommitmentError,
    >)
        ensures
            match shape_error(self@, specs@, root@, keys@) {
                Some(e) => r == Err::<(), CommitmentError>(e),
                None => r is Ok,
            },
    {
        if self.proofs.len() == 0 {
            return Err(CommitmentError::EmptyMerkleProof);
        }
        if root.hash.len() == 0 {
            return Err(CommitmentError::EmptyMerkleRoot);
        }
        let num = self.proofs.len();
        if specs.specs.len() != num {
            return Err(CommitmentError::NumberOfSpecsMismatch);
        }
        if keys.key_path.len() != num {
            return Err(CommitmentError::NumberOfKeysMismatch);
        }
        Ok(())
    }

    /// Verifies that `value` is stored under `keys` beneath `root`. The
    /// layers before `start_index` are left out; callers that verify a value
    /// pass zero.
    pub fn verify_membership(
        &self,
        specs: &ProofSpecs,
        root: MerkleRoot,
        keys: MerklePath,
        value: Vec<u8>,
        start_index: usize,
    ) -> (r: Result<(), CommitmentError>)
        ensures
            r == membership_outcome(self@, specs@, root@, keys@, value@, start_index as int),
    {
        match self.check_shape(specs, &root, &keys) {
            Err(e) => {
                return Err(e);
            },
            Ok(_) => {},
        }
        if value.len() == 0 {
            return Err(CommitmentError::EmptyVerifiedValue);
        }
        let num = self.proofs.len();
        let ghost first = value@;
        let mut subroot = value;
        let mut i = start_index;
        while i < num
            invariant
                num == self.proofs@.len(),
                num == specs.specs@.len(),
                num == keys.key_path@.len(),
                start_index <= i,
                first == value@,
                first.len() > 0,
                shape_error(self@, specs@, root@, keys@) is None,
                layers_root(self@, specs@, keys@, first, start_index as int) == layers_root(
                    self@,
                    specs@,
                    keys@,
                    subroot@,
                    i as int,
                ),
            decreases num - i,
        {
            let key = keys.key_path[num - 1 - i].as_str().as_bytes();
            assert(key@ == keys@[num - 1 - i]);
            assert(self@[i as int] == self.proofs@[i as int]@);
            assert(specs@[i as int] == specs.specs@[i as int]@);
            match verify_layer(&self.proofs[i], &specs.specs[i], key, &subroot) {
                Err(e) => {
                    return Err(e);
                },
                Ok(next) => {
                    subroot = next;
                },
            }
            i += 1;
        }
        if !bytes_eq(root.hash.as_slice(), subroot.as_slice()) {
            return Err(CommitmentError::VerificationFailure);
        }
        Ok(())
    }

    /// Verifies that nothing is stored under `keys` beneath `root`.
    pub fn verify_non_membership(&self, specs: &ProofSpecs, root: MerkleRoot, keys: MerklePath) -> (r:
        Result<(), CommitmentError>)
        ensures
            r == non_membership_outcome(self@, specs@, root@, keys@),
    {
        match self.check_shape(specs, &root, &keys) {
            Err(e) => {
                return Err(e);
            },
            Ok(_) => {},
        }
        let num = self.proofs.len();
        let key = keys.key_path[num - 1].as_str().as_bytes();
        assert(key@ == keys@[num - 1]);
        assert(self@[0] == self.proofs@[0]@);
        assert(specs@[0] == specs.specs@[0]@);
        match &self.proofs[0] {
            ProofLayer::Nonexist(p) => {
                let subroot = match calculate_non_existence_root(p) {
                    Some(subroot) => subroot,
                    None => {
                        return Err(CommitmentError::InvalidMerkleProof);
                    },
                };
                if !absence_holds(p, &specs.specs[0], &subroot, key) {
                    return Err(CommitmentError::VerificationFailure);
                }
                self.verify_membership(specs, root, keys, subroot, 1)
            },
            _ => Err(CommitmentError::InvalidMerkleProof),
        }
    }
}

} // verus!
