//! What holds of every verification of a Merkle proof.

use vstd::prelude::*;

use crate::commitment::CommitmentError;
use crate::merkle::{layer_root, layers_root, membership_outcome, non_membership_outcome, shape_error};
use crate::proof_types::{ProofLayerView, LayerSpecView};

verus! {

/// Where the layers from `from` on lead to a root, every one of them is a
/// proof of existence that speaks of its key in the path.
pub proof fn lemma_accepted_layers_speak_of_their_keys(
    layers: Seq<ProofLayerView>,
    specs: Seq<LayerSpecView>,
    keys: Seq<Seq<u8>>,
    value: Seq<u8>,
    from: int,
    at: int,
)
    requires
        0 <= from <= at < layers.len(),
        layers_root(layers, specs, keys, value, from) is Ok,
    ensures
        layers[at] matches ProofLayerView::Exist(p) && p.key == keys[layers.len() - 1 - at],
    decreases at - from,
{
    let step = layer_root(layers[from], specs[from], keys[layers.len() - 1 - from], value);
    if from < at {
        lemma_accepted_layers_speak_of_their_keys(
            layers,
            specs,
            keys,
            step->Ok_0,
            from + 1,
            at,
        );
    }
}

/// Where a layer does not speak of its key in the path, the layers from any
/// earlier one on lead to no root, whatever the value they start from.
pub proof fn lemma_layer_with_other_key_fails(
    layers: Seq<ProofLayerView>,
    specs: Seq<LayerSpecView>,
    keys: Seq<Seq<u8>>,
    value: Seq<u8>,
    from: int,
    at: int,
)
    requires
        0 <= from <= at < layers.len(),
        layers[at] matches ProofLayerView::Exist(p) ==> p.key != keys[layers.len() - 1 - at],
    ensures
        layers_root(layers, specs, keys, value, from) is Err,
    decreases at - from,
{
    let step = layer_root(layers[from], specs[from], keys[layers.len() - 1 - from], value);
    if from < at && step is Ok {
        lemma_layer_with_other_key_fails(layers, specs, keys, step->Ok_0, from + 1, at);
    }
}

/// A proof that is accepted for one root is refused for every other root.
pub proof fn lemma_membership_pins_root(
    layers: Seq<ProofLayerView>,
    specs: Seq<LayerSpecView>,
    root: Seq<u8>,
    keys: Seq<Seq<u8>>,
    value: Seq<u8>,
    start: int,
    other_root: Seq<u8>,
)
    requires
        membership_outcome(layers, specs, root, keys, value, start) is Ok,
        other_root != root,
    ensures
        membership_outcome(layers, specs, other_root, keys, value, start) is Err,
{
}

/// A proof that is accepted for one value is refused for every other value.
pub proof fn lemma_membership_pins_value(
    layers: Seq<ProofLayerView>,
    specs: Seq<LayerSpecView>,
    root: Seq<u8>,
    keys: Seq<Seq<u8>>,
    value: Seq<u8>,
    other_value: Seq<u8>,
)
    requires
        membership_outcome(layers, specs, root, keys, value, 0) is Ok,
        other_value != value,
    ensures
        membership_outcome(layers, specs, root, keys, other_value, 0) is Err,
{
    let key = keys[layers.len() - 1];
    assert(layer_root(layers[0], specs[0], key, value) is Ok);
    assert(layer_root(layers[0], specs[0], key, other_value) is Err);
}

/// A proof that is accepted for one path is refused for every other path:
/// one with another number of keys, or with another key at any place.
pub proof fn lemma_membership_pins_keys(
    layers: Seq<ProofLayerView>,
    specs: Seq<LayerSpecView>,
    root: Seq<u8>,
    keys: Seq<Seq<u8>>,
    value: Seq<u8>,
    other_keys: Seq<Seq<u8>>,
)
    requires
        membership_outcome(layers, specs, root, keys, value, 0) is Ok,
        other_keys != keys,
    ensures
        membership_outcome(layers, specs, root, other_keys, value, 0) is Err,
{
    if other_keys.len() == keys.len() {
        if forall|i: int| 0 <= i < keys.len() ==> keys[i] == other_keys[i] {
            assert(keys =~= other_keys);
        }
        let i = choose|i: int| 0 <= i < keys.len() && keys[i] != other_keys[i];
        let at = layers.len() - 1 - i;
        lemma_accepted_layers_speak_of_their_keys(layers, specs, keys, value, 0, at);
        lemma_layer_with_other_key_fails(layers, specs, other_keys, value, 0, at);
    }
}

/// A proof whose lowest layer proves that a key exists is never accepted
/// as a proof that the key is absent.
pub proof fn lemma_existence_is_no_proof_of_absence(
    layers: Seq<ProofLayerView>,
    specs: Seq<LayerSpecView>,
    root: Seq<u8>,
    keys: Seq<Seq<u8>>,
)
    requires
        layers.len() > 0,
        layers[0] is Exist,
    ensures
        non_membership_outcome(layers, specs, root, keys) is Err,
        shape_error(layers, specs, root, keys) is None ==> non_membership_outcome(
            layers,
            specs,
            root,
            keys,
        ) == Err::<(), CommitmentError>(CommitmentError::InvalidMerkleProof),
{
}

/// Verifying a proof of absence never succeeds on a proof that would also
/// be accepted as a proof that some value is stored under the same keys.
pub proof fn lemma_absence_and_membership_exclude_each_other(
    layers: Seq<ProofLayerView>,
    specs: Seq<LayerSpecView>,
    root: Seq<u8>,
    keys: Seq<Seq<u8>>,
    value: Seq<u8>,
)
    requires
        membership_outcome(layers, specs, root, keys, value, 0) is Ok,
    ensures
        non_membership_outcome(layers, specs, root, keys) is Err,
{
    let key = keys[layers.len() - 1];
    assert(layer_root(layers[0], specs[0], key, value) is Ok);
}

} // verus!
