//! Commitment roots, prefixes and proofs as byte strings.

use vstd::prelude::*;
use vstd::std_specs::convert::FromSpecImpl;

use crate::bytes::bytes_copy;

verus! {

/// Why a commitment value was refused or a proof did not verify.
#[derive(Clone, Copy, Debug, PartialEq, Eq, Structural)]
pub enum CommitmentError {
    /// The commitment prefix is empty.
    EmptyCommitmentPrefix,
    /// The proof is empty.
    EmptyMerkleProof,
    /// The root is empty.
    EmptyMerkleRoot,
    /// The value to verify is empty.
    EmptyVerifiedValue,
    /// The proof has another number of layers than there are proof specs.
    NumberOfSpecsMismatch,
    /// The proof has another number of layers than the path has keys.
    NumberOfKeysMismatch,
    /// A layer of the proof is of the wrong kind or yields no root.
    InvalidMerkleProof,
    /// The proof does not lead from the value to the root.
    VerificationFailure,
    /// The bytes are no encoding of a Merkle proof.
    InvalidRawMerkleProof,
}

/// The hexadecimal digit of a number below sixteen, in upper case.
pub open spec fn upper_hex_digit(n: int) -> char {
    if n == 0 {
        '0'
    } else if n == 1 {
        '1'
    } else if n == 2 {
        '2'
    } else if n == 3 {
        '3'
    } else if n == 4 {
        '4'
    } else if n == 5 {
        '5'
    } else if n == 6 {
        '6'
    } else if n == 7 {
        '7'
    } else if n == 8 {
        '8'
    } else if n == 9 {
        '9'
    } else if n == 10 {
        'A'
    } else if n == 11 {
        'B'
    } else if n == 12 {
        'C'
    } else if n == 13 {
        'D'
    } else if n == 14 {
        'E'
    } else {
        'F'
    }
}

/// Bytes in hexadecimal: two digits in upper case for each byte, the high
/// half first.
pub open spec fn upper_hex(bytes: Seq<u8>) -> Seq<char>
    decreases bytes.len(),
{
    if bytes.len() == 0 {
        Seq::empty()
    } else {
        upper_hex(bytes.drop_last()).push(upper_hex_digit(bytes.last() as int / 16)).push(
            upper_hex_digit(bytes.last() as int % 16),
        )
    }
}

/// Calls `subtle_encoding::Encoding::encode_to_string` on the upper-case
/// `subtle_encoding::Hex`. The call fails on an encoding that is no text,
/// which hexadecimal digits never are.
#[verifier::external_body]
fn hex_upper_case(bytes: &[u8]) -> (r: String)
    ensures
        r@ == upper_hex(bytes@),
{
    subtle_encoding::Encoding::encode_to_string(&subtle_encoding::Hex::upper_case(), bytes)
        .unwrap_or_default()
}

/// A commitment root, most often the root hash of a Merkle tree.
#[derive(Debug, PartialEq, Eq)]
pub struct CommitmentRoot {
    bytes: Vec<u8>,
}

impl Clone for CommitmentRoot {
    fn clone(&self) -> (r: CommitmentRoot)
        ensures
            r@ == self@,
    {
        CommitmentRoot { bytes: bytes_copy(self.bytes.as_slice()) }
    }
}

impl View for CommitmentRoot {
    type V = Seq<u8>;

    closed spec fn view(&self) -> Seq<u8> {
        self.bytes@
    }
}

impl CommitmentRoot {
    pub fn from_bytes(bytes: &[u8]) -> (r: CommitmentRoot)
        ensures
            r@ == bytes@,
    {
        CommitmentRoot { bytes: bytes_copy(bytes) }
    }

    pub fn as_bytes(&self) -> (r: &[u8])
        ensures
            r@ == self@,
    {
        self.bytes.as_slice()
    }

    pub fn into_vec(self) -> (r: Vec<u8>)
        ensures
            r@ == self@,
    {
        self.bytes
    }

    pub fn is_empty(&self) -> (r: bool)
        ensures
            r == (self@.len() == 0),
    {
        self.bytes.len() == 0
    }

    /// The root in hexadecimal digits, in upper case.
    pub fn to_hex(&self) -> (r: String)
        ensures
            r@ == upper_hex(self@),
    {
        hex_upper_case(self.bytes.as_slice())
    }
}

impl From<Vec<u8>> for CommitmentRoot {
    fn from(bytes: Vec<u8>) -> (r: CommitmentRoot)
        ensures
            r@ == bytes@,
    {
        CommitmentRoot { bytes }
    }
}

impl FromSpecImpl<Vec<u8>> for CommitmentRoot {
    open spec fn obeys_from_spec() -> bool {
        true
    }

    closed spec fn from_spec(bytes: Vec<u8>) -> CommitmentRoot {
        CommitmentRoot { bytes }
    }
}

/// A serialized proof of membership or of absence. It is never empty.
#[derive(Debug, PartialEq, Eq)]
pub struct CommitmentProofBytes {
    bytes: Vec<u8>,
}

impl Clone for CommitmentProofBytes {
    fn clone(&self) -> (r: CommitmentProofBytes)
        ensures
            r@ == self@,
    {
        proof {
            use_type_invariant(self);
        }
        CommitmentProofBytes { bytes: bytes_copy(self.bytes.as_slice()) }
    }
}

impl View for CommitmentProofBytes {
    type V = Seq<u8>;

    closed spec fn view(&self) -> Seq<u8> {
        self.bytes@
    }
}

impl CommitmentProofBytes {
    #[verifier::type_invariant]
    spec fn inv(&self) -> bool {
        self.bytes@.len() > 0
    }

    /// Accepts every byte string but the empty one.
    pub fn try_from_vec(bytes: Vec<u8>) -> (r: Result<CommitmentProofBytes, CommitmentError>)
        ensures
            bytes@.len() == 0 ==> r == Err::<CommitmentProofBytes, CommitmentError>(
                CommitmentError::EmptyMerkleProof,
            ),
            bytes@.len() > 0 ==> r is Ok && r->Ok_0@ == bytes@,
    {
        if bytes.len() == 0 {
            Err(CommitmentError::EmptyMerkleProof)
        } else {
            Ok(CommitmentProofBytes { bytes })
        }
    }

    pub fn as_bytes(&self) -> (r: &[u8])
        ensures
            r@ == self@,
            r@.len() > 0,
    {
        proof {
            use_type_invariant(self);
        }
        self.bytes.as_slice()
    }

    pub fn into_vec(self) -> (r: Vec<u8>)
        ensures
            r@ == self@,
            r@.len() > 0,
    {
        proof {
            use_type_invariant(&self);
        }
        self.bytes
    }

    /// The proof in hexadecimal digits, in upper case.
    pub fn to_hex(&self) -> (r: String)
        ensures
            r@ == upper_hex(self@),
    {
        hex_upper_case(self.bytes.as_slice())
    }
}

/// The store prefix under which a chain keeps what it commits to. It is
/// never empty.
#[derive(Debug, PartialEq, Eq, Hash)]
pub struct CommitmentPrefix {
    bytes: Vec<u8>,
}

impl Clone for CommitmentPrefix {
    fn clone(&self) -> (r: CommitmentPrefix)
        ensures
            r@ == self@,
    {
        proof {
            use_type_invariant(self);
        }
        CommitmentPrefix { bytes: bytes_copy(self.bytes.as_slice()) }
    }
}

impl View for CommitmentPrefix {
    type V = Seq<u8>;

    closed spec fn view(&self) -> Seq<u8> {
        self.bytes@
    }
}

impl CommitmentPrefix {
    #[verifier::type_invariant]
    spec fn inv(&self) -> bool {
        self.bytes@.len() > 0
    }

    /// Accepts every byte string but the empty one.
    pub fn try_from_vec(bytes: Vec<u8>) -> (r: Result<CommitmentPrefix, CommitmentError>)
        ensures
            bytes@.len() == 0 ==> r == Err::<CommitmentPrefix, CommitmentError>(
                CommitmentError::EmptyCommitmentPrefix,
            ),
            bytes@.len() > 0 ==> r is Ok && r->Ok_0@ == bytes@,
    {
        if bytes.len() == 0 {
            Err(CommitmentError::EmptyCommitmentPrefix)
        } else {
            Ok(CommitmentPrefix { bytes })
        }
    }

    pub fn as_bytes(&self) -> (r: &[u8])
        ensures
            r@ == self@,
            r@.len() > 0,
    {
        proof {
            use_type_invariant(self);
        }
        self.bytes.as_slice()
    }

    pub fn into_vec(self) -> (r: Vec<u8>)
        ensures
            r@ == self@,
            r@.len() > 0,
    {
        proof {
            use_type_invariant(&self);
        }
        self.bytes
    }
}

} // verus!
