use std::str::FromStr;

use ibc::amount::{Amount, TokenTransferError};
use ibc::commitment::{CommitmentError, CommitmentPrefix, CommitmentProofBytes, CommitmentRoot};
use ibc::error::ClientError;
use ibc::height::Height;
use ibc::identifier::{
    validate_channel_identifier, validate_client_identifier, validate_connection_identifier,
    validate_identifier_chars, validate_identifier_length, validate_port_identifier,
    IdentifierError,
};
use ibc::timestamp::{Duration, Timestamp};

#[test]
fn height_of_zero_within_a_revision_is_rejected() {
    assert!(matches!(Height::new(3, 0), Err(ClientError::InvalidHeight)));
    let h = Height::new(3, 7).unwrap();
    assert_eq!(h.revision_number(), 3);
    assert_eq!(h.revision_height(), 7);
    assert_eq!(Height::min(3), Height::new(3, 1).unwrap());
}

#[test]
fn heights_are_ordered_by_revision_and_then_by_height() {
    let h = |r, n| Height::new(r, n).unwrap();
    // within one revision the height decides
    assert!(h(1, 5) < h(1, 6));
    assert!(!(h(1, 6) < h(1, 5)));
    assert!(!(h(1, 5) < h(1, 5)));
    assert!(h(1, 5).lt(&h(1, 6)) && !h(1, 6).lt(&h(1, 5)));
    // across revisions the revision decides, whatever the heights
    assert!(h(1, 100) < h(2, 1));
    assert!(h(2, 1) > h(1, 100));
    assert!(h(1, 100).lt(&h(2, 1)) && !h(2, 1).lt(&h(1, 100)));
    assert!(h(2, 1).ge(&h(1, 100)) && h(1, 5).ge(&h(1, 5)) && !h(1, 5).ge(&h(1, 6)));
    assert!(h(1, 5) <= h(1, 5) && h(1, 5) >= h(1, 5));
    assert_eq!(h(1, 5).partial_cmp(&h(1, 5)), Some(std::cmp::Ordering::Equal));
}

#[test]
fn height_arithmetic_stays_within_the_revision() {
    let h = Height::new(2, 10).unwrap();
    assert_eq!(h.add(5), Some(Height::new(2, 15).unwrap()));
    assert_eq!(h.increment(), Some(Height::new(2, 11).unwrap()));
    assert_eq!(Height::new(2, u64::MAX).unwrap().increment(), None);
    assert_eq!(Height::new(2, u64::MAX - 1).unwrap().add(2), None);
    assert_eq!(h.sub(3).unwrap(), Height::new(2, 7).unwrap());
    assert_eq!(h.decrement().unwrap(), Height::new(2, 9).unwrap());
    assert!(matches!(h.sub(10), Err(ClientError::InvalidHeightResult)));
    assert!(matches!(h.sub(11), Err(ClientError::InvalidHeightResult)));
    assert!(matches!(Height::min(0).decrement(), Err(ClientError::InvalidHeightResult)));
}

#[test]
fn durations_are_compared_by_their_length() {
    assert_eq!(Duration::from_secs(3), Duration { secs: 3, nanos: 0 });
    assert_eq!(Duration::from_nanos(3_500_000_001), Duration { secs: 3, nanos: 500_000_001 });
    assert_eq!(Duration::from_nanos(u64::MAX), Duration { secs: 18_446_744_073, nanos: 709_551_615 });
    assert_eq!(Duration::from_nanos(3_500_000_001).as_nanos(), 3_500_000_001);
    assert!(Duration::from_secs(3).ge(&Duration::from_nanos(3_000_000_000)));
    assert!(Duration::from_secs(3).ge(&Duration::from_nanos(2_999_999_999)));
    assert!(!Duration::from_nanos(2_999_999_999).ge(&Duration::from_secs(3)));
    // a span whose nanoseconds run over a second is as long as its nanoseconds say
    let unnormalized = Duration { secs: 1, nanos: 2_000_000_000 };
    assert!(!unnormalized.is_wf());
    assert!(unnormalized.ge(&Duration::from_secs(3)));
    assert!(Duration::from_secs(3).ge(&unnormalized));
}

#[test]
fn duration_since_needs_two_timestamps_in_order() {
    let t = Timestamp::from_nanoseconds;
    assert_eq!(t(10_000_000_005).duration_since(&t(5)), Some(Duration { secs: 10, nanos: 0 }));
    assert_eq!(t(7).duration_since(&t(7)), Some(Duration { secs: 0, nanos: 0 }));
    assert_eq!(t(5).duration_since(&t(7)), None);
    assert_eq!(Timestamp::none().duration_since(&t(7)), None);
    assert_eq!(t(7).duration_since(&Timestamp::none()), None);
    assert_eq!(Timestamp::none().nanoseconds(), 0);
}

#[test]
fn commitment_root_holds_any_bytes() {
    let root = CommitmentRoot::from_bytes(&[1, 2, 3]);
    assert_eq!(root.as_bytes(), &[1, 2, 3]);
    assert!(!root.is_empty());
    assert_eq!(root.clone().into_vec(), vec![1, 2, 3]);
    assert!(CommitmentRoot::from_bytes(&[]).is_empty());
    assert_eq!(CommitmentRoot::from(vec![9, 8]), CommitmentRoot::from_bytes(&[9, 8]));
}

#[test]
fn roots_and_proofs_are_shown_in_upper_case_hexadecimal() {
    assert_eq!(CommitmentRoot::from_bytes(&[]).to_hex(), "");
    assert_eq!(CommitmentRoot::from_bytes(&[0x00, 0x0f, 0xa0, 0xff, 0x9b]).to_hex(), "000FA0FF9B");
    assert_eq!(CommitmentProofBytes::try_from_vec(vec![0xde, 0xad]).unwrap().to_hex(), "DEAD");
}

#[test]
fn commitment_prefix_and_proof_are_never_empty() {
    assert_eq!(
        CommitmentPrefix::try_from_vec(vec![]),
        Err(CommitmentError::EmptyCommitmentPrefix)
    );
    let prefix = CommitmentPrefix::try_from_vec(b"ibc".to_vec()).unwrap();
    assert_eq!(prefix.as_bytes(), b"ibc");
    assert_eq!(prefix.clone().into_vec(), b"ibc".to_vec());

    assert_eq!(CommitmentProofBytes::try_from_vec(vec![]), Err(CommitmentError::EmptyMerkleProof));
    let proof = CommitmentProofBytes::try_from_vec(vec![0]).unwrap();
    assert_eq!(proof.as_bytes(), &[0]);
    assert_eq!(proof.clone().into_vec(), vec![0]);
}

#[test]
fn identifiers_are_checked_for_characters_and_then_for_length() {
    assert_eq!(validate_identifier_chars(""), Err(IdentifierError::Empty));
    assert_eq!(validate_identifier_chars("id/1"), Err(IdentifierError::ContainSeparator));
    assert_eq!(validate_identifier_chars("id\\1"), Err(IdentifierError::InvalidCharacter));
    assert_eq!(validate_identifier_chars("connection*"), Err(IdentifierError::InvalidCharacter));
    assert_eq!(validate_identifier_chars("con nection"), Err(IdentifierError::InvalidCharacter));
    assert_eq!(validate_identifier_chars("a*/b"), Err(IdentifierError::ContainSeparator));
    assert_eq!(validate_identifier_chars("aZ9._+-#[]<>"), Ok(()));
    assert_eq!(validate_identifier_chars("é"), Ok(()));

    assert_eq!(validate_identifier_length("abc", 3, 3), Ok(()));
    assert_eq!(
        validate_identifier_length("abcd", 5, 9),
        Err(IdentifierError::InvalidLength { length: 4, min: 5, max: 9 })
    );
    // the length is counted in bytes
    assert_eq!(
        validate_identifier_length("éé", 1, 3),
        Err(IdentifierError::InvalidLength { length: 4, min: 1, max: 3 })
    );

    assert_eq!(validate_client_identifier("07-tendermint-0"), Ok(()));
    assert_eq!(
        validate_client_identifier("client"),
        Err(IdentifierError::InvalidLength { length: 6, min: 9, max: 64 })
    );
    assert_eq!(validate_connection_identifier("connection-0"), Ok(()));
    assert_eq!(
        validate_connection_identifier("conn-0"),
        Err(IdentifierError::InvalidLength { length: 6, min: 10, max: 64 })
    );
    assert_eq!(validate_port_identifier("transfer"), Ok(()));
    assert_eq!(
        validate_port_identifier("p"),
        Err(IdentifierError::InvalidLength { length: 1, min: 2, max: 128 })
    );
    assert_eq!(validate_channel_identifier("channel-0"), Ok(()));
    assert_eq!(
        validate_channel_identifier("chan-0"),
        Err(IdentifierError::InvalidLength { length: 6, min: 8, max: 64 })
    );
    assert_eq!(validate_channel_identifier("channel/0"), Err(IdentifierError::ContainSeparator));
}

#[test]
fn amounts_add_and_subtract_within_256_bits() {
    let one = Amount::from_u64(1);
    let max = Amount::from_limbs([u64::MAX; 4]);
    assert_eq!(max.checked_add(one), None);
    assert_eq!(one.checked_add(max), None);
    assert_eq!(max.checked_sub(max), Some(Amount::from_u64(0)));
    assert_eq!(Amount::from_u64(0).checked_sub(one), None);
    // a carry runs from one limb into the next
    assert_eq!(
        Amount::from_u64(u64::MAX).checked_add(one),
        Some(Amount::from_limbs([0, 1, 0, 0]))
    );
    assert_eq!(
        Amount::from_limbs([0, 1, 0, 0]).checked_sub(one),
        Some(Amount::from_u64(u64::MAX))
    );
    assert_eq!(
        Amount::from_u64(40).checked_add(Amount::from_u64(2)),
        Some(Amount::from_u64(42))
    );
    assert_eq!(
        Amount::from_u64(40).checked_sub(Amount::from_u64(2)),
        Some(Amount::from_u64(38))
    );
}

#[test]
fn amounts_are_read_from_decimal_digits() {
    assert_eq!(Amount::from_str("42"), Ok(Amount::from_u64(42)));
    assert_eq!(Amount::parse("0042"), Ok(Amount::from_u64(42)));
    assert_eq!(Amount::parse(""), Ok(Amount::from_u64(0)));
    assert_eq!(Amount::parse("18446744073709551616"), Ok(Amount::from_limbs([0, 1, 0, 0])));
    assert_eq!(
        Amount::parse(
            "115792089237316195423570985008687907853269984665640564039457584007913129639935"
        ),
        Ok(Amount::from_limbs([u64::MAX; 4]))
    );
    assert_eq!(
        Amount::parse(
            "115792089237316195423570985008687907853269984665640564039457584007913129639936"
        ),
        Err(TokenTransferError::InvalidAmount)
    );
    assert_eq!(Amount::parse("4 2"), Err(TokenTransferError::InvalidAmount));
    assert_eq!(Amount::parse("-1"), Err(TokenTransferError::InvalidAmount));
    assert_eq!(Amount::parse("0x10"), Err(TokenTransferError::InvalidAmount));
}
