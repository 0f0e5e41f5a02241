use aptos_node_services::node::{
    CertifiedNode, CertifiedNodeAck, CertifiedNodeRequest, ContextError, Node, NodeCertificate,
    NodeMetaData, SignedNodeDigest, SignedNodeDigestError, SignedNodeDigestInfo,
};
use aptos_node_services::primitives::{AggregateSignature, HashValue, Payload, PeerId, Signature};
use std::collections::HashSet;

fn hash(byte: u8) -> HashValue {
    HashValue { bytes: [byte; 32] }
}

fn peer(byte: u8) -> PeerId {
    PeerId { bytes: [byte; 32] }
}

fn signature(byte: u8) -> Signature {
    Signature { bytes: [byte; 96] }
}

fn aggregate() -> AggregateSignature {
    AggregateSignature { validator_bitmask: vec![0b1110_0000], sig: Some(signature(9)) }
}

/// A toy scheme: the signature of a digest repeats its first byte.
fn toy_verify(author: PeerId, info: &SignedNodeDigestInfo, given: &Signature) -> Result<(), String> {
    if author != peer(1) {
        Err("unknown author".to_string())
    } else if given.bytes[0] != info.digest().bytes[0] {
        Err("invalid signature".to_string())
    } else {
        Ok(())
    }
}

#[test]
fn signed_digest_holds_what_was_signed() {
    let signed =
        SignedNodeDigest::new(hash(5), peer(1), |info: &SignedNodeDigestInfo| -> Result<Signature, String> {
            assert_eq!(info.digest(), hash(5));
            Ok(signature(info.digest().bytes[0]))
        })
        .unwrap();
    assert_eq!(signed.digest(), hash(5));
    assert_eq!(*signed.info(), SignedNodeDigestInfo::new(hash(5)));
    assert_eq!(signed.peer_id(), peer(1));
    assert_eq!(signed.verify(toy_verify), Ok(()));
    assert_eq!(signed.signature(), signature(5));
}

#[test]
fn failure_to_sign_is_passed_on() {
    let failed = SignedNodeDigest::new(hash(5), peer(1), |_: &SignedNodeDigestInfo| {
        Err::<Signature, String>("no key".to_string())
    });
    assert_eq!(failed.err(), Some("no key".to_string()));
}

#[test]
fn verification_depends_on_author_and_signature() {
    let by_stranger =
        SignedNodeDigest::new(hash(5), peer(2), |_: &SignedNodeDigestInfo| Ok::<_, String>(signature(5)))
            .unwrap();
    assert_eq!(by_stranger.verify(toy_verify), Err("unknown author".to_string()));
    let forged =
        SignedNodeDigest::new(hash(5), peer(1), |_: &SignedNodeDigestInfo| Ok::<_, String>(signature(6)))
            .unwrap();
    assert_eq!(forged.verify(toy_verify), Err("invalid signature".to_string()));
}

#[test]
fn certificate_is_verified_with_a_context() {
    let certificate = NodeCertificate::new(SignedNodeDigestInfo::new(hash(3)), aggregate());
    assert_eq!(*certificate.digest(), hash(3));
    let accept = |info: &SignedNodeDigestInfo, signatures: &AggregateSignature| {
        assert_eq!(info.digest(), hash(3));
        assert_eq!(*signatures, aggregate());
        Ok::<(), u8>(())
    };
    assert_eq!(certificate.verify(accept), Ok(()));
    let reject = |_: &SignedNodeDigestInfo, _: &AggregateSignature| Err::<(), u8>(17);
    assert_eq!(
        certificate.verify(reject),
        Err(ContextError { context: "Failed to verify ProofOfStore", cause: 17 })
    );
    let (info, signatures) = certificate.into_parts();
    assert_eq!(info, SignedNodeDigestInfo::new(hash(3)));
    assert_eq!(signatures, aggregate());
}

#[test]
fn metadata_tells_epochs_apart() {
    let metadata = NodeMetaData::new(7, 8, peer(1), hash(2));
    assert_eq!(metadata.epoch(), 7);
    assert_eq!(metadata.round(), 8);
    assert_eq!(metadata.source(), peer(1));
    assert_eq!(metadata.digest(), hash(2));
    assert_eq!(metadata, NodeMetaData::new(7, 8, peer(1), hash(2)));
    assert_ne!(metadata, NodeMetaData::new(6, 8, peer(1), hash(2)));
}

#[test]
fn certified_node_speaks_for_its_node() {
    let parent = NodeMetaData::new(7, 7, peer(3), hash(9));
    let mut parents = HashSet::new();
    parents.insert(parent.clone());
    parents.insert(parent.clone());
    let metadata = NodeMetaData::new(7, 8, peer(1), hash(2));
    let node = Node::from_parts(metadata.clone(), Payload { bytes: vec![1, 2, 3] }, parents);
    assert_eq!(node.digest(), hash(2));
    assert_eq!(node.epoch(), 7);
    assert_eq!(node.round(), 8);
    assert_eq!(node.source(), peer(1));
    assert_eq!(*node.metadata(), metadata);
    assert_eq!(node.parents().len(), 1);
    assert!(node.parents().contains(&parent));

    let certificate = NodeCertificate::new(SignedNodeDigestInfo::new(hash(2)), aggregate());
    let certified = CertifiedNode::new(node, certificate);
    assert_eq!(certified.digest(), hash(2));
    assert_eq!(certified.epoch(), 7);
    assert_eq!(certified.round(), 8);
    assert_eq!(certified.source(), peer(1));
    assert_eq!(*certified.metadata(), metadata);
    assert_eq!(*certified.node().metadata(), metadata);
    assert!(certified.parents().contains(&parent));

    let copy = certified.clone();
    assert_eq!(*copy.metadata(), metadata);
    assert_eq!(copy.parents().len(), 1);
    assert!(copy.parents().contains(&parent));
    let (node_copy, certificate_copy) = copy.into_parts();
    assert_eq!(node_copy.into_parts().1.bytes, vec![1, 2, 3]);
    let (info_copy, signature_copy) = certificate_copy.into_parts();
    assert_eq!(info_copy, SignedNodeDigestInfo::new(hash(2)));
    assert_eq!(signature_copy, aggregate());

    let (node, certificate) = certified.into_parts();
    assert_eq!(*certificate.digest(), hash(2));
    let (metadata_part, payload, parents) = node.into_parts();
    assert_eq!(metadata_part, metadata);
    assert_eq!(payload, Payload { bytes: vec![1, 2, 3] });
    assert_eq!(parents.len(), 1);
}

#[test]
fn ack_and_request_hold_their_parts() {
    let ack = CertifiedNodeAck::new(hash(4), peer(5));
    assert_eq!(ack.digest(), hash(4));
    assert_eq!(ack.peer_id(), peer(5));
    let request = CertifiedNodeRequest::new(NodeMetaData::new(1, 2, peer(3), hash(4)), peer(6));
    assert_eq!(request.digest(), hash(4));
    assert_eq!(request.requester(), peer(6));
    assert_eq!(request.source(), peer(3));
    assert_eq!(request.round(), 2);
}

#[test]
fn digest_errors_are_distinct() {
    assert_ne!(SignedNodeDigestError::WrongDigest, SignedNodeDigestError::DuplicatedSignature);
}

#[test]
fn peer_ids_are_compared_by_all_bytes() {
    let mut other = peer(1);
    assert!(other == peer(1));
    other.bytes[31] = 2;
    assert!(other != peer(1));
    other = peer(1);
    other.bytes[0] = 2;
    assert!(other != peer(1));
}
