//! What the types of the consensus graph give back of what they were made of.

use crate::node::{
    CertifiedNode, CertifiedNodeAck, CertifiedNodeRequest, ContextError, Node, NodeCertificate,
    NodeMetaData, SignedNodeDigest, SignedNodeDigestInfo,
};
use crate::primitives::{AggregateSignature, HashValue, Payload, PeerId, Round, Signature};
use std::collections::HashSet;
use vstd::prelude::*;

verus! {

/// Metadata gives back the epoch, the round, the source and the digest that it was made of.
pub proof fn metadata_gives_back_its_parts(
    epoch: u64,
    round: u64,
    source: PeerId,
    digest: HashValue,
    metadata: NodeMetaData,
    its_epoch: u64,
    its_round: u64,
    its_source: PeerId,
    its_digest: HashValue,
)
    requires
        call_ensures(NodeMetaData::new, (epoch, round, source, digest), metadata),
        call_ensures(NodeMetaData::epoch, (&metadata,), its_epoch),
        call_ensures(NodeMetaData::round, (&metadata,), its_round),
        call_ensures(NodeMetaData::source, (&metadata,), its_source),
        call_ensures(NodeMetaData::digest, (&metadata,), its_digest),
    ensures
        its_epoch == epoch,
        its_round == round,
        its_source == source,
        its_digest == digest,
{
}

/// What is signed for a node gives back the digest that it was made of.
pub proof fn signed_info_gives_back_its_digest(
    digest: HashValue,
    info: SignedNodeDigestInfo,
    its_digest: HashValue,
)
    requires
        call_ensures(SignedNodeDigestInfo::new, (digest,), info),
        call_ensures(SignedNodeDigestInfo::digest, (&info,), its_digest),
    ensures
        its_digest == digest,
{
}

/// A signed digest gives back the digest and the signer that it was made for, and a signature that
/// the signing function made of just what is signed for that digest.
pub proof fn signed_digest_gives_back_what_was_signed<
    E,
    F: FnOnce(&SignedNodeDigestInfo) -> Result<Signature, E>,
>(
    digest: HashValue,
    author: PeerId,
    sign: F,
    signed: SignedNodeDigest,
    its_digest: HashValue,
    its_info: &SignedNodeDigestInfo,
    info_digest: HashValue,
    its_signer: PeerId,
    its_signature: Signature,
)
    requires
        call_ensures(
            SignedNodeDigest::new::<E, F>,
            (digest, author, sign),
            Ok::<SignedNodeDigest, E>(signed),
        ),
        call_ensures(SignedNodeDigest::digest, (&signed,), its_digest),
        call_ensures(SignedNodeDigest::info, (&signed,), its_info),
        call_ensures(SignedNodeDigestInfo::digest, (its_info,), info_digest),
        call_ensures(SignedNodeDigest::peer_id, (&signed,), its_signer),
        call_ensures(SignedNodeDigest::signature, (signed,), its_signature),
    ensures
        its_digest == digest,
        info_digest == digest,
        its_signer == author,
        call_ensures(sign, (its_info,), Ok::<Signature, E>(its_signature)),
{
}

/// A digest that cannot be signed gives the error of the signing function.
pub proof fn failure_to_sign_is_passed_on<
    E,
    F: FnOnce(&SignedNodeDigestInfo) -> Result<Signature, E>,
>(
    digest: HashValue,
    author: PeerId,
    sign: F,
    info: SignedNodeDigestInfo,
    error: E,
)
    requires
        call_ensures(SignedNodeDigestInfo::new, (digest,), info),
        call_ensures(
            SignedNodeDigest::new::<E, F>,
            (digest, author, sign),
            Err::<SignedNodeDigest, E>(error),
        ),
    ensures
        call_ensures(sign, (&info,), Err::<Signature, E>(error)),
{
}

/// The outcome of a verification is what the verifying function makes of the signer, of what was
/// signed and of the signature that the signed digest itself gives back.
pub proof fn verification_is_of_what_was_signed<
    E,
    F: FnOnce(PeerId, &SignedNodeDigestInfo, &Signature) -> Result<(), E>,
>(
    signed: SignedNodeDigest,
    verifier: F,
    outcome: Result<(), E>,
    its_info: &SignedNodeDigestInfo,
    its_signer: PeerId,
    its_signature: Signature,
)
    requires
        call_ensures(SignedNodeDigest::verify::<E, F>, (&signed, verifier), outcome),
        call_ensures(SignedNodeDigest::info, (&signed,), its_info),
        call_ensures(SignedNodeDigest::peer_id, (&signed,), its_signer),
        call_ensures(SignedNodeDigest::signature, (signed,), its_signature),
    ensures
        call_ensures(verifier, (its_signer, its_info, &its_signature), outcome),
{
}

/// A certificate gives back what it was made of; and its verification is what the verifying
/// function makes of just that, with an error that says what was being done.
pub proof fn certificate_gives_back_and_verifies_its_parts<
    E,
    F: FnOnce(&SignedNodeDigestInfo, &AggregateSignature) -> Result<(), E>,
>(
    info: SignedNodeDigestInfo,
    signatures: AggregateSignature,
    info_digest: HashValue,
    certificate: NodeCertificate,
    its_digest: &HashValue,
    its_info: SignedNodeDigestInfo,
    its_signatures: AggregateSignature,
    verifier: F,
    outcome: Result<(), ContextError<E>>,
)
    requires
        call_ensures(SignedNodeDigestInfo::digest, (&info,), info_digest),
        call_ensures(NodeCertificate::new, (info, signatures), certificate),
        call_ensures(NodeCertificate::digest, (&certificate,), its_digest),
        call_ensures(NodeCertificate::into_parts, (certificate,), (its_info, its_signatures)),
        call_ensures(NodeCertificate::verify::<E, F>, (&certificate, verifier), outcome),
    ensures
        *its_digest == info_digest,
        its_info == info,
        its_signatures == signatures,
        match outcome {
            Ok(done) => call_ensures(verifier, (&info, &signatures), Ok::<(), E>(done)),
            Err(error) => {
                &&& call_ensures(verifier, (&info, &signatures), Err::<(), E>(error.cause))
                &&& error.context@ == "Failed to verify ProofOfStore"@
            },
        },
{
}

/// A node gives back the metadata, the payload and the parents that it was put together from, and
/// speaks for its metadata.
pub proof fn node_gives_back_its_parts(
    metadata: NodeMetaData,
    payload: Payload,
    parents: HashSet<NodeMetaData>,
    epoch: u64,
    round: u64,
    source: PeerId,
    digest: HashValue,
    node: Node,
    its_metadata: &NodeMetaData,
    its_parents: &HashSet<NodeMetaData>,
    its_epoch: u64,
    its_round: u64,
    its_source: PeerId,
    its_digest: HashValue,
    metadata_part: NodeMetaData,
    payload_part: Payload,
    parents_part: HashSet<NodeMetaData>,
)
    requires
        call_ensures(NodeMetaData::new, (epoch, round, source, digest), metadata),
        call_ensures(Node::from_parts, (metadata, payload, parents), node),
        call_ensures(Node::metadata, (&node,), its_metadata),
        call_ensures(Node::parents, (&node,), its_parents),
        call_ensures(Node::epoch, (&node,), its_epoch),
        call_ensures(Node::round, (&node,), its_round),
        call_ensures(Node::source, (&node,), its_source),
        call_ensures(Node::digest, (&node,), its_digest),
        call_ensures(Node::into_parts, (node,), (metadata_part, payload_part, parents_part)),
    ensures
        *its_metadata == metadata,
        its_parents@ == parents@,
        its_epoch == epoch,
        its_round == round,
        its_source == source,
        its_digest == digest,
        metadata_part == metadata,
        payload_part == payload,
        parents_part@ == parents@,
{
}

/// A certified node speaks for its node: what it gives back is what the node gives back.
pub proof fn certified_node_speaks_for_its_node(
    header: Node,
    certificate: NodeCertificate,
    certified: CertifiedNode,
    node: &Node,
    epoch: u64,
    round: u64,
    source: PeerId,
    digest: HashValue,
    metadata: &NodeMetaData,
    parents: &HashSet<NodeMetaData>,
    its_epoch: u64,
    its_round: u64,
    its_source: PeerId,
    its_digest: HashValue,
    its_metadata: &NodeMetaData,
    its_parents: &HashSet<NodeMetaData>,
    header_part: Node,
    certificate_part: NodeCertificate,
)
    requires
        call_ensures(Node::epoch, (&header,), epoch),
        call_ensures(Node::round, (&header,), round),
        call_ensures(Node::source, (&header,), source),
        call_ensures(Node::digest, (&header,), digest),
        call_ensures(Node::metadata, (&header,), metadata),
        call_ensures(Node::parents, (&header,), parents),
        call_ensures(CertifiedNode::new, (header, certificate), certified),
        call_ensures(CertifiedNode::node, (&certified,), node),
        call_ensures(CertifiedNode::epoch, (&certified,), its_epoch),
        call_ensures(CertifiedNode::round, (&certified,), its_round),
        call_ensures(CertifiedNode::source, (&certified,), its_source),
        call_ensures(CertifiedNode::digest, (&certified,), its_digest),
        call_ensures(CertifiedNode::metadata, (&certified,), its_metadata),
        call_ensures(CertifiedNode::parents, (&certified,), its_parents),
        call_ensures(CertifiedNode::into_parts, (certified,), (header_part, certificate_part)),
    ensures
        *node == header,
        its_epoch == epoch,
        its_round == round,
        its_source == source,
        its_digest == digest,
        *its_metadata == *metadata,
        its_parents@ == parents@,
        header_part == header,
        certificate_part == certificate,
{
}

/// An acknowledgement gives back the digest and the peer that it was made of.
pub proof fn acknowledgement_gives_back_its_parts(
    digest: HashValue,
    peer_id: PeerId,
    ack: CertifiedNodeAck,
    its_digest: HashValue,
    its_peer: PeerId,
)
    requires
        call_ensures(CertifiedNodeAck::new, (digest, peer_id), ack),
        call_ensures(CertifiedNodeAck::digest, (&ack,), its_digest),
        call_ensures(CertifiedNodeAck::peer_id, (&ack,), its_peer),
    ensures
        its_digest == digest,
        its_peer == peer_id,
{
}

/// A request for a node gives back who asks, and the digest, the source and the round of the
/// metadata that it was made of.
pub proof fn request_gives_back_its_parts(
    metadata: NodeMetaData,
    epoch: u64,
    round: u64,
    source: PeerId,
    digest: HashValue,
    requester: PeerId,
    request: CertifiedNodeRequest,
    its_requester: PeerId,
    its_round: Round,
    its_source: PeerId,
    its_digest: HashValue,
)
    requires
        call_ensures(NodeMetaData::new, (epoch, round, source, digest), metadata),
        call_ensures(CertifiedNodeRequest::new, (metadata, requester), request),
        call_ensures(CertifiedNodeRequest::requester, (&request,), its_requester),
        call_ensures(CertifiedNodeRequest::round, (&request,), its_round),
        call_ensures(CertifiedNodeRequest::source, (&request,), its_source),
        call_ensures(CertifiedNodeRequest::digest, (&request,), its_digest),
    ensures
        its_requester == requester,
        its_round == round,
        its_source == source,
        its_digest == digest,
{
}

/// A clone is equal to what it was made of: in its metadata, the bytes of its payload and its
/// parents, and in what its certificate says and is signed with.
pub proof fn clones_are_equal(
    metadata: NodeMetaData,
    metadata_clone: NodeMetaData,
    node: Node,
    node_clone: Node,
    certified: CertifiedNode,
    certified_clone: CertifiedNode,
)
    requires
        call_ensures(NodeMetaData::clone, (&metadata,), metadata_clone),
        call_ensures(Node::clone, (&node,), node_clone),
        call_ensures(CertifiedNode::clone, (&certified,), certified_clone),
    ensures
        metadata_clone == metadata,
        node_clone@.metadata == node@.metadata,
        node_clone@.consensus_payload.bytes@ == node@.consensus_payload.bytes@,
        node_clone@.parents == node@.parents,
        certified_clone@.header@.metadata == certified@.header@.metadata,
        certified_clone@.header@.consensus_payload.bytes@
            == certified@.header@.consensus_payload.bytes@,
        certified_clone@.header@.parents == certified@.header@.parents,
        certified_clone@.certificate@.info == certified@.certificate@.info,
        certified_clone@.certificate@.multi_signature.validator_bitmask@
            == certified@.certificate@.multi_signature.validator_bitmask@,
        certified_clone@.certificate@.multi_signature.sig
            == certified@.certificate@.multi_signature.sig,
{
}

} // verus!
