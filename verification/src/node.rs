//! The nodes of the consensus graph: their metadata, the signatures and certificates over their
//! digests, and the messages about them.

use crate::primitives::{AggregateSignature, HashValue, Payload, PeerId, Round, Signature};
use std::collections::HashSet;
use vstd::prelude::*;

verus! {

/// Why a signed digest is not taken in.
#[derive(Clone, Copy, Debug, PartialEq, Eq, Structural)]
pub enum SignedNodeDigestError {
    /// It is over another digest.
    WrongDigest,
    /// Its signer has signed already.
    DuplicatedSignature,
}

/// What is signed for a node: its digest.
#[derive(Debug, PartialEq, Eq, Hash)]
pub struct SignedNodeDigestInfo {
    digest: HashValue,
}

impl Clone for SignedNodeDigestInfo {
    fn clone(&self) -> (result: SignedNodeDigestInfo)
        ensures
            result == *self,
    {
        SignedNodeDigestInfo { digest: self.digest }
    }
}

impl View for SignedNodeDigestInfo {
    type V = HashValue;

    closed spec fn view(&self) -> HashValue {
        self.digest
    }
}

impl SignedNodeDigestInfo {
    /// What is signed for a node with `digest`.
    pub closed spec fn of(digest: HashValue) -> SignedNodeDigestInfo {
        SignedNodeDigestInfo { digest }
    }

    /// Makes up what is signed for a node with `digest`.
    pub fn new(digest: HashValue) -> (result: SignedNodeDigestInfo)
        ensures
            result == SignedNodeDigestInfo::of(digest),
            result@ == digest,
    {
        SignedNodeDigestInfo { digest }
    }

    /// Returns the digest.
    pub fn digest(&self) -> (result: HashValue)
        ensures
            result == self@,
    {
        self.digest
    }
}

/// The mathematical content of a [`SignedNodeDigest`].
pub struct SignedNodeDigestModel {
    /// What was signed.
    pub info: SignedNodeDigestInfo,
    /// Who signed.
    pub peer_id: PeerId,
    /// The signature.
    pub signature: Signature,
}

/// The digest of a node with the signature of a validator.
#[derive(Clone, Debug)]
pub struct SignedNodeDigest {
    signed_node_digest_info: SignedNodeDigestInfo,
    peer_id: PeerId,
    signature: Signature,
}

impl View for SignedNodeDigest {
    type V = SignedNodeDigestModel;

    closed spec fn view(&self) -> SignedNodeDigestModel {
        SignedNodeDigestModel {
            info: self.signed_node_digest_info,
            peer_id: self.peer_id,
            signature: self.signature,
        }
    }
}

impl SignedNodeDigest {
    /// Has `sign`, the signing function of the validator `author`, sign `digest`.
    pub fn new<E, F: FnOnce(&SignedNodeDigestInfo) -> Result<Signature, E>>(
        digest: HashValue,
        author: PeerId,
        sign: F,
    ) -> (result: Result<SignedNodeDigest, E>)
        requires
            call_requires(sign, (&SignedNodeDigestInfo::of(digest),)),
        ensures
            match result {
                Ok(signed) => {
                    &&& signed@.info == SignedNodeDigestInfo::of(digest)
                    &&& signed@.info@ == digest
                    &&& signed@.peer_id == author
                    &&& call_ensures(
                        sign,
                        (&SignedNodeDigestInfo::of(digest),),
                        Ok::<Signature, E>(signed@.signature),
                    )
                },
                Err(error) => call_ensures(
                    sign,
                    (&SignedNodeDigestInfo::of(digest),),
                    Err::<Signature, E>(error),
                ),
            },
    {
        let info: SignedNodeDigestInfo = SignedNodeDigestInfo::new(digest);
        match sign(&info) {
            Ok(signature) => Ok(
                SignedNodeDigest {
                    signed_node_digest_info: SignedNodeDigestInfo::new(digest),
                    peer_id: author,
                    signature,
                },
            ),
            Err(error) => Err(error),
        }
    }

    /// Has `verifier`, the verifying function of the validators, verify the signature.
    pub fn verify<E, F: FnOnce(PeerId, &SignedNodeDigestInfo, &Signature) -> Result<(), E>>(
        &self,
        verifier: F,
    ) -> (result: Result<(), E>)
        requires
            call_requires(verifier, (self@.peer_id, &self@.info, &self@.signature)),
        ensures
            call_ensures(verifier, (self@.peer_id, &self@.info, &self@.signature), result),
    {
        verifier(self.peer_id, &self.signed_node_digest_info, &self.signature)
    }

    /// Returns the digest.
    pub fn digest(&self) -> (result: HashValue)
        ensures
            result == self@.info@,
    {
        self.signed_node_digest_info.digest
    }

    /// Returns what was signed.
    pub fn info(&self) -> (result: &SignedNodeDigestInfo)
        ensures
            *result == self@.info,
    {
        &self.signed_node_digest_info
    }

    /// Returns who signed.
    pub fn peer_id(&self) -> (result: PeerId)
        ensures
            result == self@.peer_id,
    {
        self.peer_id
    }

    /// Returns the signature.
    pub fn signature(self) -> (result: Signature)
        ensures
            result == self@.signature,
    {
        self.signature
    }
}

/// An error, with what was being done when it occurred.
#[derive(Clone, Debug, PartialEq, Eq)]
pub struct ContextError<E> {
    /// What was being done.
    pub context: &'static str,
    /// The error.
    pub cause: E,
}

/// The mathematical content of a [`NodeCertificate`].
pub struct NodeCertificateModel {
    /// What was signed.
    pub info: SignedNodeDigestInfo,
    /// The signatures.
    pub multi_signature: AggregateSignature,
}

/// The digest of a node with the signatures of a quorum of validators.
#[derive(Debug)]
pub struct NodeCertificate {
    signed_node_digest_info: SignedNodeDigestInfo,
    multi_signature: AggregateSignature,
}

impl Clone for NodeCertificate {
    fn clone(&self) -> (result: NodeCertificate)
        ensures
            result@.info == self@.info,
            result@.multi_signature.validator_bitmask@
                == self@.multi_signature.validator_bitmask@,
            result@.multi_signature.sig == self@.multi_signature.sig,
    {
        NodeCertificate {
            signed_node_digest_info: self.signed_node_digest_info.clone(),
            multi_signature: self.multi_signature.clone(),
        }
    }
}

impl View for NodeCertificate {
    type V = NodeCertificateModel;

    closed spec fn view(&self) -> NodeCertificateModel {
        NodeCertificateModel {
            info: self.signed_node_digest_info,
            multi_signature: self.multi_signature,
        }
    }
}

impl NodeCertificate {
    /// Makes a certificate.
    pub fn new(
        signed_node_digest_info: SignedNodeDigestInfo,
        multi_signature: AggregateSignature,
    ) -> (result: NodeCertificate)
        ensures
            result@.info == signed_node_digest_info,
            result@.multi_signature == multi_signature,
    {
        NodeCertificate { signed_node_digest_info, multi_signature }
    }

    /// Returns the digest.
    pub fn digest(&self) -> (result: &HashValue)
        ensures
            *result == self@.info@,
    {
        &self.signed_node_digest_info.digest
    }

    /// Takes a certificate apart for a message.
    pub fn into_parts(self) -> (result: (SignedNodeDigestInfo, AggregateSignature))
        ensures
            result.0 == self@.info,
            result.1 == self@.multi_signature,
    {
        (self.signed_node_digest_info, self.multi_signature)
    }

    /// Has `verifier`, the verifying function of the validators, verify the signatures.
    pub fn verify<E, F: FnOnce(&SignedNodeDigestInfo, &AggregateSignature) -> Result<(), E>>(
        &self,
        verifier: F,
    ) -> (result: Result<(), ContextError<E>>)
        requires
            call_requires(verifier, (&self@.info, &self@.multi_signature)),
        ensures
            match result {
                Ok(done) => call_ensures(
                    verifier,
                    (&self@.info, &self@.multi_signature),
                    Ok::<(), E>(done),
                ),
                Err(error) => {
                    &&& call_ensures(
                        verifier,
                        (&self@.info, &self@.multi_signature),
                        Err::<(), E>(error.cause),
                    )
                    &&& error.context@ == "Failed to verify ProofOfStore"@
                },
            },
    {
        match verifier(&self.signed_node_digest_info, &self.multi_signature) {
            Ok(done) => Ok(done),
            Err(cause) => Err(ContextError { context: "Failed to verify ProofOfStore", cause }),
        }
    }
}

/// The mathematical content of a [`NodeMetaData`].
pub struct NodeMetaDataModel {
    /// The epoch.
    pub epoch: u64,
    /// The round.
    pub round: u64,
    /// The validator that made the node.
    pub source: PeerId,
    /// The digest of the node.
    pub digest: HashValue,
}

/// What identifies a node.
#[derive(Debug, PartialEq, Eq, Hash)]
pub struct NodeMetaData {
    // To make sure rounds from previous epochs cannot be reused.
    epoch: u64,
    round: u64,
    source: PeerId,
    digest: HashValue,
}

impl Clone for NodeMetaData {
    fn clone(&self) -> (result: NodeMetaData)
        ensures
            result == *self,
    {
        NodeMetaData {
            epoch: self.epoch,
            round: self.round,
            source: self.source,
            digest: self.digest,
        }
    }
}

impl View for NodeMetaData {
    type V = NodeMetaDataModel;

    closed spec fn view(&self) -> NodeMetaDataModel {
        NodeMetaDataModel {
            epoch: self.epoch,
            round: self.round,
            source: self.source,
            digest: self.digest,
        }
    }
}

impl NodeMetaData {
    /// Makes metadata.
    pub fn new(epoch: u64, round: u64, source: PeerId, digest: HashValue) -> (result: NodeMetaData)
        ensures
            result@ == (NodeMetaDataModel { epoch, round, source, digest }),
    {
        NodeMetaData { epoch, round, source, digest }
    }

    /// Returns the epoch.
    pub fn epoch(&self) -> (result: u64)
        ensures
            result == self@.epoch,
    {
        self.epoch
    }

    /// Returns the round.
    pub fn round(&self) -> (result: u64)
        ensures
            result == self@.round,
    {
        self.round
    }

    /// Returns the validator that made the node.
    pub fn source(&self) -> (result: PeerId)
        ensures
            result == self@.source,
    {
        self.source
    }

    /// Returns the digest of the node.
    pub fn digest(&self) -> (result: HashValue)
        ensures
            result == self@.digest,
    {
        self.digest
    }
}

/// The mathematical content of a [`Node`].
pub struct NodeModel {
    /// The metadata.
    pub metadata: NodeMetaData,
    /// The payload.
    pub consensus_payload: Payload,
    /// The metadata of the parents.
    pub parents: Set<NodeMetaData>,
}

/// A node of the consensus graph.
#[derive(Debug)]
pub struct Node {
    metadata: NodeMetaData,
    consensus_payload: Payload,
    parents: HashSet<NodeMetaData>,
}

impl View for Node {
    type V = NodeModel;

    closed spec fn view(&self) -> NodeModel {
        NodeModel {
            metadata: self.metadata,
            consensus_payload: self.consensus_payload,
            parents: self.parents@,
        }
    }
}

/// Calls `HashSet::clone`, which makes a set with the same elements: it clones each of them, and
/// the clone of a [`NodeMetaData`] is equal to it.
#[verifier::external_body]
fn hash_set_clone(set: &HashSet<NodeMetaData>) -> (result: HashSet<NodeMetaData>)
    ensures
        result@ == set@,
{
    set.clone()
}

impl Clone for Node {
    fn clone(&self) -> (result: Node)
        ensures
            result@.metadata == self@.metadata,
            result@.consensus_payload.bytes@ == self@.consensus_payload.bytes@,
            result@.parents == self@.parents,
    {
        Node {
            metadata: self.metadata.clone(),
            consensus_payload: self.consensus_payload.clone(),
            parents: hash_set_clone(&self.parents),
        }
    }
}

impl Node {
    /// Puts a node together from its parts, as they come out of a message.
    pub fn from_parts(
        metadata: NodeMetaData,
        consensus_payload: Payload,
        parents: HashSet<NodeMetaData>,
    ) -> (result: Node)
        ensures
            result@.metadata == metadata,
            result@.consensus_payload == consensus_payload,
            result@.parents == parents@,
    {
        Node { metadata, consensus_payload, parents }
    }

    /// Takes a node apart for a message.
    pub fn into_parts(self) -> (result: (NodeMetaData, Payload, HashSet<NodeMetaData>))
        ensures
            result.0 == self@.metadata,
            result.1 == self@.consensus_payload,
            result.2@ == self@.parents,
    {
        (self.metadata, self.consensus_payload, self.parents)
    }

    /// Returns the digest.
    pub fn digest(&self) -> (result: HashValue)
        ensures
            result == self@.metadata@.digest,
    {
        self.metadata.digest()
    }

    /// Returns the metadata.
    pub fn metadata(&self) -> (result: &NodeMetaData)
        ensures
            *result == self@.metadata,
    {
        &self.metadata
    }

    /// Returns the epoch.
    pub fn epoch(&self) -> (result: u64)
        ensures
            result == self@.metadata@.epoch,
    {
        self.metadata.epoch()
    }

    /// Returns the round.
    pub fn round(&self) -> (result: u64)
        ensures
            result == self@.metadata@.round,
    {
        self.metadata.round
    }

    /// Returns the validator that made the node.
    pub fn source(&self) -> (result: PeerId)
        ensures
            result == self@.metadata@.source,
    {
        self.metadata.source()
    }

    /// Returns the metadata of the parents.
    pub fn parents(&self) -> (result: &HashSet<NodeMetaData>)
        ensures
            result@ == self@.parents,
    {
        &self.parents
    }
}

/// The mathematical content of a [`CertifiedNode`].
pub struct CertifiedNodeModel {
    /// The node.
    pub header: Node,
    /// Its certificate.
    pub certificate: NodeCertificate,
}

/// A node with its certificate.
#[derive(Debug)]
pub struct CertifiedNode {
    header: Node,
    certificate: NodeCertificate,
}

impl View for CertifiedNode {
    type V = CertifiedNodeModel;

    closed spec fn view(&self) -> CertifiedNodeModel {
        CertifiedNodeModel { header: self.header, certificate: self.certificate }
    }
}

impl Clone for CertifiedNode {
    fn clone(&self) -> (result: CertifiedNode)
        ensures
            result@.header@.metadata == self@.header@.metadata,
            result@.header@.consensus_payload.bytes@ == self@.header@.consensus_payload.bytes@,
            result@.header@.parents == self@.header@.parents,
            result@.certificate@.info == self@.certificate@.info,
            result@.certificate@.multi_signature.validator_bitmask@
                == self@.certificate@.multi_signature.validator_bitmask@,
            result@.certificate@.multi_signature.sig == self@.certificate@.multi_signature.sig,
    {
        CertifiedNode { header: self.header.clone(), certificate: self.certificate.clone() }
    }
}

impl CertifiedNode {
    /// Joins a node and its certificate.
    pub fn new(header: Node, certificate: NodeCertificate) -> (result: CertifiedNode)
        ensures
            result@.header == header,
            result@.certificate == certificate,
    {
        CertifiedNode { header, certificate }
    }

    /// Parts a node and its certificate.
    pub fn into_parts(self) -> (result: (Node, NodeCertificate))
        ensures
            result.0 == self@.header,
            result.1 == self@.certificate,
    {
        (self.header, self.certificate)
    }

    /// Returns the node.
    pub fn node(&self) -> (result: &Node)
        ensures
            *result == self@.header,
    {
        &self.header
    }

    /// Returns the digest of the node.
    pub fn digest(&self) -> (result: HashValue)
        ensures
            result == self@.header@.metadata@.digest,
    {
        self.header.digest()
    }

    /// Returns the epoch of the node.
    pub fn epoch(&self) -> (result: u64)
        ensures
            result == self@.header@.metadata@.epoch,
    {
        self.header.epoch()
    }

    /// Returns the round of the node.
    pub fn round(&self) -> (result: u64)
        ensures
            result == self@.header@.metadata@.round,
    {
        self.header.round()
    }

    /// Returns the validator that made the node.
    pub fn source(&self) -> (result: PeerId)
        ensures
            result == self@.header@.metadata@.source,
    {
        self.header.source()
    }

    /// Returns the metadata of the parents of the node.
    pub fn parents(&self) -> (result: &HashSet<NodeMetaData>)
        ensures
            result@ == self@.header@.parents,
    {
        self.header.parents()
    }

    /// Returns the metadata of the node.
    pub fn metadata(&self) -> (result: &NodeMetaData)
        ensures
            *result == self@.header@.metadata,
    {
        self.header.metadata()
    }
}

/// The mathematical content of a [`CertifiedNodeAck`].
pub struct CertifiedNodeAckModel {
    /// The digest of the node.
    pub digest: HashValue,
    /// Who has it.
    pub peer_id: PeerId,
}

/// The acknowledgement of a certified node.
#[derive(Clone, Debug)]
pub struct CertifiedNodeAck {
    digest: HashValue,
    peer_id: PeerId,
}

impl View for CertifiedNodeAck {
    type V = CertifiedNodeAckModel;

    closed spec fn view(&self) -> CertifiedNodeAckModel {
        CertifiedNodeAckModel { digest: self.digest, peer_id: self.peer_id }
    }
}

impl CertifiedNodeAck {
    /// Acknowledges the node with `digest`.
    pub fn new(digest: HashValue, peer_id: PeerId) -> (result: CertifiedNodeAck)
        ensures
            result@ == (CertifiedNodeAckModel { digest, peer_id }),
    {
        CertifiedNodeAck { digest, peer_id }
    }

    /// Returns the digest of the node.
    pub fn digest(&self) -> (result: HashValue)
        ensures
            result == self@.digest,
    {
        self.digest
    }

    /// Returns who has the node.
    pub fn peer_id(&self) -> (result: PeerId)
        ensures
            result == self@.peer_id,
    {
        self.peer_id
    }
}

/// The mathematical content of a [`CertifiedNodeRequest`].
pub struct CertifiedNodeRequestModel {
    /// The metadata of the node.
    pub metadata: NodeMetaData,
    /// Who asks for it.
    pub requester: PeerId,
}

/// The request for a certified node.
#[derive(Clone, Debug)]
pub struct CertifiedNodeRequest {
    metadata: NodeMetaData,
    requester: PeerId,
}

impl View for CertifiedNodeRequest {
    type V = CertifiedNodeRequestModel;

    closed spec fn view(&self) -> CertifiedNodeRequestModel {
        CertifiedNodeRequestModel { metadata: self.metadata, requester: self.requester }
    }
}

impl CertifiedNodeRequest {
    /// Asks for the node with `metadata`.
    pub fn new(metadata: NodeMetaData, requester: PeerId) -> (result: CertifiedNodeRequest)
        ensures
            result@ == (CertifiedNodeRequestModel { metadata, requester }),
    {
        CertifiedNodeRequest { metadata, requester }
    }

    /// Returns the digest of the node.
    pub fn digest(&self) -> (result: HashValue)
        ensures
            result == self@.metadata@.digest,
    {
        self.metadata.digest()
    }

    /// Returns who asks for the node.
    pub fn requester(&self) -> (result: PeerId)
        ensures
            result == self@.requester,
    {
        self.requester
    }

    /// Returns the validator that made the node.
    pub fn source(&self) -> (result: PeerId)
        ensures
            result == self@.metadata@.source,
    {
        self.metadata.source()
    }

    /// Returns the round of the node.
    pub fn round(&self) -> (result: Round)
        ensures
            result == self@.metadata@.round,
    {
        self.metadata.round()
    }
}

/// Metadata is determined by its parts: two nodes that differ in epoch, round, source or digest
/// have different metadata. So a round of one epoch never stands for the same round of another.
pub proof fn metadata_is_determined_by_its_parts(one: NodeMetaData, other: NodeMetaData)
    ensures
        one == other <==> one@ == other@,
{
}

/// A signature that a validator has made over a digest passes the verification, if the verifying
/// function accepts whatever the validator's signing function makes of a message.
pub proof fn signed_digest_passes_verification<
    S,
    V,
    F: FnOnce(&SignedNodeDigestInfo) -> Result<Signature, S>,
    G: FnOnce(PeerId, &SignedNodeDigestInfo, &Signature) -> Result<(), V>,
>(signed: SignedNodeDigest, digest: HashValue, author: PeerId, sign: F, verifier: G)
    requires
        signed@.info == SignedNodeDigestInfo::of(digest),
        signed@.peer_id == author,
        call_ensures(
            sign,
            (&SignedNodeDigestInfo::of(digest),),
            Ok::<Signature, S>(signed@.signature),
        ),
        forall|message: SignedNodeDigestInfo, signature: Signature, outcome: Result<(), V>|
            call_ensures(sign, (&message,), Ok::<Signature, S>(signature))
                && #[trigger] call_ensures(verifier, (author, &message, &signature), outcome)
                ==> outcome is Ok,
    ensures
        forall|outcome: Result<(), V>|
            #[trigger] call_ensures(
                verifier,
                (signed@.peer_id, &signed@.info, &signed@.signature),
                outcome,
            ) ==> outcome is Ok,
{
}

} // verus!
