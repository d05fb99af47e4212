use vstd::prelude::*;
use crate::bytes::{append_be16, append_be64, append_bytes, be16, be64, zeros};
use crate::crypto::{
    compressed_pubkey_of, hash160, hash160_of, recover_public_key, recoverable_signature_of,
    recovered_pubkey_of, recovers_of, sha512_256, sha512_256_of, sign_recoverable, signs_ok_of,
};
use crate::types::{
    StacksPrivateKey, StacksWorkScore, VRFProof, STACKS_BLOCK_VERSION, STACKS_MICROBLOCK_VERSION,
};

verus! {

/// Byte that fills the parent hash that stands for "no parent microblock".
pub const EMPTY_MICROBLOCK_PARENT_BYTE: u8 = 0;

/// Byte that fills the hashes under which a block is mined before its real burn
/// header hash and block hash are known.
pub const MINER_BLOCK_SENTINEL_BYTE: u8 = 1;

/// The parent hash that stands for "no parent microblock".
pub open spec fn empty_parent_spec() -> Seq<u8> {
    Seq::new(32, |_i: int| EMPTY_MICROBLOCK_PARENT_BYTE)
}

/// The in-flight burn header hash and block hash of a block being mined.
pub open spec fn miner_sentinel_spec() -> Seq<u8> {
    Seq::new(32, |_i: int| MINER_BLOCK_SENTINEL_BYTE)
}

/// The parent hash that stands for "no parent microblock".
pub fn empty_microblock_parent_hash() -> (r: [u8; 32])
    ensures
        r@ == empty_parent_spec(),
        r@ == zeros(32),
{
    let r = [EMPTY_MICROBLOCK_PARENT_BYTE; 32];
    assert(r@ == empty_parent_spec());
    r
}

/// The burn header hash under which a block is mined.
pub fn miner_block_burn_header_hash() -> (r: [u8; 32])
    ensures
        r@ == miner_sentinel_spec(),
{
    let r = [MINER_BLOCK_SENTINEL_BYTE; 32];
    assert(r@ == miner_sentinel_spec());
    r
}

/// The block hash under which a block is mined.
pub fn miner_block_header_hash() -> (r: [u8; 32])
    ensures
        r@ == miner_sentinel_spec(),
{
    let r = [MINER_BLOCK_SENTINEL_BYTE; 32];
    assert(r@ == miner_sentinel_spec());
    r
}

/// The header of an anchored block.
#[derive(Clone, Copy, Debug, PartialEq, Eq)]
pub struct StacksBlockHeader {
    pub version: u8,
    pub total_work: StacksWorkScore,
    pub proof: VRFProof,
    pub parent_block: [u8; 32],
    pub parent_microblock: [u8; 32],
    pub parent_microblock_sequence: u16,
    pub tx_merkle_root: [u8; 32],
    pub state_index_root: [u8; 32],
    pub microblock_pubkey_hash: [u8; 20],
}

/// The header of a microblock.
#[derive(Clone, Copy, Debug, PartialEq, Eq)]
pub struct StacksMicroblockHeader {
    pub version: u8,
    pub sequence: u16,
    pub prev_block: [u8; 32],
    pub tx_merkle_root: [u8; 32],
    pub signature: [u8; 65],
}

/// Canonical serialization of an anchored header; integers are big-endian.
pub open spec fn anchored_header_bytes(h: StacksBlockHeader) -> Seq<u8> {
    seq![h.version] + be64(h.total_work.burn) + be64(h.total_work.work) + h.proof.bytes@
        + h.parent_block@ + h.parent_microblock@ + be16(h.parent_microblock_sequence)
        + h.tx_merkle_root@ + h.state_index_root@ + h.microblock_pubkey_hash@
}

/// The id of an anchored block: the hash of its serialized header.
pub open spec fn anchored_block_hash(h: StacksBlockHeader) -> Seq<u8> {
    sha512_256_of(anchored_header_bytes(h))
}

/// Canonical serialization of a microblock header with the given signature bytes.
pub open spec fn microblock_header_bytes_with(h: StacksMicroblockHeader, sig: Seq<u8>) -> Seq<u8> {
    seq![h.version] + be16(h.sequence) + h.prev_block@ + h.tx_merkle_root@ + sig
}

/// Canonical serialization of a microblock header.
pub open spec fn microblock_header_bytes(h: StacksMicroblockHeader) -> Seq<u8> {
    microblock_header_bytes_with(h, h.signature@)
}

/// The id of a microblock: the hash of its serialized header, signature included.
pub open spec fn microblock_hash(h: StacksMicroblockHeader) -> Seq<u8> {
    sha512_256_of(microblock_header_bytes(h))
}

/// What a microblock's signature covers: the hash of its header with a zero signature.
pub open spec fn microblock_sighash(h: StacksMicroblockHeader) -> Seq<u8> {
    sha512_256_of(microblock_header_bytes_with(h, zeros(65)))
}

/// The hash that a microblock's signature covers, from the fields of the unsigned
/// header: version, sequence, parent and Merkle root, then a zero signature.
pub open spec fn unsigned_sighash(sequence: u16, prev_block: Seq<u8>, tx_merkle_root: Seq<u8>) -> Seq<u8> {
    sha512_256_of(
        seq![STACKS_MICROBLOCK_VERSION] + be16(sequence) + prev_block + tx_merkle_root + zeros(65),
    )
}

/// Whether the microblock header's signature recovers a key whose hash is `pubkey_hash`.
pub open spec fn microblock_signed_by(h: StacksMicroblockHeader, pubkey_hash: Seq<u8>) -> bool {
    hash160_of(recovered_pubkey_of(h.signature@, microblock_sighash(h))) == pubkey_hash
}

/// The key of a block in the state trie: hash of burn header hash then block hash.
pub open spec fn index_block_hash_of(burn: Seq<u8>, block: Seq<u8>) -> Seq<u8> {
    sha512_256_of(burn + block)
}

/// An unsigned microblock header: version, sequence, parent and root; zero signature.
pub open spec fn unsigned_microblock(
    sequence: u16,
    prev_block: Seq<u8>,
    tx_merkle_root: Seq<u8>,
    h: StacksMicroblockHeader,
) -> bool {
    &&& h.version == STACKS_MICROBLOCK_VERSION
    &&& h.sequence == sequence
    &&& h.prev_block@ == prev_block
    &&& h.tx_merkle_root@ == tx_merkle_root
    &&& h.signature@ == zeros(65)
}

/// The header of the chain's first block: no parent, no work, empty proof, zero
/// roots and key hash.
pub open spec fn is_genesis_header(h: StacksBlockHeader) -> bool {
    &&& h.version == STACKS_BLOCK_VERSION
    &&& h.total_work.burn == 0 && h.total_work.work == 0
    &&& h.proof.bytes@ == zeros(80)
    &&& h.parent_block@ == empty_parent_spec()
    &&& h.parent_microblock@ == empty_parent_spec()
    &&& h.parent_microblock_sequence == 0
    &&& h.tx_merkle_root@ == zeros(32)
    &&& h.state_index_root@ == zeros(32)
    &&& h.microblock_pubkey_hash@ == zeros(20)
}

/// Key of the state trie for a block.
pub fn make_index_block_hash(burn: &[u8; 32], block: &[u8; 32]) -> (r: [u8; 32])
    ensures
        r@ == index_block_hash_of(burn@, block@),
{
    let mut buf: Vec<u8> = Vec::new();
    append_bytes(&mut buf, burn);
    append_bytes(&mut buf, block);
    sha512_256(buf.as_slice())
}

impl StacksBlockHeader {
    /// The canonical bytes of the header.
    pub fn serialize(&self) -> (r: Vec<u8>)
        ensures
            r@ == anchored_header_bytes(*self),
            r@.len() == 247,
    {
        let mut buf: Vec<u8> = Vec::new();
        buf.push(self.version);
        append_be64(&mut buf, self.total_work.burn);
        append_be64(&mut buf, self.total_work.work);
        append_bytes(&mut buf, &self.proof.bytes);
        append_bytes(&mut buf, &self.parent_block);
        append_bytes(&mut buf, &self.parent_microblock);
        append_be16(&mut buf, self.parent_microblock_sequence);
        append_bytes(&mut buf, &self.tx_merkle_root);
        append_bytes(&mut buf, &self.state_index_root);
        append_bytes(&mut buf, &self.microblock_pubkey_hash);
        assert(buf@ == anchored_header_bytes(*self));
        buf
    }

    /// The block's id.
    pub fn block_hash(&self) -> (r: [u8; 32])
        ensures
            r@ == anchored_block_hash(*self),
    {
        let bytes = self.serialize();
        sha512_256(bytes.as_slice())
    }

    /// The header of the chain's first block: no parent, no work, empty proof.
    pub fn genesis() -> (r: StacksBlockHeader)
        ensures
            is_genesis_header(r),
    {
        let r = StacksBlockHeader {
            version: STACKS_BLOCK_VERSION,
            total_work: StacksWorkScore { burn: 0, work: 0 },
            proof: VRFProof::empty(),
            parent_block: empty_microblock_parent_hash(),
            parent_microblock: empty_microblock_parent_hash(),
            parent_microblock_sequence: 0,
            tx_merkle_root: [0u8; 32],
            state_index_root: [0u8; 32],
            microblock_pubkey_hash: [0u8; 20],
        };
        assert(r.tx_merkle_root@ == zeros(32));
        assert(r.state_index_root@ == zeros(32));
        assert(r.microblock_pubkey_hash@ == zeros(20));
        r
    }

    /// The header of a child of `parent`, not yet filled with roots: it names the
    /// parent and the parent's last microblock (or none), and carries the total
    /// work, the proof and the microblock key hash.
    pub fn from_parent_empty(
        parent: &StacksBlockHeader,
        parent_microblock: Option<&StacksMicroblockHeader>,
        total_work: &StacksWorkScore,
        proof: &VRFProof,
        microblock_pubkey_hash: &[u8; 20],
    ) -> (r: StacksBlockHeader)
        ensures
            r.version == STACKS_BLOCK_VERSION,
            r.total_work == *total_work,
            r.proof == *proof,
            r.parent_block@ == anchored_block_hash(*parent),
            match parent_microblock {
                Some(m) => r.parent_microblock@ == microblock_hash(*m)
                    && r.parent_microblock_sequence == m.sequence,
                None => r.parent_microblock@ == empty_parent_spec()
                    && r.parent_microblock_sequence == 0,
            },
            r.tx_merkle_root@ == zeros(32),
            r.state_index_root@ == zeros(32),
            r.microblock_pubkey_hash == *microblock_pubkey_hash,
    {
        let (pm, pseq) = match parent_microblock {
            Some(m) => (m.block_hash(), m.sequence),
            None => (empty_microblock_parent_hash(), 0u16),
        };
        let r = StacksBlockHeader {
            version: STACKS_BLOCK_VERSION,
            total_work: *total_work,
            proof: *proof,
            parent_block: parent.block_hash(),
            parent_microblock: pm,
            parent_microblock_sequence: pseq,
            tx_merkle_root: [0u8; 32],
            state_index_root: [0u8; 32],
            microblock_pubkey_hash: *microblock_pubkey_hash,
        };
        assert(r.tx_merkle_root@ == zeros(32));
        assert(r.state_index_root@ == zeros(32));
        r
    }
}

impl StacksMicroblockHeader {
    /// The canonical bytes of the header.
    pub fn serialize(&self) -> (r: Vec<u8>)
        ensures
            r@ == microblock_header_bytes(*self),
            r@.len() == 132,
    {
        let mut buf: Vec<u8> = Vec::new();
        buf.push(self.version);
        append_be16(&mut buf, self.sequence);
        append_bytes(&mut buf, &self.prev_block);
        append_bytes(&mut buf, &self.tx_merkle_root);
        append_bytes(&mut buf, &self.signature);
        assert(buf@ == microblock_header_bytes(*self));
        buf
    }

    /// The microblock's id.
    pub fn block_hash(&self) -> (r: [u8; 32])
        ensures
            r@ == microblock_hash(*self),
    {
        let bytes = self.serialize();
        sha512_256(bytes.as_slice())
    }

    /// The hash that the signature covers.
    pub fn signature_hash(&self) -> (r: [u8; 32])
        ensures
            r@ == microblock_sighash(*self),
    {
        let mut unsigned = *self;
        unsigned.signature = [0u8; 65];
        let bytes = unsigned.serialize();
        assert(unsigned.signature@ == zeros(65));
        assert(microblock_header_bytes(unsigned) == microblock_header_bytes_with(*self, zeros(65)));
        sha512_256(bytes.as_slice())
    }

    /// The first, unsigned microblock header after the anchored block `prev_block`.
    pub fn first_unsigned(prev_block: &[u8; 32], tx_merkle_root: &[u8; 32]) -> (r: StacksMicroblockHeader)
        ensures
            unsigned_microblock(0, prev_block@, tx_merkle_root@, r),
    {
        let r = StacksMicroblockHeader {
            version: STACKS_MICROBLOCK_VERSION,
            sequence: 0,
            prev_block: *prev_block,
            tx_merkle_root: *tx_merkle_root,
            signature: [0u8; 65],
        };
        assert(r.signature@ == zeros(65));
        r
    }

    /// The unsigned header that follows `parent` in the stream; `None` where the
    /// sequence number would overflow.
    pub fn from_parent_unsigned(
        parent: &StacksMicroblockHeader,
        tx_merkle_root: &[u8; 32],
    ) -> (r: Option<StacksMicroblockHeader>)
        ensures
            parent.sequence == u16::MAX <==> r is None,
            r matches Some(h) ==> unsigned_microblock(
                (parent.sequence + 1) as u16,
                microblock_hash(*parent),
                tx_merkle_root@,
                h,
            ),
    {
        if parent.sequence == u16::MAX {
            return None;
        }
        let r = StacksMicroblockHeader {
            version: STACKS_MICROBLOCK_VERSION,
            sequence: parent.sequence + 1,
            prev_block: parent.block_hash(),
            tx_merkle_root: *tx_merkle_root,
            signature: [0u8; 65],
        };
        assert(r.signature@ == zeros(65));
        Some(r)
    }

    /// Signs the header with the key; `false`, with the header unchanged, where the
    /// signer fails.
    pub fn sign(&mut self, privkey: &StacksPrivateKey) -> (ok: bool)
        ensures
            final(self).version == old(self).version,
            final(self).sequence == old(self).sequence,
            final(self).prev_block == old(self).prev_block,
            final(self).tx_merkle_root == old(self).tx_merkle_root,
            ok == signs_ok_of(privkey.secret_view(), microblock_sighash(*old(self))),
            ok ==> final(self).signature@ == recoverable_signature_of(
                privkey.secret_view(),
                microblock_sighash(*old(self)),
            ),
            ok ==> recovers_of(final(self).signature@, microblock_sighash(*old(self))),
            ok ==> recovered_pubkey_of(final(self).signature@, microblock_sighash(*old(self)))
                == compressed_pubkey_of(privkey.secret_view()),
            !ok ==> *final(self) == *old(self),
    {
        let digest = self.signature_hash();
        let secret = privkey.to_bytes();
        match sign_recoverable(&secret, &digest) {
            Some(sig) => {
                self.signature = sig;
                true
            },
            None => false,
        }
    }

    /// Whether the signature recovers a public key whose hash is `pubkey_hash`.
    pub fn verify(&self, pubkey_hash: &[u8; 20]) -> (r: bool)
        ensures
            r == (recovers_of(self.signature@, microblock_sighash(*self)) && microblock_signed_by(
                *self,
                pubkey_hash@,
            )),
    {
        let digest = self.signature_hash();
        match recover_public_key(&self.signature, &digest) {
            Some(pk) => {
                let h = hash160(&pk);
                let mut i: usize = 0;
                while i < 20
                    invariant
                        i <= 20,
                        h@.len() == 20,
                        pubkey_hash@.len() == 20,
                        digest@ == microblock_sighash(*self),
                        recovers_of(self.signature@, digest@),
                        h@ == hash160_of(recovered_pubkey_of(self.signature@, digest@)),
                        forall|k: int| 0 <= k < i ==> h@[k] == pubkey_hash@[k],
                    decreases 20 - i,
                {
                    if h[i] != pubkey_hash[i] {
                        assert(h@[i as int] != pubkey_hash@[i as int]);
                        assert(h@ != pubkey_hash@);
                        return false;
                    }
                    i += 1;
                }
                assert(h@ == pubkey_hash@);
                true
            },
            None => false,
        }
    }
}

} // verus!
