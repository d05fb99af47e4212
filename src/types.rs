use vstd::prelude::*;
use crate::bytes::zeros;
use crate::crypto::{
    compressed_public_key, compressed_pubkey_of, sha512_256, sha512_256_of, valid_secret,
};

verus! {

/// Largest number of bytes an anchored block and its stream may take, header included.
pub const MAX_EPOCH_SIZE: u64 = 2097152;

/// Serialized length of an anchored block header.
pub const ANCHORED_HEADER_LEN: u64 = 247;

/// Serialized length of a microblock header.
pub const MICROBLOCK_HEADER_LEN: u64 = 132;

/// Version byte of anchored blocks.
pub const STACKS_BLOCK_VERSION: u8 = 0;

/// Version byte of microblocks.
pub const STACKS_MICROBLOCK_VERSION: u8 = 0;

/// Where a transaction may be mined.
#[derive(Clone, Copy, Debug, PartialEq, Eq, Structural)]
pub enum TransactionAnchorMode {
    OnChainOnly,
    OffChainOnly,
    Any,
}

/// Whether a transaction of this mode may go into an anchored block.
pub open spec fn fits_anchored(mode: TransactionAnchorMode) -> bool {
    mode == TransactionAnchorMode::OnChainOnly || mode == TransactionAnchorMode::Any
}

/// Whether a transaction of this mode may go into a microblock.
pub open spec fn fits_streamed(mode: TransactionAnchorMode) -> bool {
    mode == TransactionAnchorMode::OffChainOnly || mode == TransactionAnchorMode::Any
}

/// A transaction as the assembler sees it: its anchor mode and its canonical
/// serialization, which the virtual machine produced and which names it.
#[derive(Debug, PartialEq, Eq)]
pub struct StacksTransaction {
    pub anchor_mode: TransactionAnchorMode,
    pub bytes: Vec<u8>,
}

/// The model of a transaction: anchor mode and serialized bytes.
pub type TxModel = (TransactionAnchorMode, Seq<u8>);

impl View for StacksTransaction {
    type V = TxModel;

    open spec fn view(&self) -> TxModel {
        (self.anchor_mode, self.bytes@)
    }
}

/// The models of a list of transactions.
pub open spec fn txs_view(txs: Seq<StacksTransaction>) -> Seq<TxModel> {
    txs.map_values(|t: StacksTransaction| t@)
}

/// The transaction id: SHA-512/256 of the serialized transaction.
pub open spec fn txid_of(bytes: Seq<u8>) -> Seq<u8> {
    sha512_256_of(bytes)
}

/// The ids of a list of transaction models.
pub open spec fn txids_of(txs: Seq<TxModel>) -> Seq<Seq<u8>> {
    txs.map_values(|t: TxModel| txid_of(t.1))
}

impl StacksTransaction {
    /// A copy with the same anchor mode and bytes.
    pub fn duplicate(&self) -> (r: StacksTransaction)
        ensures
            r@ == self@,
    {
        StacksTransaction { anchor_mode: self.anchor_mode, bytes: self.bytes.clone() }
    }

    /// Length of the serialized transaction.
    pub fn serialized_len(&self) -> (r: u64)
        ensures
            r == self.bytes@.len(),
    {
        self.bytes.len() as u64
    }

    /// The transaction id.
    pub fn txid(&self) -> (r: [u8; 32])
        ensures
            r@ == txid_of(self.bytes@),
    {
        sha512_256(self.bytes.as_slice())
    }
}

/// Copies of a list of transactions.
pub fn duplicate_txs(txs: &Vec<StacksTransaction>) -> (r: Vec<StacksTransaction>)
    ensures
        txs_view(r@) == txs_view(txs@),
{
    let mut out: Vec<StacksTransaction> = Vec::new();
    let mut i: usize = 0;
    while i < txs.len()
        invariant
            i <= txs@.len(),
            out@.len() == i,
            forall|k: int| 0 <= k < i ==> #[trigger] out@[k]@ == txs@[k]@,
        decreases txs@.len() - i,
    {
        out.push(txs[i].duplicate());
        i += 1;
    }
    assert(txs_view(out@) == txs_view(txs@));
    out
}

/// The ids of a list of transactions.
pub fn txids(txs: &Vec<StacksTransaction>) -> (r: Vec<[u8; 32]>)
    ensures
        r@.map_values(|h: [u8; 32]| h@) == txids_of(txs_view(txs@)),
{
    let mut out: Vec<[u8; 32]> = Vec::new();
    let mut i: usize = 0;
    while i < txs.len()
        invariant
            i <= txs@.len(),
            out@.len() == i,
            forall|k: int| 0 <= k < i ==> #[trigger] out@[k]@ == txid_of(txs@[k].bytes@),
        decreases txs@.len() - i,
    {
        out.push(txs[i].txid());
        i += 1;
    }
    assert(out@.map_values(|h: [u8; 32]| h@) == txids_of(txs_view(txs@)));
    out
}

/// Accumulated work: burn spent and chain length.
#[derive(Clone, Copy, Debug, PartialEq, Eq, Structural)]
pub struct StacksWorkScore {
    pub burn: u64,
    pub work: u64,
}

impl StacksWorkScore {
    /// The work of the chain's first block: no burn, height one.
    pub fn initial() -> (r: StacksWorkScore)
        ensures
            r.burn == 0 && r.work == 1,
    {
        StacksWorkScore { burn: 0, work: 1 }
    }
}

/// A VRF proof of the right to mine.
#[derive(Clone, Copy, Debug, PartialEq, Eq)]
pub struct VRFProof {
    pub bytes: [u8; 80],
}

impl VRFProof {
    /// The all-zero proof.
    pub fn empty() -> (r: VRFProof)
        ensures
            r.bytes@ == zeros(80),
    {
        let r = VRFProof { bytes: [0u8; 80] };
        assert(r.bytes@ == zeros(80));
        r
    }
}

/// A secp256k1 secret key, with its compressed public key.
#[derive(Clone, Copy, Debug, PartialEq, Eq)]
pub struct StacksPrivateKey {
    secret: [u8; 32],
    public: [u8; 33],
}

impl StacksPrivateKey {
    /// The secret scalar.
    pub closed spec fn secret_view(&self) -> Seq<u8> {
        self.secret@
    }

    /// The compressed public key.
    pub closed spec fn public_view(&self) -> Seq<u8> {
        self.public@
    }

    /// The public key is that of the secret.
    pub closed spec fn wf(&self) -> bool {
        self.public@ == compressed_pubkey_of(self.secret@)
    }

    /// A key from its 32 secret bytes; `None` where they name no valid scalar or
    /// are not 32 bytes long.
    pub fn from_slice(bytes: &[u8]) -> (r: Option<StacksPrivateKey>)
        ensures
            r matches Some(k) ==> k.wf() && k.secret_view() == bytes@,
            r is Some <==> valid_secret(bytes@),
    {
        if bytes.len() != 32 {
            return None;
        }
        let mut secret = [0u8; 32];
        let mut i: usize = 0;
        while i < 32
            invariant
                bytes@.len() == 32,
                i <= 32,
                secret@.len() == 32,
                forall|k: int| 0 <= k < i ==> secret@[k] == bytes@[k],
            decreases 32 - i,
        {
            secret[i] = bytes[i];
            i += 1;
        }
        assert(secret@ == bytes@);
        match compressed_public_key(&secret) {
            Some(public) => Some(StacksPrivateKey { secret, public }),
            None => None,
        }
    }

    /// The secret bytes.
    pub fn to_bytes(&self) -> (r: [u8; 32])
        ensures
            r@ == self.secret_view(),
    {
        self.secret
    }

    /// The compressed public key.
    pub fn public_key(&self) -> (r: [u8; 33])
        requires
            self.wf(),
        ensures
            r@ == compressed_pubkey_of(self.secret_view()),
    {
        self.public
    }
}

/// Errors of the assembler.
#[derive(Debug, PartialEq, Eq)]
pub enum Error {
    /// The transaction would take the block to its size limit.
    BlockTooBig,
    /// The transaction's anchor mode does not fit the part being built.
    InvalidAnchorMode,
    /// The virtual machine refused the transaction.
    Vm(VmError),
    /// Replaying the parent's microblock stream failed at this microblock.
    InvalidStacksMicroblock([u8; 32]),
    /// The microblock sequence number would overflow.
    MicroblockStreamTooLong,
    /// The microblock could not be signed, or its signature did not check out.
    SignatureFailure,
}

/// An error that the virtual machine reported, passed on as it came.
#[derive(Debug, PartialEq, Eq)]
pub struct VmError {
    pub message: String,
}

} // verus!
