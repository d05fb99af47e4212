use vstd::prelude::*;
use crate::block::{
    EpochKeys, MaturedRewards, MicroblockReplayError, StacksBlock, StacksHeaderInfo,
    StacksMicroblock,
};
use crate::bytes::{be16, hex_of, push_char, to_hex, zeros};
use crate::crypto::{
    compressed_pubkey_of, hash160, hash160_of, recoverable_signature_of, signs_ok_of,
};
use crate::header::{
    anchored_block_hash, empty_microblock_parent_hash, empty_parent_spec, index_block_hash_of,
    is_genesis_header, make_index_block_hash, microblock_hash, microblock_header_bytes_with,
    microblock_sighash, microblock_signed_by, unsigned_sighash, miner_block_burn_header_hash,
    miner_block_header_hash, miner_sentinel_spec, unsigned_microblock, StacksBlockHeader,
    StacksMicroblockHeader,
};
use crate::merkle::{merkle_root, merkle_root_of};
use crate::rewards::{matured_height_spec, matured_reward_height};
use crate::types::{
    duplicate_txs, fits_anchored, fits_streamed, txids, txids_of, txs_view, Error, StacksPrivateKey,
    StacksTransaction, StacksWorkScore, TransactionAnchorMode, TxModel, VRFProof, VmError,
    MAX_EPOCH_SIZE,
};

verus! {

/// The Merkle root over the ids of a list of transactions.
pub open spec fn tx_merkle_root_of(txs: Seq<TxModel>) -> Seq<u8> {
    merkle_root_of(txids_of(txs))
}

/// Name of the file that a mined block's trie is moved to: the hex of the index
/// block hash of the in-flight identifiers, then ".mined".
pub open spec fn mined_file_name_spec() -> Seq<char> {
    hex_of(index_block_hash_of(miner_sentinel_spec(), miner_sentinel_spec())) + seq![
        '.',
        'm',
        'i',
        'n',
        'e',
        'd',
    ]
}

/// Assembles one anchored block and the microblocks that follow it in a tenure.
#[derive(Debug)]
pub struct StacksBlockBuilder {
    pub chain_tip: StacksHeaderInfo,
    pub header: StacksBlockHeader,
    pub txs: Vec<StacksTransaction>,
    pub micro_txs: Vec<StacksTransaction>,
    pub bytes_so_far: u64,
    pub anchored_done: bool,
    pub prev_microblock_header: StacksMicroblockHeader,
    pub miner_privkey: StacksPrivateKey,
    pub miner_payouts: Option<MaturedRewards>,
    pub miner_id: usize,
    /// Whether a microblock has been mined in this tenure, so that
    /// `prev_microblock_header` is a real microblock and not the placeholder that
    /// points at the anchored block.
    pub stream_started: bool,
}

impl StacksBlockBuilder {
    /// The secret of the key that signs microblocks.
    pub closed spec fn miner_secret(&self) -> Seq<u8> {
        self.miner_privkey.secret_view()
    }

    /// The signing key is well formed and the header names its public key's hash.
    pub closed spec fn key_wf(&self) -> bool {
        &&& self.miner_privkey.wf()
        &&& self.header.microblock_pubkey_hash@ == hash160_of(
            compressed_pubkey_of(self.miner_privkey.secret_view()),
        )
    }

    /// Whether a transaction of `len` bytes would take the block to its size limit.
    pub open spec fn too_big(&self, len: int) -> bool {
        self.bytes_so_far + len >= MAX_EPOCH_SIZE
    }

    /// Whether a transaction of this anchor mode fits the part being built.
    pub open spec fn mode_fits(&self, mode: TransactionAnchorMode) -> bool {
        if self.anchored_done {
            fits_streamed(mode)
        } else {
            fits_anchored(mode)
        }
    }

    /// What the builder keeps true between calls: the size stays below the limit,
    /// each part holds only transactions whose anchor mode allows it, and the
    /// signing key matches the header.
    pub open spec fn wf(&self) -> bool {
        &&& self.key_wf()
        &&& self.bytes_so_far < MAX_EPOCH_SIZE
        &&& forall|i: int| 0 <= i < self.txs@.len() ==> fits_anchored(#[trigger] self.txs@[i].anchor_mode)
        &&& forall|i: int|
            0 <= i < self.micro_txs@.len() ==> fits_streamed(#[trigger] self.micro_txs@[i].anchor_mode)
    }

    /// A builder for a child of `parent_chain_tip`: its header names the parent and
    /// the parent's last microblock, carries the work, the proof and the hash of
    /// the compressed public key of `microblock_privkey`; only the header's bytes
    /// are counted so far.
    pub fn from_parent(
        miner_id: usize,
        parent_chain_tip: &StacksHeaderInfo,
        total_work: &StacksWorkScore,
        proof: &VRFProof,
        microblock_privkey: &StacksPrivateKey,
    ) -> (r: StacksBlockBuilder)
        requires
            microblock_privkey.wf(),
        ensures
            r.wf(),
            r.miner_id == miner_id,
            r.chain_tip == *parent_chain_tip,
            r.miner_privkey == *microblock_privkey,
            r.header.version == crate::types::STACKS_BLOCK_VERSION,
            r.header.total_work == *total_work,
            r.header.proof == *proof,
            r.header.parent_block@ == anchored_block_hash(parent_chain_tip.anchored_header),
            match parent_chain_tip.microblock_tail {
                Some(m) => r.header.parent_microblock@ == microblock_hash(m)
                    && r.header.parent_microblock_sequence == m.sequence,
                None => r.header.parent_microblock@ == empty_parent_spec()
                    && r.header.parent_microblock_sequence == 0,
            },
            r.header.tx_merkle_root@ == zeros(32),
            r.header.state_index_root@ == zeros(32),
            r.header.microblock_pubkey_hash@ == hash160_of(
                compressed_pubkey_of(microblock_privkey.secret_view()),
            ),
            r.bytes_so_far == 247,
            r.txs@.len() == 0,
            r.micro_txs@.len() == 0,
            !r.anchored_done,
            unsigned_microblock(0, empty_parent_spec(), zeros(32), r.prev_microblock_header),
            !r.stream_started,
            r.miner_payouts is None,
    {
        let pubk = microblock_privkey.public_key();
        let pubkh = hash160(&pubk);
        let tail = match &parent_chain_tip.microblock_tail {
            Some(m) => Some(m),
            None => None,
        };
        let header = StacksBlockHeader::from_parent_empty(
            &parent_chain_tip.anchored_header,
            tail,
            total_work,
            proof,
            &pubkh,
        );
        let bytes_so_far = header.serialize().len() as u64;
        let zero_root = [0u8; 32];
        assert(zero_root@ == zeros(32));
        StacksBlockBuilder {
            chain_tip: *parent_chain_tip,
            header,
            txs: Vec::new(),
            micro_txs: Vec::new(),
            bytes_so_far,
            anchored_done: false,
            prev_microblock_header: StacksMicroblockHeader::first_unsigned(
                &empty_microblock_parent_hash(),
                &zero_root,
            ),
            miner_privkey: *microblock_privkey,
            miner_payouts: None,
            miner_id,
            stream_started: false,
        }
    }

    /// A builder for the chain's first block, on top of the genesis header, with
    /// no parent block and no work.
    pub fn first(
        miner_id: usize,
        genesis_burn_header_hash: &[u8; 32],
        proof: &VRFProof,
        microblock_privkey: &StacksPrivateKey,
    ) -> (r: StacksBlockBuilder)
        requires
            microblock_privkey.wf(),
        ensures
            r.wf(),
            r.miner_id == miner_id,
            is_genesis_header(r.chain_tip.anchored_header),
            r.chain_tip.microblock_tail is None,
            r.chain_tip.block_height == 0,
            r.chain_tip.index_root@ == zeros(32),
            r.chain_tip.burn_header_hash == *genesis_burn_header_hash,
            r.miner_privkey == *microblock_privkey,
            r.header.version == crate::types::STACKS_BLOCK_VERSION,
            r.header.total_work.burn == 0 && r.header.total_work.work == 1,
            r.header.proof == *proof,
            r.header.parent_block@ == empty_parent_spec(),
            r.header.parent_microblock@ == empty_parent_spec(),
            r.header.parent_microblock_sequence == 0,
            r.header.tx_merkle_root@ == zeros(32),
            r.header.state_index_root@ == zeros(32),
            r.header.microblock_pubkey_hash@ == hash160_of(
                compressed_pubkey_of(microblock_privkey.secret_view()),
            ),
            r.bytes_so_far == 247,
            r.txs@.len() == 0,
            r.micro_txs@.len() == 0,
            !r.anchored_done,
            unsigned_microblock(0, empty_parent_spec(), zeros(32), r.prev_microblock_header),
            !r.stream_started,
            r.miner_payouts is None,
    {
        let index_root = [0u8; 32];
        assert(index_root@ == zeros(32));
        let genesis_chain_tip = StacksHeaderInfo {
            anchored_header: StacksBlockHeader::genesis(),
            microblock_tail: None,
            block_height: 0,
            index_root,
            burn_header_hash: *genesis_burn_header_hash,
        };
        let mut builder = StacksBlockBuilder::from_parent(
            miner_id,
            &genesis_chain_tip,
            &StacksWorkScore::initial(),
            proof,
            microblock_privkey,
        );
        builder.header.parent_block = empty_microblock_parent_hash();
        builder
    }

    /// Names the parent microblock of the anchored block being built.
    pub fn set_parent_microblock(&mut self, parent_mblock_hash: &[u8; 32], parent_mblock_seq: u16)
        ensures
            old(self).wf() ==> final(self).wf(),
            final(self).header.parent_microblock == *parent_mblock_hash,
            final(self).header.parent_microblock_sequence == parent_mblock_seq,
            final(self).header == (StacksBlockHeader {
                parent_microblock: *parent_mblock_hash,
                parent_microblock_sequence: parent_mblock_seq,
                ..old(self).header
            }),
            final(self).chain_tip == old(self).chain_tip,
            final(self).txs == old(self).txs,
            final(self).micro_txs == old(self).micro_txs,
            final(self).bytes_so_far == old(self).bytes_so_far,
            final(self).anchored_done == old(self).anchored_done,
            final(self).prev_microblock_header == old(self).prev_microblock_header,
            final(self).stream_started == old(self).stream_started,
            final(self).miner_privkey == old(self).miner_privkey,
            final(self).miner_payouts == old(self).miner_payouts,
            final(self).miner_id == old(self).miner_id,
    {
        self.header.parent_microblock = *parent_mblock_hash;
        self.header.parent_microblock_sequence = parent_mblock_seq;
    }

    /// Checks a transaction against the size limit, then against the part being
    /// built, without running it.
    pub fn check_tx(&self, tx: &StacksTransaction) -> (r: Result<(), Error>)
        requires
            self.wf(),
        ensures
            self.too_big(tx.bytes@.len() as int) ==> r == Err::<(), Error>(Error::BlockTooBig),
            !self.too_big(tx.bytes@.len() as int) && !self.mode_fits(tx.anchor_mode) ==> r == Err::<
                (),
                Error,
            >(Error::InvalidAnchorMode),
            r is Ok <==> !self.too_big(tx.bytes@.len() as int) && self.mode_fits(tx.anchor_mode),
    {
        let tx_len = tx.serialized_len();
        if tx_len >= MAX_EPOCH_SIZE - self.bytes_so_far {
            return Err(Error::BlockTooBig);
        }
        let fits = if !self.anchored_done {
            tx.anchor_mode == TransactionAnchorMode::OnChainOnly || tx.anchor_mode
                == TransactionAnchorMode::Any
        } else {
            tx.anchor_mode == TransactionAnchorMode::OffChainOnly || tx.anchor_mode
                == TransactionAnchorMode::Any
        };
        if !fits {
            return Err(Error::InvalidAnchorMode);
        }
        Ok(())
    }

    /// Appends a transaction that the virtual machine has run with outcome
    /// `processed`. The checks of `check_tx` come first and change nothing when
    /// they fail; an error of the machine is passed on and changes nothing
    /// either. On success the transaction goes to the anchored block or, once
    /// that is mined, to the microblock stream, and its bytes are counted.
    pub fn try_mine_tx(&mut self, tx: &StacksTransaction, processed: Result<(), VmError>) -> (r:
        Result<(), Error>)
        requires
            old(self).wf(),
        ensures
            final(self).wf(),
            old(self).too_big(tx.bytes@.len() as int) ==> r == Err::<(), Error>(Error::BlockTooBig),
            !old(self).too_big(tx.bytes@.len() as int) && !old(self).mode_fits(tx.anchor_mode)
                ==> r == Err::<(), Error>(Error::InvalidAnchorMode),
            !old(self).too_big(tx.bytes@.len() as int) && old(self).mode_fits(tx.anchor_mode) ==> (
            match processed {
                Err(e) => r == Err::<(), Error>(Error::Vm(e)),
                Ok(_) => r is Ok,
            }),
            r is Err ==> *final(self) == *old(self),
            r is Ok ==> {
                &&& final(self).bytes_so_far == old(self).bytes_so_far + tx.bytes@.len()
                &&& if old(self).anchored_done {
                    &&& txs_view(final(self).micro_txs@) == txs_view(old(self).micro_txs@).push(tx@)
                    &&& final(self).txs == old(self).txs
                } else {
                    &&& txs_view(final(self).txs@) == txs_view(old(self).txs@).push(tx@)
                    &&& final(self).micro_txs == old(self).micro_txs
                }
                &&& final(self).chain_tip == old(self).chain_tip
                &&& final(self).header == old(self).header
                &&& final(self).anchored_done == old(self).anchored_done
                &&& final(self).prev_microblock_header == old(self).prev_microblock_header
                &&& final(self).stream_started == old(self).stream_started
                &&& final(self).miner_privkey == old(self).miner_privkey
                &&& final(self).miner_payouts == old(self).miner_payouts
                &&& final(self).miner_id == old(self).miner_id
            },
    {
        match self.check_tx(tx) {
            Err(e) => return Err(e),
            Ok(()) => {},
        }
        match processed {
            Err(e) => return Err(Error::Vm(e)),
            Ok(()) => {},
        }
        let tx_len = tx.serialized_len();
        if !self.anchored_done {
            self.txs.push(tx.duplicate());
        } else {
            self.micro_txs.push(tx.duplicate());
        }
        self.bytes_so_far = self.bytes_so_far + tx_len;
        proof {
            assert(txs_view(self.txs@) =~= txs_view(old(self).txs@).push(tx@) || self.txs
                == old(self).txs);
            assert(txs_view(self.micro_txs@) =~= txs_view(old(self).micro_txs@).push(tx@)
                || self.micro_txs == old(self).micro_txs);
        }
        Ok(())
    }

    /// Finishes the anchored block on a state whose trie root is `state_root`
    /// (read after any matured rewards were granted): the header gets the Merkle
    /// root of the anchored transactions' ids and that state root, and the next
    /// microblock will chain from this block.
    pub fn mine_anchored_block(&mut self, state_root: &[u8; 32]) -> (block: StacksBlock)
        requires
            old(self).wf(),
            !old(self).anchored_done,
        ensures
            final(self).wf(),
            final(self).anchored_done,
            final(self).header == (StacksBlockHeader {
                tx_merkle_root: final(self).header.tx_merkle_root,
                state_index_root: *state_root,
                ..old(self).header
            }),
            final(self).header.tx_merkle_root@ == tx_merkle_root_of(txs_view(old(self).txs@)),
            block.header == final(self).header,
            txs_view(block.txs@) == txs_view(old(self).txs@),
            unsigned_microblock(
                0,
                anchored_block_hash(final(self).header),
                zeros(32),
                final(self).prev_microblock_header,
            ),
            !final(self).stream_started,
            final(self).chain_tip == old(self).chain_tip,
            final(self).txs == old(self).txs,
            final(self).micro_txs == old(self).micro_txs,
            final(self).bytes_so_far == old(self).bytes_so_far,
            final(self).miner_privkey == old(self).miner_privkey,
            final(self).miner_payouts == old(self).miner_payouts,
            final(self).miner_id == old(self).miner_id,
    {
        let ids = txids(&self.txs);
        let tx_merkle_root = merkle_root(&ids);
        self.header.tx_merkle_root = tx_merkle_root;
        self.header.state_index_root = *state_root;
        let block = StacksBlock { header: self.header, txs: duplicate_txs(&self.txs) };
        let zero_root = [0u8; 32];
        assert(zero_root@ == zeros(32));
        self.prev_microblock_header = StacksMicroblockHeader::first_unsigned(
            &block.block_hash(),
            &zero_root,
        );
        self.anchored_done = true;
        self.stream_started = false;
        block
    }

    /// The sequence number of the next microblock: 0 for the first of the tenure,
    /// else one above the previous microblock's.
    pub open spec fn next_sequence(&self) -> int {
        if self.stream_started {
            self.prev_microblock_header.sequence + 1
        } else {
            0
        }
    }

    /// What the next microblock names as parent: the anchored block for the
    /// first of the tenure, else the previous microblock.
    pub open spec fn next_prev_block(&self) -> Seq<u8> {
        if self.stream_started {
            microblock_hash(self.prev_microblock_header)
        } else {
            self.prev_microblock_header.prev_block@
        }
    }

    /// Whether the stream has used up its sequence numbers.
    pub open spec fn stream_full(&self) -> bool {
        self.stream_started && self.prev_microblock_header.sequence == u16::MAX
    }

    /// Cuts the next microblock from the streamed transactions, once the anchored
    /// block is mined. The first microblock of the tenure has sequence 0 and
    /// names the anchored block; each later one is one sequence number up and
    /// names the previous microblock; it fails where that number would overflow.
    /// The header is signed with the miner's key, which fails only where the
    /// signer refuses the digest, and checked against the key hash in the
    /// anchored header. On success the streamed transactions move into the
    /// microblock; on failure nothing changes.
    pub fn mine_next_microblock(&mut self) -> (r: Result<StacksMicroblock, Error>)
        requires
            old(self).wf(),
            old(self).anchored_done,
        ensures
            final(self).wf(),
            old(self).stream_full() <==> r == Err::<StacksMicroblock, Error>(
                Error::MicroblockStreamTooLong,
            ),
            r == Err::<StacksMicroblock, Error>(Error::SignatureFailure) <==> (!old(self).stream_full()
                && !signs_ok_of(
                old(self).miner_secret(),
                unsigned_sighash(
                    old(self).next_sequence() as u16,
                    old(self).next_prev_block(),
                    tx_merkle_root_of(txs_view(old(self).micro_txs@)),
                ),
            )),
            r is Err ==> *final(self) == *old(self),
            r matches Err(e) ==> (e == Error::MicroblockStreamTooLong || e == Error::SignatureFailure),
            r matches Ok(mb) ==> {
                &&& mb.header.sequence == old(self).next_sequence()
                &&& mb.header.prev_block@ == old(self).next_prev_block()
                &&& mb.header.version == crate::types::STACKS_MICROBLOCK_VERSION
                &&& mb.header.tx_merkle_root@ == tx_merkle_root_of(txs_view(old(self).micro_txs@))
                &&& mb.header.signature@ == recoverable_signature_of(
                    old(self).miner_secret(),
                    microblock_sighash(mb.header),
                )
                &&& microblock_signed_by(mb.header, old(self).header.microblock_pubkey_hash@)
                &&& txs_view(mb.txs@) == txs_view(old(self).micro_txs@)
                &&& final(self).prev_microblock_header == mb.header
                &&& final(self).stream_started
                &&& final(self).micro_txs@.len() == 0
                &&& final(self).chain_tip == old(self).chain_tip
                &&& final(self).header == old(self).header
                &&& final(self).txs == old(self).txs
                &&& final(self).bytes_so_far == old(self).bytes_so_far
                &&& final(self).anchored_done == old(self).anchored_done
                &&& final(self).miner_privkey == old(self).miner_privkey
                &&& final(self).miner_payouts == old(self).miner_payouts
                &&& final(self).miner_id == old(self).miner_id
            },
    {
        let ids = txids(&self.micro_txs);
        let tx_merkle_root = merkle_root(&ids);
        let mut next = if !self.stream_started {
            StacksMicroblockHeader::first_unsigned(
                &self.prev_microblock_header.prev_block,
                &tx_merkle_root,
            )
        } else {
            match StacksMicroblockHeader::from_parent_unsigned(
                &self.prev_microblock_header,
                &tx_merkle_root,
            ) {
                Some(h) => h,
                None => return Err(Error::MicroblockStreamTooLong),
            }
        };
        let unsigned = next;
        proof {
            assert(microblock_header_bytes_with(unsigned, zeros(65)) =~= seq![
                crate::types::STACKS_MICROBLOCK_VERSION,
            ] + be16(unsigned.sequence) + unsigned.prev_block@ + unsigned.tx_merkle_root@ + zeros(
                65,
            ));
        }
        if !next.sign(&self.miner_privkey) {
            return Err(Error::SignatureFailure);
        }
        proof {
            assert(microblock_header_bytes_with(next, zeros(65)) == microblock_header_bytes_with(
                unsigned,
                zeros(65),
            ));
        }
        if !next.verify(&self.header.microblock_pubkey_hash) {
            return Err(Error::SignatureFailure);
        }
        let txs = duplicate_txs(&self.micro_txs);
        self.prev_microblock_header = next;
        self.micro_txs.clear();
        self.stream_started = true;
        Ok(StacksMicroblock { header: next, txs })
    }

    /// The identifiers to open the block's execution context with: the parent's
    /// burn header hash and block hash, and the two in-flight sentinels.
    pub fn epoch_keys(&self) -> (r: EpochKeys)
        ensures
            r.parent_burn_header_hash == self.chain_tip.burn_header_hash,
            r.parent_block == self.header.parent_block,
            r.new_burn_header_hash@ == miner_sentinel_spec(),
            r.new_block@ == miner_sentinel_spec(),
    {
        EpochKeys {
            parent_burn_header_hash: self.chain_tip.burn_header_hash,
            parent_block: self.header.parent_block,
            new_burn_header_hash: miner_block_burn_header_hash(),
            new_block: miner_block_header_hash(),
        }
    }

    /// Begins the tenure's epoch. Keeps the rewards that mature in this block,
    /// then settles the parent microblock from the parent's stream: none where the
    /// stream is empty; else, where `replay` (the outcome of running the stream
    /// on the opened context) succeeded, its last microblock; where it failed,
    /// the error names the offending microblock and the header is left as it was.
    pub fn epoch_begin(
        &mut self,
        matured_rewards: Option<MaturedRewards>,
        parent_microblocks: &Vec<StacksMicroblock>,
        replay: Result<(), MicroblockReplayError>,
    ) -> (r: Result<(), Error>)
        requires
            old(self).wf(),
        ensures
            final(self).wf(),
            final(self).miner_payouts == matured_rewards,
            parent_microblocks@.len() == 0 ==> {
                &&& r is Ok
                &&& final(self).header == (StacksBlockHeader {
                    parent_microblock: final(self).header.parent_microblock,
                    parent_microblock_sequence: 0,
                    ..old(self).header
                })
                &&& final(self).header.parent_microblock@ == empty_parent_spec()
            },
            parent_microblocks@.len() > 0 ==> match replay {
                Err(f) => r == Err::<(), Error>(Error::InvalidStacksMicroblock(f.offender))
                    && final(self).header == old(self).header,
                Ok(_) => {
                    let last = parent_microblocks@.last().header;
                    &&& r is Ok
                    &&& final(self).header == (StacksBlockHeader {
                        parent_microblock: final(self).header.parent_microblock,
                        parent_microblock_sequence: last.sequence,
                        ..old(self).header
                    })
                    &&& final(self).header.parent_microblock@ == microblock_hash(last)
                },
            },
            final(self).chain_tip == old(self).chain_tip,
            final(self).txs == old(self).txs,
            final(self).micro_txs == old(self).micro_txs,
            final(self).bytes_so_far == old(self).bytes_so_far,
            final(self).anchored_done == old(self).anchored_done,
            final(self).prev_microblock_header == old(self).prev_microblock_header,
            final(self).stream_started == old(self).stream_started,
            final(self).miner_privkey == old(self).miner_privkey,
            final(self).miner_id == old(self).miner_id,
    {
        self.miner_payouts = matured_rewards;
        if parent_microblocks.len() == 0 {
            self.set_parent_microblock(&empty_microblock_parent_hash(), 0);
            return Ok(());
        }
        match replay {
            Err(f) => Err(Error::InvalidStacksMicroblock(f.offender)),
            Ok(()) => {
                let last = &parent_microblocks[parent_microblocks.len() - 1].header;
                self.set_parent_microblock(&last.block_hash(), last.sequence);
                Ok(())
            },
        }
    }

    /// Ends the epoch, consuming the builder, and names the file that the
    /// committed trie is moved to: the hex of the index block hash of the two
    /// in-flight sentinels, then ".mined".
    pub fn epoch_finish(self) -> (r: String)
        ensures
            r@ == mined_file_name_spec(),
    {
        let index_block_hash = make_index_block_hash(
            &miner_block_burn_header_hash(),
            &miner_block_header_hash(),
        );
        let mut name = to_hex(&index_block_hash);
        push_char(&mut name, '.');
        push_char(&mut name, 'm');
        push_char(&mut name, 'i');
        push_char(&mut name, 'n');
        push_char(&mut name, 'e');
        push_char(&mut name, 'd');
        assert(name@ == mined_file_name_spec());
        name
    }

    /// The height whose sortition winner's reward matures in the block being
    /// built, which sits one above the parent tip; `None` while the chain is
    /// shorter than the maturity lag.
    pub fn matured_reward_height(&self) -> (r: Option<u64>)
        requires
            self.chain_tip.block_height < u64::MAX,
        ensures
            r == matured_height_spec((self.chain_tip.block_height + 1) as u64),
    {
        matured_reward_height(self.chain_tip.block_height + 1)
    }
}

} // verus!
