use k256::ecdsa::SigningKey;
use ripemd::Ripemd160;
use sha2::{Digest, Sha256, Sha512_256};
use stacks_miner::block::{
    MaturedRewards, MicroblockReplayError, MinerReward, RewardKind, StacksHeaderInfo,
    StacksMicroblock,
};
use stacks_miner::builder::StacksBlockBuilder;
use stacks_miner::bytes::to_hex;
use stacks_miner::header::{StacksBlockHeader, StacksMicroblockHeader};
use stacks_miner::merkle::merkle_root;
use stacks_miner::rewards::{matured_reward_height, MINER_REWARD_MATURITY, MINER_REWARD_WINDOW};
use stacks_miner::types::{
    Error, StacksPrivateKey, StacksTransaction, StacksWorkScore, TransactionAnchorMode, VRFProof,
    VmError, MAX_EPOCH_SIZE,
};

fn secret() -> [u8; 32] {
    let mut s = [0u8; 32];
    for (i, b) in s.iter_mut().enumerate() {
        *b = (i as u8) + 1;
    }
    s
}

fn privkey() -> StacksPrivateKey {
    StacksPrivateKey::from_slice(&secret()).unwrap()
}

fn vrf_proof() -> VRFProof {
    VRFProof { bytes: [7u8; 80] }
}

fn tx(mode: TransactionAnchorMode, fill: u8, len: usize) -> StacksTransaction {
    StacksTransaction { anchor_mode: mode, bytes: vec![fill; len] }
}

fn sha512_256(data: &[u8]) -> [u8; 32] {
    Sha512_256::digest(data).into()
}

fn tagged(tag: u8, data: &[u8]) -> [u8; 32] {
    let mut buf = vec![tag];
    buf.extend_from_slice(data);
    sha512_256(&buf)
}

fn node(left: &[u8; 32], right: &[u8; 32]) -> [u8; 32] {
    let mut buf = left.to_vec();
    buf.extend_from_slice(right);
    tagged(1, &buf)
}

fn expected_pubkey_hash() -> [u8; 20] {
    let key = SigningKey::from_slice(&secret()).unwrap();
    let point = key.verifying_key().to_encoded_point(true);
    let inner: [u8; 32] = Sha256::digest(point.as_bytes()).into();
    Ripemd160::digest(inner).into()
}

fn fresh_builder() -> StacksBlockBuilder {
    StacksBlockBuilder::first(1, &[9u8; 32], &vrf_proof(), &privkey())
}

fn open_builder() -> StacksBlockBuilder {
    let mut b = fresh_builder();
    b.epoch_begin(None, &vec![], Ok(())).unwrap();
    b
}

#[test]
fn empty_anchored_block_single_tenure() {
    let mut b = open_builder();
    let root = [3u8; 32];
    let block = b.mine_anchored_block(&root);
    assert_eq!(block.header.tx_merkle_root, [0u8; 32]);
    assert_eq!(block.header.parent_microblock, [0u8; 32]);
    assert_eq!(block.header.parent_microblock_sequence, 0);
    assert_eq!(block.header.parent_block, [0u8; 32]);
    assert_eq!(block.header.state_index_root, root);
    assert!(block.txs.is_empty());
    assert!(b.anchored_done);
}

#[test]
fn anchored_block_keeps_three_transactions_in_order() {
    let mut b = open_builder();
    let coinbase = tx(TransactionAnchorMode::OnChainOnly, 1, 40);
    let deploy = tx(TransactionAnchorMode::Any, 2, 120);
    let call = tx(TransactionAnchorMode::OnChainOnly, 3, 60);
    for t in [&coinbase, &deploy, &call] {
        assert_eq!(b.try_mine_tx(t, Ok(())), Ok(()));
    }
    let parent_root = b.chain_tip.index_root;
    let root = [5u8; 32];
    let block = b.mine_anchored_block(&root);
    assert_eq!(block.txs, vec![coinbase, deploy, call]);
    assert_ne!(block.header.state_index_root, parent_root);
    assert_eq!(block.header.state_index_root, root);
    assert_eq!(b.bytes_so_far, 247 + 40 + 120 + 60);
}

#[test]
fn merkle_root_of_three_transactions() {
    let mut b = open_builder();
    let txs = [
        tx(TransactionAnchorMode::OnChainOnly, 1, 10),
        tx(TransactionAnchorMode::OnChainOnly, 2, 11),
        tx(TransactionAnchorMode::OnChainOnly, 3, 12),
    ];
    for t in txs.iter() {
        b.try_mine_tx(t, Ok(())).unwrap();
    }
    let block = b.mine_anchored_block(&[0u8; 32]);
    let leaves: Vec<[u8; 32]> = txs.iter().map(|t| tagged(0, &sha512_256(&t.bytes))).collect();
    let left = node(&leaves[0], &leaves[1]);
    let right = node(&leaves[2], &leaves[2]);
    assert_eq!(block.header.tx_merkle_root, node(&left, &right));
}

#[test]
fn merkle_root_of_one_and_no_leaves() {
    assert_eq!(merkle_root(&vec![]), [0u8; 32]);
    let leaf = [4u8; 32];
    let h = tagged(0, &leaf);
    assert_eq!(merkle_root(&vec![leaf]), node(&h, &h));
}

#[test]
fn contract_call_in_microblock() {
    let mut b = open_builder();
    b.try_mine_tx(&tx(TransactionAnchorMode::OnChainOnly, 1, 40), Ok(())).unwrap();
    b.try_mine_tx(&tx(TransactionAnchorMode::Any, 2, 120), Ok(())).unwrap();
    let block = b.mine_anchored_block(&[6u8; 32]);
    assert_eq!(block.txs.len(), 2);
    let call = tx(TransactionAnchorMode::OffChainOnly, 3, 60);
    b.try_mine_tx(&call, Ok(())).unwrap();
    let mb = b.mine_next_microblock().unwrap();
    assert_eq!(mb.header.sequence, 0);
    assert_eq!(mb.header.prev_block, block.block_hash());
    assert_eq!(mb.txs, vec![tx(TransactionAnchorMode::OffChainOnly, 3, 60)]);
    let leaf = tagged(0, &sha512_256(&call.bytes));
    assert_eq!(mb.header.tx_merkle_root, node(&leaf, &leaf));
    assert!(b.micro_txs.is_empty());
    assert!(mb.header.verify(&b.header.microblock_pubkey_hash));
    assert!(!mb.header.verify(&[0u8; 20]));
}

#[test]
fn microblocks_chain_by_sequence() {
    let mut b = open_builder();
    b.mine_anchored_block(&[6u8; 32]);
    b.try_mine_tx(&tx(TransactionAnchorMode::OffChainOnly, 1, 30), Ok(())).unwrap();
    let first = b.mine_next_microblock().unwrap();
    b.try_mine_tx(&tx(TransactionAnchorMode::Any, 2, 30), Ok(())).unwrap();
    let second = b.mine_next_microblock().unwrap();
    assert_eq!(second.header.sequence, first.header.sequence + 1);
    assert_eq!(second.header.prev_block, first.block_hash());
    assert_eq!(b.prev_microblock_header, second.header);
    assert!(second.header.verify(&b.header.microblock_pubkey_hash));
}

#[test]
fn microblock_stream_too_long() {
    let mut b = open_builder();
    b.mine_anchored_block(&[6u8; 32]);
    b.prev_microblock_header.sequence = u16::MAX;
    b.stream_started = true;
    let call = tx(TransactionAnchorMode::OffChainOnly, 3, 60);
    b.try_mine_tx(&call, Ok(())).unwrap();
    assert_eq!(b.mine_next_microblock(), Err(Error::MicroblockStreamTooLong));
    assert_eq!(b.micro_txs, vec![call]);
}

#[test]
fn oversize_transaction_is_rejected() {
    let mut b = open_builder();
    let room = (MAX_EPOCH_SIZE - 247) as usize;
    let first = tx(TransactionAnchorMode::OnChainOnly, 1, room - 100);
    b.try_mine_tx(&first, Ok(())).unwrap();
    let before = b.bytes_so_far;
    let too_big = tx(TransactionAnchorMode::OnChainOnly, 2, 100);
    assert_eq!(b.try_mine_tx(&too_big, Ok(())), Err(Error::BlockTooBig));
    assert_eq!(b.bytes_so_far, before);
    assert_eq!(b.txs, vec![first]);
    let fits = tx(TransactionAnchorMode::OnChainOnly, 3, 99);
    assert_eq!(b.try_mine_tx(&fits, Ok(())), Ok(()));
    assert_eq!(b.bytes_so_far, MAX_EPOCH_SIZE - 1);
}

#[test]
fn anchor_mode_misroute() {
    let mut b = open_builder();
    let off = tx(TransactionAnchorMode::OffChainOnly, 1, 10);
    assert_eq!(b.try_mine_tx(&off, Ok(())), Err(Error::InvalidAnchorMode));
    b.mine_anchored_block(&[0u8; 32]);
    let on = tx(TransactionAnchorMode::OnChainOnly, 1, 10);
    assert_eq!(b.try_mine_tx(&on, Ok(())), Err(Error::InvalidAnchorMode));
    assert!(b.micro_txs.is_empty());
    assert_eq!(b.bytes_so_far, 247);
}

#[test]
fn vm_error_is_passed_on() {
    let mut b = open_builder();
    let t = tx(TransactionAnchorMode::Any, 1, 10);
    let e = VmError { message: "runtime error".to_string() };
    let same = VmError { message: "runtime error".to_string() };
    assert_eq!(b.try_mine_tx(&t, Err(e)), Err(Error::Vm(same)));
    assert!(b.txs.is_empty());
    assert_eq!(b.bytes_so_far, 247);
}

#[test]
fn check_tx_does_not_change_the_builder() {
    let b = open_builder();
    assert_eq!(b.check_tx(&tx(TransactionAnchorMode::Any, 1, 10)), Ok(()));
    assert_eq!(b.check_tx(&tx(TransactionAnchorMode::OffChainOnly, 1, 10)), Err(Error::InvalidAnchorMode));
    assert!(b.txs.is_empty());
}

#[test]
fn builder_header_from_parent() {
    let parent = StacksBlockHeader::genesis();
    let tail = StacksMicroblockHeader::first_unsigned(&[2u8; 32], &[3u8; 32]);
    let tip = StacksHeaderInfo {
        anchored_header: parent,
        microblock_tail: Some(tail),
        block_height: 4,
        index_root: [5u8; 32],
        burn_header_hash: [6u8; 32],
    };
    let work = StacksWorkScore { burn: 10, work: 5 };
    let b = StacksBlockBuilder::from_parent(2, &tip, &work, &vrf_proof(), &privkey());
    assert_eq!(b.header.parent_block, sha512_256(&parent.serialize()));
    assert_eq!(b.header.parent_microblock, sha512_256(&tail.serialize()));
    assert_eq!(b.header.parent_microblock_sequence, 0);
    assert_eq!(b.header.total_work, work);
    assert_eq!(b.header.microblock_pubkey_hash, expected_pubkey_hash());
    assert_eq!(b.bytes_so_far, 247);
    assert_eq!(b.miner_id, 2);
    assert_eq!(b.header.serialize().len(), 247);
    assert_eq!(tail.serialize().len(), 132);
}

#[test]
fn header_serialization_layout() {
    let mut h = StacksBlockHeader::genesis();
    h.total_work = StacksWorkScore { burn: 0x0102, work: 3 };
    h.parent_microblock_sequence = 0x0a0b;
    let bytes = h.serialize();
    assert_eq!(bytes[0], 0);
    assert_eq!(&bytes[1..9], &[0, 0, 0, 0, 0, 0, 1, 2]);
    assert_eq!(&bytes[9..17], &[0, 0, 0, 0, 0, 0, 0, 3]);
    assert_eq!(&bytes[161..163], &[0x0a, 0x0b]);
}

#[test]
fn epoch_begin_with_parent_stream() {
    let mut b = fresh_builder();
    let m0 = StacksMicroblockHeader::first_unsigned(&[2u8; 32], &[3u8; 32]);
    let m1 = StacksMicroblockHeader::from_parent_unsigned(&m0, &[4u8; 32]).unwrap();
    let stream = vec![
        StacksMicroblock { header: m0, txs: vec![] },
        StacksMicroblock { header: m1, txs: vec![] },
    ];
    let rewards = MaturedRewards {
        entries: vec![MinerReward { recipient: vec![1, 2], amount: 500, kind: RewardKind::Miner }],
    };
    assert_eq!(b.epoch_begin(Some(rewards), &stream, Ok(())), Ok(()));
    assert_eq!(b.header.parent_microblock, m1.block_hash());
    assert_eq!(b.header.parent_microblock_sequence, 1);
    assert_eq!(b.miner_payouts.as_ref().unwrap().entries[0].amount, 500);
}

#[test]
fn epoch_begin_replay_failure_names_offender() {
    let mut b = fresh_builder();
    let m0 = StacksMicroblockHeader::first_unsigned(&[2u8; 32], &[3u8; 32]);
    let stream = vec![StacksMicroblock { header: m0, txs: vec![] }];
    let failure = MicroblockReplayError { offender: [7u8; 32], message: "bad".to_string() };
    let header_before = b.header;
    assert_eq!(b.epoch_begin(None, &stream, Err(failure)), Err(Error::InvalidStacksMicroblock([7u8; 32])));
    assert_eq!(b.header, header_before);
}

#[test]
fn epoch_keys_use_sentinels() {
    let b = open_builder();
    let keys = b.epoch_keys();
    assert_eq!(keys.parent_burn_header_hash, [9u8; 32]);
    assert_eq!(keys.parent_block, [0u8; 32]);
    assert_eq!(keys.new_burn_header_hash, [1u8; 32]);
    assert_eq!(keys.new_block, [1u8; 32]);
}

#[test]
fn epoch_finish_names_mined_file() {
    let mut b = open_builder();
    b.mine_anchored_block(&[0u8; 32]);
    let name = b.epoch_finish();
    let expected = sha512_256(&[1u8; 64]);
    let hex: String = expected.iter().map(|x| format!("{:02x}", x)).collect();
    assert_eq!(name, format!("{}.mined", hex));
}

#[test]
fn hex_text() {
    assert_eq!(to_hex(&[0x0a, 0xff, 0x00]), "0aff00");
    assert_eq!(to_hex(&[]), "");
}

#[test]
fn invalid_private_keys() {
    assert!(StacksPrivateKey::from_slice(&[0u8; 32]).is_none());
    assert!(StacksPrivateKey::from_slice(&[1u8; 31]).is_none());
    assert_eq!(privkey().to_bytes(), secret());
}

#[test]
fn reward_maturity_window() {
    let lag = MINER_REWARD_MATURITY + MINER_REWARD_WINDOW;
    for h in 0..lag {
        assert_eq!(matured_reward_height(h), None);
    }
    assert_eq!(matured_reward_height(lag), Some(0));
    assert_eq!(matured_reward_height(lag + 1), Some(1));
}

#[test]
fn set_parent_microblock_changes_only_parent_fields() {
    let mut b = fresh_builder();
    let before = b.header;
    b.set_parent_microblock(&[4u8; 32], 9);
    assert_eq!(b.header.parent_microblock, [4u8; 32]);
    assert_eq!(b.header.parent_microblock_sequence, 9);
    assert_eq!(b.header.parent_block, before.parent_block);
    assert_eq!(b.header.microblock_pubkey_hash, before.microblock_pubkey_hash);
}

#[test]
fn empty_microblock_keeps_the_sequence() {
    let mut b = open_builder();
    let block = b.mine_anchored_block(&[6u8; 32]);
    let empty = b.mine_next_microblock().unwrap();
    assert_eq!(empty.header.sequence, 0);
    assert_eq!(empty.header.prev_block, block.block_hash());
    assert_eq!(empty.header.tx_merkle_root, [0u8; 32]);
    let again = b.mine_next_microblock().unwrap();
    assert_eq!(again.header.sequence, 1);
    assert_eq!(again.header.prev_block, empty.block_hash());
}

#[test]
fn first_block_has_height_one() {
    let b = fresh_builder();
    assert_eq!(b.header.total_work, StacksWorkScore { burn: 0, work: 1 });
    assert_eq!(b.chain_tip.anchored_header.total_work, StacksWorkScore { burn: 0, work: 0 });
    assert_eq!(b.chain_tip.block_height, 0);
    assert_eq!(StacksWorkScore::initial().work, 1);
}

#[test]
fn private_key_range() {
    let order: [u8; 32] = [
        0xff, 0xff, 0xff, 0xff, 0xff, 0xff, 0xff, 0xff, 0xff, 0xff, 0xff, 0xff, 0xff, 0xff, 0xff,
        0xfe, 0xba, 0xae, 0xdc, 0xe6, 0xaf, 0x48, 0xa0, 0x3b, 0xbf, 0xd2, 0x5e, 0x8c, 0xd0, 0x36,
        0x41, 0x41,
    ];
    assert!(StacksPrivateKey::from_slice(&order).is_none());
    let mut below = order;
    below[31] = 0x40;
    assert!(StacksPrivateKey::from_slice(&below).is_some());
    assert!(StacksPrivateKey::from_slice(&[0xffu8; 32]).is_none());
}

#[test]
fn builder_reward_height() {
    let b = fresh_builder();
    assert_eq!(b.matured_reward_height(), None);
    let mut tip = b.chain_tip;
    tip.block_height = MINER_REWARD_MATURITY + MINER_REWARD_WINDOW - 1;
    let later = StacksBlockBuilder::from_parent(1, &tip, &StacksWorkScore { burn: 0, work: 7 }, &vrf_proof(), &privkey());
    assert_eq!(later.matured_reward_height(), Some(0));
    assert_eq!(later.miner_privkey, privkey());
}
