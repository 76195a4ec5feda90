use demo_bitcoin::{Block, Blockchain, ChainError, ProofOfWork, GENESIS_DATA};

fn linked(chain: &Blockchain) -> bool {
    (1..chain.blocks.len()).all(|i| chain.blocks[i].prev_block_hash == chain.blocks[i - 1].hash)
}

#[test]
fn genesis_block_has_zero_prev_hash() {
    let chain = Blockchain::new_genesis_block_with_target_bits(8).unwrap();
    assert_eq!(chain.blocks.len(), 1);
    assert_eq!(chain.blocks[0].prev_block_hash, [0u8; 32]);
    assert_eq!(chain.blocks[0].data, b"Genesis Block".to_vec());
    assert_eq!(GENESIS_DATA, "Genesis Block");
    assert!(ProofOfWork::with_target_bits(&chain.blocks[0], 8).validate());
}

#[test]
fn two_payloads_scenario() {
    let mut chain = Blockchain::new_genesis_block_with_target_bits(8).unwrap();
    chain.add_block("Send 1 BTC to Ivan".to_string()).unwrap();
    chain.add_block("Send 2 more BTC to Ivan".to_string()).unwrap();
    assert_eq!(chain.blocks.len(), 3);
    assert!(linked(&chain));
    assert_eq!(chain.blocks[1].data, b"Send 1 BTC to Ivan".to_vec());
    assert_eq!(chain.blocks[2].data, b"Send 2 more BTC to Ivan".to_vec());
    let first = chain.blocks[0].render_with_target_bits(8).unwrap();
    assert!(first.contains("\nData: Genesis Block\n"));
    for b in &chain.blocks {
        assert!(b.render_with_target_bits(chain.target_bits).unwrap().ends_with("\nPoW: true\n"));
    }
    let all = chain.render().unwrap();
    assert_eq!(all.matches("PoW: true").count(), 3);
    assert!(all.contains("Data: Send 1 BTC to Ivan"));
    assert!(all.contains("Data: Send 2 more BTC to Ivan"));
}

#[test]
fn many_appends_stay_linked() {
    let mut chain = Blockchain::new_genesis_block_with_target_bits(6).unwrap();
    for i in 0..5 {
        chain.add_block(format!("payload {}", i)).unwrap();
    }
    assert_eq!(chain.blocks.len(), 6);
    assert!(linked(&chain));
    assert_eq!(chain.target_bits, 6);
}

#[test]
fn add_block_on_empty_chain_fails() {
    let mut chain = Blockchain::new_genesis_block_with_target_bits(4).unwrap();
    chain.blocks.clear();
    assert_eq!(chain.add_block("orphan".to_string()), Err(ChainError::EmptyChain));
    assert_eq!(chain.blocks.len(), 0);
}

#[test]
fn add_block_leaves_earlier_blocks_unchanged() {
    let mut chain = Blockchain::new_genesis_block_with_target_bits(8).unwrap();
    let genesis = chain.blocks[0].clone();
    chain.add_block("next".to_string()).unwrap();
    assert_eq!(chain.blocks[0].hash, genesis.hash);
    assert_eq!(chain.blocks[0].nonce, genesis.nonce);
    assert_eq!(chain.blocks[0].timestamp, genesis.timestamp);
    assert_eq!(chain.blocks[1].prev_block_hash, genesis.hash);
}

#[test]
fn render_shows_every_field() {
    let b = Block::mine_at(b"hi".to_vec(), [0u8; 32], 0, 8).unwrap();
    let text = b.render_with_target_bits(8).unwrap();
    let lines: Vec<&str> = text.lines().collect();
    assert_eq!(lines.len(), 5);
    assert!(lines[0].starts_with("Time: 1970-01-01 "));
    assert_eq!(lines[1], format!("Prev. hash: {}", "0".repeat(64)));
    assert_eq!(lines[2], "Data: hi");
    let hash_hex: String = b.hash.iter().map(|x| format!("{:02x}", x)).collect();
    assert_eq!(lines[3], format!("Hash: {}", hash_hex));
    assert_eq!(lines[4], "PoW: true");
}

#[test]
fn render_shows_failed_pow() {
    let b = Block::mine_at(b"hi".to_vec(), [0u8; 32], 0, 8).unwrap();
    assert!(b.render_with_target_bits(256).unwrap().ends_with("PoW: false\n"));
    assert!(b.render().unwrap().ends_with("PoW: false\n"));
}

#[test]
fn render_decodes_invalid_text_lossily() {
    let b = Block::mine_at(vec![0x66, 0xff, 0x6f], [0u8; 32], 10, 4).unwrap();
    assert!(b.render_with_target_bits(4).unwrap().contains("\nData: f\u{FFFD}o\n"));
}

#[test]
fn render_rejects_out_of_range_time() {
    let b = Block::mine_at(b"late".to_vec(), [0u8; 32], i64::MAX, 4).unwrap();
    assert_eq!(b.render(), Err(ChainError::TimestampFormatting));
    let chain = Blockchain { blocks: vec![b], target_bits: 4 };
    assert_eq!(chain.render(), Err(ChainError::TimestampFormatting));
}

#[test]
fn render_of_empty_chain_is_empty() {
    let chain = Blockchain { blocks: vec![], target_bits: 8 };
    assert_eq!(chain.render(), Ok(String::new()));
}

#[test]
fn chain_render_separates_blocks() {
    let mut chain = Blockchain::new_genesis_block_with_target_bits(4).unwrap();
    chain.add_block("b".to_string()).unwrap();
    let expected = format!(
        "{}\n{}\n",
        chain.blocks[0].render_with_target_bits(4).unwrap(),
        chain.blocks[1].render_with_target_bits(4).unwrap()
    );
    assert_eq!(chain.render().unwrap(), expected);
}
