use bekchain::block::{has_leading_zeros, Block, MineOutcome, ATTEMPT_BOUND, DIFFICULTY};
use bekchain::chain::Blockchain;
use bekchain::digest::hex_digest;
use bekchain::render::{push_decimal, to_hex};

fn is_lower_hex_digest(h: &str) -> bool {
    h.len() == 64 && h.chars().all(|c| c.is_ascii_digit() || ('a'..='f').contains(&c))
}

#[test]
fn digest_of_abc_matches_known_vector() {
    assert_eq!(
        hex_digest("abc"),
        "ba7816bf8f01cfea414140de5dae2223b00361a396177a9cb410ff61f20015ad"
    );
}

#[test]
fn digest_of_empty_text_matches_known_vector() {
    assert_eq!(
        hex_digest(""),
        "e3b0c44298fc1c149afbf4c8996fb92427ae41e4649b934ca495991b7852b855"
    );
}

#[test]
fn decimal_rendering() {
    let mut s = String::from("n=");
    push_decimal(&mut s, 0);
    assert_eq!(s, "n=0");
    let mut s = String::new();
    push_decimal(&mut s, 1234567890);
    assert_eq!(s, "1234567890");
    let mut s = String::new();
    push_decimal(&mut s, u64::MAX);
    assert_eq!(s, "18446744073709551615");
}

#[test]
fn hex_rendering() {
    assert_eq!(to_hex(&vec![0x00, 0xff, 0x1a, 0x09]), "00ff1a09");
    assert_eq!(to_hex(&vec![]), "");
}

#[test]
fn leading_zero_check() {
    assert!(has_leading_zeros(&String::from("00ab"), 2));
    assert!(!has_leading_zeros(&String::from("0a0b"), 2));
    assert!(has_leading_zeros(&String::from("abc"), 0));
    assert!(!has_leading_zeros(&String::from("0"), 2));
}

#[test]
fn new_block_starts_unmined() {
    let b = Block::new(3, String::from("prev"), String::from("payload")).unwrap();
    assert_eq!(b.index(), 3);
    assert_eq!(b.previous_hash(), "prev");
    assert_eq!(b.data(), "payload");
    assert_eq!(b.nonce(), 0);
    assert_eq!(b.hash(), "");
}

#[test]
fn hash_covers_fields_in_order() {
    let b = Block::with_timestamp(1, String::from("abc"), String::from("data"), 1700000000);
    assert_eq!(b.calculate_hash(), hex_digest("1abc1700000000data0"));
}

#[test]
fn hash_is_deterministic_and_field_sensitive() {
    let a = Block::with_timestamp(7, String::from("p"), String::from("d"), 42);
    let b = Block::with_timestamp(7, String::from("p"), String::from("d"), 42);
    assert_eq!(a.calculate_hash(), a.calculate_hash());
    assert_eq!(a.calculate_hash(), b.calculate_hash());
    let others = [
        Block::with_timestamp(8, String::from("p"), String::from("d"), 42),
        Block::with_timestamp(7, String::from("q"), String::from("d"), 42),
        Block::with_timestamp(7, String::from("p"), String::from("e"), 42),
        Block::with_timestamp(7, String::from("p"), String::from("d"), 43),
    ];
    for o in others.iter() {
        assert_ne!(a.calculate_hash(), o.calculate_hash());
    }
    let mut c = Block::with_timestamp(7, String::from("p"), String::from("d"), 42);
    c.mine(64);
    assert_ne!(c.hash(), a.calculate_hash());
}

#[test]
fn digest_is_sixty_four_lowercase_hex() {
    let b = Block::with_timestamp(0, String::new(), String::from("x"), 0);
    assert!(is_lower_hex_digest(&b.calculate_hash()));
    assert!(is_lower_hex_digest(&hex_digest("Alice sent to Bob")));
}

#[test]
fn mining_with_zero_difficulty_succeeds_at_once() {
    let mut b = Block::with_timestamp(1, String::from("h"), String::from("d"), 5);
    assert_eq!(b.mine(0), MineOutcome::Succeeded);
    assert_eq!(b.nonce(), 0);
    assert_eq!(b.hash(), hex_digest("1h5d0"));
}

#[test]
fn mining_success_meets_target() {
    let mut b = Block::with_timestamp(1, String::from("h"), String::from("d"), 1700000000);
    let outcome = b.mine(1);
    if outcome == MineOutcome::Succeeded {
        assert!(b.hash().starts_with('0'));
        assert!(b.nonce() <= ATTEMPT_BOUND);
    } else {
        assert_eq!(b.nonce(), ATTEMPT_BOUND);
        assert!(!b.hash().starts_with('0'));
    }
    assert_eq!(b.hash(), b.calculate_hash());
}

#[test]
fn mining_abandons_at_bound() {
    let mut b = Block::with_timestamp(2, String::from("h"), String::from("d"), 9);
    assert_eq!(b.mine(65), MineOutcome::Abandoned);
    assert_eq!(b.nonce(), 100);
    assert_eq!(b.hash(), hex_digest("2h9d100"));
}

#[test]
fn genesis_block_shape() {
    let c = Blockchain::with_timestamp(1700000000, DIFFICULTY);
    assert_eq!(c.get_total_blocks(), 1);
    let g = c.block(0);
    assert_eq!(g.index(), 0);
    assert_eq!(g.previous_hash(), "");
    assert_eq!(g.data(), "Genesis Block");
    assert_eq!(g.hash(), hex_digest("01700000000Genesis Block0"));
    let c = Blockchain::new().unwrap();
    assert_eq!(c.block(0).index(), 0);
    assert_eq!(c.block(0).previous_hash(), "");
    assert_eq!(c.difficulty(), 2);
}

#[test]
fn abandoned_block_is_still_appended() {
    let mut c = Blockchain::with_timestamp(10, 65);
    let b = Block::with_timestamp(1, String::new(), String::from("x"), 11);
    assert_eq!(c.add_block(b), MineOutcome::Abandoned);
    assert_eq!(c.get_total_blocks(), 2);
    assert_eq!(c.block(1).nonce(), ATTEMPT_BOUND);
    assert_eq!(c.block(1).previous_hash(), c.block(0).hash());
}

#[test]
fn single_append_scenario() {
    let mut c = Blockchain::new().unwrap();
    assert_eq!(c.get_total_blocks(), 1);
    let b = Block::new(1, String::new(), String::from("Alice sent to Bob")).unwrap();
    let outcome = c.add_block(b);
    assert_eq!(c.get_total_blocks(), 2);
    assert_eq!(c.block(1).previous_hash(), c.block(0).hash());
    let mined = c.block(1);
    assert!(mined.hash().starts_with("00") || mined.nonce() == 100);
    assert_eq!(outcome == MineOutcome::Succeeded, mined.hash().starts_with("00"));
}

#[test]
fn eight_transactions_scenario() {
    let mut c = Blockchain::new().unwrap();
    let names = ["Miner", "Bob", "Linda", "John", "Omar", "Eve", "Svetlana", "Grace", "Jiro"];
    for i in 0..8usize {
        let text = format!("{} sent to {}", names[i], names[i + 1]);
        let b = Block::new((i + 1) as u32, String::new(), text).unwrap();
        c.add_block(b);
        assert_eq!(c.get_total_blocks(), i + 2);
    }
    assert_eq!(c.get_total_blocks(), 9);
    for i in 1..9usize {
        assert_eq!(c.block(i).previous_hash(), c.block(i - 1).hash());
        assert_eq!(c.block(i).index() as usize, i);
        assert_eq!(c.block(i).hash(), c.block(i).calculate_hash());
        assert!(is_lower_hex_digest(c.block(i).hash()));
    }
}
