use entry_chain::entry::{create_entry, create_entry_mut, next_hash, next_tick, Entry};
use entry_chain::event::{Event, Transaction};
use entry_chain::hash::{extend_and_hash, hash};
use entry_chain::signature::{PublicKey, Signature};
use ring::rand::SystemRandom;
use ring::signature::{Ed25519KeyPair, KeyPair};

fn new_keypair() -> Ed25519KeyPair {
    let rng = SystemRandom::new();
    let pkcs8 = Ed25519KeyPair::generate_pkcs8(&rng).unwrap();
    Ed25519KeyPair::from_pkcs8(pkcs8.as_ref()).unwrap()
}

fn pubkey(keypair: &Ed25519KeyPair) -> PublicKey {
    let mut bytes = [0u8; 32];
    bytes.copy_from_slice(keypair.public_key().as_ref());
    PublicKey { bytes }
}

fn sign(keypair: &Ed25519KeyPair, message: &[u8]) -> Signature {
    let mut bytes = [0u8; 64];
    bytes.copy_from_slice(keypair.sign(message).as_ref());
    Signature { bytes }
}

fn new_transaction(
    keypair: &Ed25519KeyPair,
    to: PublicKey,
    tokens: i64,
    last_id: entry_chain::hash::Hash,
) -> Transaction {
    let from = pubkey(keypair);
    let mut data = Vec::new();
    data.extend_from_slice(&from.bytes);
    data.extend_from_slice(&to.bytes);
    data.extend_from_slice(&tokens.to_le_bytes());
    data.extend_from_slice(&last_id.bytes);
    let sig = sign(keypair, &data);
    Transaction { from, data, sig }
}

fn new_timestamp(keypair: &Ed25519KeyPair, dt: u64) -> Event {
    Event::Timestamp { from: pubkey(keypair), dt, sig: sign(keypair, &dt.to_le_bytes()) }
}

fn new_signature(keypair: &Ed25519KeyPair, tx_sig: Signature) -> Event {
    Event::Signature { from: pubkey(keypair), tx_sig, sig: sign(keypair, &tx_sig.bytes) }
}

fn unsigned(tag: u8, fill: u8) -> Event {
    let from = PublicKey { bytes: [0u8; 32] };
    let sig = Signature { bytes: [fill; 64] };
    match tag {
        0 => Event::Transaction(Transaction { from, data: vec![], sig }),
        1 => Event::Signature { from, tx_sig: Signature { bytes: [0u8; 64] }, sig },
        _ => Event::Timestamp { from, dt: 0, sig },
    }
}

#[test]
fn test_entry_verify() {
    let zero = entry_chain::hash::Hash::default();
    let one = hash(&zero.bytes);
    assert!(Entry::new_tick(0, &zero).verify(&zero)); // base case
    assert!(!Entry::new_tick(0, &zero).verify(&one)); // base case, bad
    assert!(next_tick(&zero, 1).verify(&zero)); // inductive step
    assert!(!next_tick(&zero, 1).verify(&one)); // inductive step, bad
}

#[test]
fn test_event_reorder_attack() {
    let zero = entry_chain::hash::Hash::default();

    // First, verify entries
    let keypair = new_keypair();
    let tr0 = Event::Transaction(new_transaction(&keypair, pubkey(&keypair), 0, zero));
    let tr1 = Event::Transaction(new_transaction(&keypair, pubkey(&keypair), 1, zero));
    let mut e0 = create_entry(&zero, 0, vec![tr0.clone(), tr1.clone()]);
    assert!(e0.verify(&zero));

    // Next, swap two events and ensure verification fails.
    e0.events[0] = tr1; // <-- attack
    e0.events[1] = tr0;
    assert!(!e0.verify(&zero));
}

#[test]
fn test_witness_reorder_attack() {
    let zero = entry_chain::hash::Hash::default();

    // First, verify entries
    let keypair = new_keypair();
    let tr0 = new_timestamp(&keypair, 1_520_000_000);
    let tr1 = new_signature(&keypair, Signature { bytes: [0u8; 64] });
    let mut e0 = create_entry(&zero, 0, vec![tr0.clone(), tr1.clone()]);
    assert!(e0.verify(&zero));

    // Next, swap two witness events and ensure verification fails.
    e0.events[0] = tr1; // <-- attack
    e0.events[1] = tr0;
    assert!(!e0.verify(&zero));
}

#[test]
fn test_next_tick() {
    let zero = entry_chain::hash::Hash::default();
    assert_eq!(next_tick(&zero, 1).num_hashes, 1)
}

#[test]
fn new_tick_keeps_count_and_id() {
    let one = hash(&[0u8; 32]);
    let tick = Entry::new_tick(7, &one);
    assert_eq!(tick.num_hashes, 7);
    assert_eq!(tick.id, one);
    assert!(tick.events.is_empty());
}

#[test]
fn next_hash_without_events_hashes_one_fewer_than_claimed() {
    let zero = entry_chain::hash::Hash::default();
    let one = hash(&zero.bytes);
    let two = hash(&one.bytes);
    assert_eq!(next_hash(&zero, 0, &[]), zero);
    assert_eq!(next_hash(&zero, 1, &[]), zero);
    assert_eq!(next_hash(&zero, 2, &[]), one);
    assert_eq!(next_hash(&zero, 3, &[]), two);
    assert_eq!(
        next_hash(&zero, 3, &[]).bytes,
        [
            43, 50, 219, 108, 44, 10, 98, 53, 251, 19, 151, 232, 34, 94, 168, 94, 15, 14, 110,
            140, 123, 18, 109, 0, 22, 204, 189, 224, 230, 103, 21, 30
        ]
    );
}

#[test]
fn next_hash_mixes_events_last() {
    let zero = entry_chain::hash::Hash::default();
    let one = hash(&zero.bytes);
    let events = vec![unsigned(0, 7)];
    let mut data = vec![0u8];
    data.extend_from_slice(&[7u8; 64]);
    assert_eq!(next_hash(&zero, 0, &events), extend_and_hash(&zero, &data));
    assert_eq!(next_hash(&zero, 1, &events), extend_and_hash(&zero, &data));
    assert_eq!(next_hash(&zero, 2, &events), extend_and_hash(&one, &data));
    assert_eq!(
        next_hash(&zero, 0, &events).bytes,
        [
            172, 185, 164, 229, 29, 227, 20, 135, 236, 41, 77, 115, 191, 119, 90, 73, 195, 199,
            131, 111, 30, 63, 121, 203, 54, 55, 148, 187, 118, 66, 209, 242
        ]
    );
}

#[test]
fn next_hash_tells_order_and_kind() {
    let zero = entry_chain::hash::Hash::default();
    let a = unsigned(0, 1);
    let b = unsigned(0, 2);
    assert_ne!(
        next_hash(&zero, 0, &[a.clone(), b.clone()]),
        next_hash(&zero, 0, &[b.clone(), a.clone()])
    );
    assert_ne!(next_hash(&zero, 0, &[unsigned(1, 9)]), next_hash(&zero, 0, &[unsigned(2, 9)]));
    assert_ne!(next_hash(&zero, 0, &[unsigned(0, 9)]), next_hash(&zero, 0, &[unsigned(1, 9)]));
}

#[test]
fn next_hash_is_deterministic() {
    let one = hash(&[0u8; 32]);
    let events = vec![unsigned(2, 3), unsigned(1, 4)];
    assert_eq!(next_hash(&one, 5, &events), next_hash(&one, 5, &events));
    assert_eq!(next_hash(&one, 5, &events), next_hash(&one, 5, &events.clone()));
}

#[test]
fn next_tick_verifies_only_against_its_start() {
    let zero = entry_chain::hash::Hash::default();
    let one = hash(&zero.bytes);
    for n in 1..6u64 {
        let tick = next_tick(&zero, n);
        assert_eq!(tick.num_hashes, n);
        assert!(tick.events.is_empty());
        assert!(tick.verify(&zero));
        assert!(!tick.verify(&one));
    }
    assert_eq!(next_tick(&zero, 3).id, hash(&one.bytes));
}

#[test]
fn create_entry_counts_events_as_one_hash() {
    let zero = entry_chain::hash::Hash::default();
    let idle = create_entry(&zero, 5, vec![]);
    assert_eq!(idle.num_hashes, 5);
    assert_eq!(idle.id, zero);
    assert!(idle.events.is_empty());

    let events = vec![unsigned(0, 7)];
    let busy = create_entry(&zero, 5, events.clone());
    assert_eq!(busy.num_hashes, 6);
    assert_eq!(busy.id, next_hash(&zero, 0, &events));
    assert_eq!(busy.events.len(), 1);

    let last = create_entry(&zero, u64::MAX, vec![]);
    assert_eq!(last.num_hashes, u64::MAX);
}

#[test]
fn create_entry_identifier_ignores_the_count() {
    let zero = entry_chain::hash::Hash::default();
    let keypair = new_keypair();
    let event = new_timestamp(&keypair, 42);
    let at_once = create_entry(&zero, 0, vec![event.clone()]);
    let later = create_entry(&zero, 2, vec![event]);
    assert_eq!(at_once.id, later.id);
    assert_eq!(later.num_hashes, 3);
    assert!(at_once.verify(&zero));
    assert!(!later.verify(&zero));
}

#[test]
fn create_entry_mut_moves_the_chain_on() {
    let mut id = entry_chain::hash::Hash::default();
    let mut num_hashes = 3u64;
    let events = vec![unsigned(1, 5)];
    let expected = create_entry(&id, num_hashes, events.clone());
    let entry = create_entry_mut(&mut id, &mut num_hashes, events);
    assert_eq!(entry.num_hashes, 4);
    assert_eq!(entry.id, expected.id);
    assert_eq!(id, entry.id);
    assert_ne!(id, entry_chain::hash::Hash::default());
    assert_eq!(num_hashes, 0);

    let idle = create_entry_mut(&mut id, &mut num_hashes, vec![]);
    assert_eq!(idle.num_hashes, 0);
    assert_eq!(idle.id, entry.id);
    assert_eq!(id, entry.id);
    assert_eq!(num_hashes, 0);
}

#[test]
fn verify_rejects_an_event_that_does_not_hold() {
    let zero = entry_chain::hash::Hash::default();
    let forged = create_entry(&zero, 0, vec![unsigned(2, 7)]);
    assert_eq!(forged.id, next_hash(&zero, forged.num_hashes, &forged.events));
    assert!(!forged.verify(&zero));

    let keypair = new_keypair();
    let good = new_timestamp(&keypair, 42);
    let mixed = create_entry(&zero, 0, vec![good.clone(), unsigned(2, 7)]);
    assert!(!mixed.verify(&zero));
    assert!(create_entry(&zero, 0, vec![good]).verify(&zero));
}

#[test]
fn verify_rejects_an_event_of_another_kind_in_place() {
    let zero = entry_chain::hash::Hash::default();
    let keypair = new_keypair();
    let stamp = new_timestamp(&keypair, 42);
    let witness = new_signature(&keypair, Signature { bytes: [3u8; 64] });
    assert!(stamp.verify());
    assert!(witness.verify());
    let mut entry = create_entry(&zero, 0, vec![stamp]);
    assert!(entry.verify(&zero));
    entry.events[0] = witness;
    assert!(!entry.verify(&zero));
}

#[test]
fn verify_answers_the_same_when_asked_again() {
    let zero = entry_chain::hash::Hash::default();
    let one = hash(&zero.bytes);
    let keypair = new_keypair();
    let entry = create_entry(&zero, 0, vec![new_timestamp(&keypair, 1), new_timestamp(&keypair, 2)]);
    for _ in 0..3 {
        assert!(entry.verify(&zero));
        assert!(!entry.verify(&one));
    }
}

#[test]
fn verify_rejects_a_wrong_count_or_identifier() {
    let zero = entry_chain::hash::Hash::default();
    let mut tick = next_tick(&zero, 4);
    assert!(tick.verify(&zero));
    tick.num_hashes = 5;
    assert!(!tick.verify(&zero));
    tick.num_hashes = 4;
    tick.id = zero;
    assert!(!tick.verify(&zero));
}
