//! Keys and their texts, and the checks of rank, store and location
//! references.

use workforce::key::DocumentKey;
use workforce::protocol::{Outcome, RepoError, Reply, Request, Step};
use workforce::schema::{Location, Rank, Store};
use workforce::session::MongoDB;

fn store(n: u8) -> Store {
    Store { id: Some(DocumentKey::from_bytes([n; 12])), name: "s".to_string(), location_id: String::new() }
}

fn rank(n: u8) -> Rank {
    Rank { id: Some(DocumentKey::from_bytes([n; 12])), name: "r".to_string(), description: "d".to_string() }
}

fn location(n: u8) -> Location {
    Location {
        id: Some(DocumentKey::from_bytes([n; 12])),
        country: "Romania".to_string(),
        state: "Cluj".to_string(),
    }
}

fn text(n: u8) -> String {
    format!("{:02x}", n).repeat(12)
}

#[test]
fn a_key_text_is_decoded_pairwise_high_digit_first() {
    let key = DocumentKey::parse_str("000102030405060708090a0b").unwrap();
    assert_eq!(key.bytes(), [0, 1, 2, 3, 4, 5, 6, 7, 8, 9, 10, 11]);
    let key = DocumentKey::parse_str("63ceed18f71dda7d8cf21e8e").unwrap();
    assert_eq!(
        key.bytes(),
        [0x63, 0xce, 0xed, 0x18, 0xf7, 0x1d, 0xda, 0x7d, 0x8c, 0xf2, 0x1e, 0x8e]
    );
    let key = DocumentKey::parse_str("ffffffffffffffffffffffff").unwrap();
    assert_eq!(key.bytes(), [0xff; 12]);
}

#[test]
fn a_key_text_may_be_in_either_case() {
    let lower = DocumentKey::parse_str("63ceed18f71dda7d8cf21e8e").unwrap();
    let upper = DocumentKey::parse_str("63CEED18F71DDA7D8CF21E8E").unwrap();
    let mixed = DocumentKey::parse_str("63ceED18f71DDa7d8Cf21e8E").unwrap();
    assert_eq!(lower, upper);
    assert_eq!(lower, mixed);
}

#[test]
fn a_text_of_another_length_is_no_key() {
    assert_eq!(DocumentKey::parse_str(""), None);
    assert_eq!(DocumentKey::parse_str("63ceed18f71dda7d8cf21e8"), None);
    assert_eq!(DocumentKey::parse_str("63ceed18f71dda7d8cf21e8e0"), None);
    assert_eq!(DocumentKey::parse_str("63ceed18f71dda7d8cf21e8e00"), None);
    assert_eq!(DocumentKey::parse_str("63ce"), None);
}

#[test]
fn a_text_with_another_character_is_no_key() {
    assert_eq!(DocumentKey::parse_str("63ceed18f71dda7d8cf21e8g"), None);
    assert_eq!(DocumentKey::parse_str("63ceed18f71dda7d8cf21e8 "), None);
    assert_eq!(DocumentKey::parse_str("/3ceed18f71dda7d8cf21e8e"), None);
    assert_eq!(DocumentKey::parse_str(":3ceed18f71dda7d8cf21e8e"), None);
    assert_eq!(DocumentKey::parse_str("@3ceed18f71dda7d8cf21e8e"), None);
    assert_eq!(DocumentKey::parse_str("G3ceed18f71dda7d8cf21e8e"), None);
    assert_eq!(DocumentKey::parse_str("`3ceed18f71dda7d8cf21e8e"), None);
    // 24 characters, not all of them one byte long
    assert_eq!(DocumentKey::parse_str("é3ceed18f71dda7d8cf21e8e"), None);
    // 24 bytes in 12 characters
    assert_eq!(DocumentKey::parse_str("éééééééééééé"), None);
}

#[test]
fn a_key_is_written_in_lower_case_high_digit_first() {
    let key = DocumentKey::from_bytes([0, 1, 2, 3, 4, 5, 6, 7, 8, 9, 10, 0xbf]);
    assert_eq!(key.to_hex(), "000102030405060708090abf");
    assert_eq!(DocumentKey::from_bytes([0xff; 12]).to_hex(), "ffffffffffffffffffffffff");
    assert_eq!(DocumentKey::from_bytes([0x9a; 12]).to_hex(), "9a9a9a9a9a9a9a9a9a9a9a9a");
}

#[test]
fn a_key_is_read_back_from_its_text() {
    let bytes = [0x10, 0x0f, 0xa9, 0x9a, 0x00, 0xff, 0x7f, 0x80, 0x3c, 0xc3, 0x5e, 0xe5];
    let key = DocumentKey::from_bytes(bytes);
    assert_eq!(DocumentKey::parse_str(&key.to_hex()), Some(key));
    let upper = DocumentKey::parse_str("63CEED18F71DDA7D8CF21E8E").unwrap();
    assert_eq!(upper.to_hex(), "63ceed18f71dda7d8cf21e8e");
}

#[test]
fn bytes_go_in_and_out_of_a_key_unchanged() {
    let bytes = [9, 8, 7, 6, 5, 4, 3, 2, 1, 0, 0xaa, 0xbb];
    assert_eq!(DocumentKey::from_bytes(bytes).bytes(), bytes);
}

#[test]
fn a_rank_that_exists_is_handed_back_unchanged() {
    let mut db = MongoDB::init();
    let candidate = "63CEED18f71dda7d8cf21e8e".to_string();
    let step = db.validate_rank(&candidate);
    assert_eq!(
        step,
        Step::Ask(Request::FindRank(DocumentKey::parse_str("63ceed18f71dda7d8cf21e8e").unwrap()))
    );
    assert_eq!(
        db.resume(Reply::Rank(Some(rank(1)))),
        Step::Done(Ok(Outcome::RankId(candidate)))
    );
    assert!(db.is_idle());
}

#[test]
fn a_rank_that_does_not_exist_becomes_the_empty_text() {
    let mut db = MongoDB::init();
    let _ = db.validate_rank(&text(0x71));
    assert_eq!(db.resume(Reply::Rank(None)), Step::Done(Ok(Outcome::RankId(String::new()))));
}

#[test]
fn a_rank_that_is_no_key_becomes_the_empty_text_without_a_lookup() {
    let mut db = MongoDB::init();
    assert_eq!(
        db.validate_rank(&"R1".to_string()),
        Step::Done(Ok(Outcome::RankId(String::new())))
    );
    assert_eq!(db.validate_rank(&String::new()), Step::Done(Ok(Outcome::RankId(String::new()))));
    assert!(db.is_idle());
}

#[test]
fn a_rank_whose_lookup_fails_becomes_the_empty_text() {
    let mut db = MongoDB::init();
    let _ = db.validate_rank(&text(0x71));
    assert_eq!(db.resume(Reply::Failed), Step::Done(Ok(Outcome::RankId(String::new()))));
    let _ = db.validate_rank(&text(0x71));
    assert_eq!(
        db.resume(Reply::Store(Some(store(0x71)))),
        Step::Done(Ok(Outcome::RankId(String::new())))
    );
}

#[test]
fn an_empty_list_of_stores_stays_empty_without_a_lookup() {
    let mut db = MongoDB::init();
    assert_eq!(db.validate_store_vec(&vec![]), Step::Done(Ok(Outcome::StoreIds(vec![]))));
}

#[test]
fn stores_are_looked_up_one_by_one_and_kept_in_order() {
    let mut db = MongoDB::init();
    let given = vec![text(3), text(1), "S1".to_string(), text(2), text(3)];
    let step = db.validate_store_vec(&given);
    assert_eq!(step, Step::Ask(Request::FindStore(DocumentKey::from_bytes([3; 12]))));
    let step = db.resume(Reply::Store(Some(store(3))));
    assert_eq!(step, Step::Ask(Request::FindStore(DocumentKey::from_bytes([1; 12]))));
    let step = db.resume(Reply::Store(None));
    assert_eq!(step, Step::Ask(Request::FindStore(DocumentKey::from_bytes([2; 12]))));
    let step = db.resume(Reply::Store(Some(store(2))));
    assert_eq!(step, Step::Ask(Request::FindStore(DocumentKey::from_bytes([3; 12]))));
    let step = db.resume(Reply::Store(Some(store(3))));
    assert_eq!(step, Step::Done(Ok(Outcome::StoreIds(vec![text(3), text(2), text(3)]))));
    assert_eq!(given.len(), 5);
}

#[test]
fn stores_that_are_no_keys_are_dropped_without_a_lookup() {
    let mut db = MongoDB::init();
    let given = vec!["S1".to_string(), String::new(), "S2".to_string()];
    assert_eq!(db.validate_store_vec(&given), Step::Done(Ok(Outcome::StoreIds(vec![]))));
    let given = vec!["S1".to_string(), text(7), "S2".to_string()];
    assert_eq!(
        db.validate_store_vec(&given),
        Step::Ask(Request::FindStore(DocumentKey::from_bytes([7; 12])))
    );
    assert_eq!(
        db.resume(Reply::Store(Some(store(7)))),
        Step::Done(Ok(Outcome::StoreIds(vec![text(7)])))
    );
}

#[test]
fn a_store_whose_lookup_fails_is_dropped() {
    let mut db = MongoDB::init();
    let _ = db.validate_store_vec(&vec![text(1), text(2)]);
    let _ = db.resume(Reply::Failed);
    assert_eq!(
        db.resume(Reply::Store(Some(store(2)))),
        Step::Done(Ok(Outcome::StoreIds(vec![text(2)])))
    );
}

#[test]
fn a_location_that_exists_is_handed_back() {
    let mut db = MongoDB::init();
    let step = db.validate_location(&text(0x31));
    assert_eq!(step, Step::Ask(Request::FindLocation(DocumentKey::from_bytes([0x31; 12]))));
    assert_eq!(
        db.resume(Reply::Location(Some(location(0x31)))),
        Step::Done(Ok(Outcome::LocationOption(Some(location(0x31)))))
    );
}

#[test]
fn a_location_that_does_not_resolve_is_absent() {
    let mut db = MongoDB::init();
    let _ = db.validate_location(&text(0x31));
    assert_eq!(db.resume(Reply::Location(None)), Step::Done(Ok(Outcome::LocationOption(None))));
    let _ = db.validate_location(&text(0x31));
    assert_eq!(db.resume(Reply::Failed), Step::Done(Ok(Outcome::LocationOption(None))));
    assert_eq!(
        db.validate_location(&"L1".to_string()),
        Step::Done(Ok(Outcome::LocationOption(None)))
    );
}

#[test]
fn errors_are_told_apart() {
    assert_ne!(RepoError::InvalidIdentifier, RepoError::NotFound);
    assert_ne!(RepoError::NotFound, RepoError::PersistenceFailure);
    assert_ne!(RepoError::InvalidIdentifier, RepoError::PersistenceFailure);
}
