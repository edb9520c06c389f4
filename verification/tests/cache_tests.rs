use querycache::cache::{insert, insert_at, select, select_at};
use querycache::digits::i64_to_string;
use querycache::error::CacheError;
use querycache::ledger;
use querycache::store::init_db_in_memory;
use querycache::token::Token;

#[test]
fn codec_round_trip() {
    let data: Vec<u8> = b"{\"wipes\":4,\"boss\":\"anub\"}".to_vec();
    let encoded = querycache::codec::encode_payload(&data).unwrap();
    let decoded = querycache::codec::decode_payload(encoded).unwrap();
    assert_eq!(decoded, data);
}

#[test]
fn codec_round_trip_of_empty_input() {
    let data: Vec<u8> = Vec::new();
    let encoded = querycache::codec::encode_payload(&data).unwrap();
    let decoded = querycache::codec::decode_payload(encoded).unwrap();
    assert_eq!(decoded, data);
}

#[test]
fn codec_compresses_repetitive_input() {
    let data: Vec<u8> = vec![0u8; 4096];
    let encoded = querycache::codec::encode_payload(&data).unwrap();
    assert!(encoded.len() < data.len());
    let decoded = querycache::codec::decode_payload(encoded).unwrap();
    assert_eq!(decoded, data);
}

#[test]
fn codec_rejects_empty_payload() {
    let r = querycache::codec::decode_payload(Vec::new());
    assert!(matches!(r, Err(CacheError::Payload)));
}

#[test]
fn codec_rejects_untagged_payload() {
    let r = querycache::codec::decode_payload(vec![0u8, 1, 2, 3]);
    assert!(matches!(r, Err(CacheError::Payload)));
}

#[test]
fn codec_rejects_broken_stream() {
    // right tag, but the rest is no gzip stream
    let r = querycache::codec::decode_payload(vec![1u8, 2, 3, 4]);
    assert!(matches!(r, Err(CacheError::Codec(_))));
}

#[test]
fn insert_then_select_returns_value() {
    let mut s = init_db_in_memory().unwrap();
    let key = String::from("boss_kill_123");
    let report = serde_json::to_vec(&4i64).unwrap();
    insert_at(&mut s, &key, &report, 100).unwrap();
    let resp = select_at(&mut s, &key, 200).unwrap();
    assert_eq!(resp.response, report);
    let wipes: i64 = serde_json::from_slice(&resp.response).unwrap();
    assert_eq!(wipes, 4);
    // hits-after-read is 1, and the timestamps follow the two calls
    let rec = ledger::resolve(&s, &key).unwrap();
    assert_eq!(rec.hits, 1);
    assert_eq!(rec.time_first_request, 100);
    assert_eq!(rec.time_last_request, 200);
    assert_eq!(rec.id, resp.id);
}

#[test]
fn select_of_unknown_key_is_a_miss() {
    let mut s = init_db_in_memory().unwrap();
    let key = String::from("never_seen");
    let r = select_at(&mut s, &key, 50);
    match r {
        Err(CacheError::NoResponseCache(k)) => assert_eq!(k, "never_seen"),
        _ => panic!("expected a miss"),
    }
}

#[test]
fn duplicate_insert_last_wins() {
    let mut s = init_db_in_memory().unwrap();
    let key = String::from("boss_kill_123");
    let first = serde_json::to_vec(&1i64).unwrap();
    let second = serde_json::to_vec(&2i64).unwrap();
    insert_at(&mut s, &key, &first, 10).unwrap();
    insert_at(&mut s, &key, &second, 20).unwrap();
    let resp = select_at(&mut s, &key, 30).unwrap();
    assert_eq!(resp.response, second);
}

#[test]
fn orphan_fetch_is_a_miss_with_the_id() {
    let mut s = init_db_in_memory().unwrap();
    let key = String::from("ledger_only");
    // a ledger row without its vault row: the first id a fresh store assigns is 1
    ledger::insert(&mut s, &key, 5).unwrap();
    let r = select_at(&mut s, &key, 6);
    match r {
        Err(CacheError::NoResponseCache(k)) => assert_eq!(k, "1"),
        _ => panic!("expected a miss carrying the stringified id"),
    }
}

#[test]
fn hits_grow_by_one_per_read_and_times_stay_ordered() {
    let mut s = init_db_in_memory().unwrap();
    let key = String::from("counted");
    let v = serde_json::to_vec(&true).unwrap();
    insert_at(&mut s, &key, &v, 100).unwrap();
    select_at(&mut s, &key, 150).unwrap();
    let rec = ledger::resolve(&s, &key).unwrap();
    assert_eq!(rec.hits, 1);
    assert_eq!(rec.time_last_request, 150);
    select_at(&mut s, &key, 170).unwrap();
    let rec = ledger::resolve(&s, &key).unwrap();
    assert_eq!(rec.hits, 2);
    assert_eq!(rec.time_last_request, 170);
    // a clock that jumped backwards does not reorder the record's times
    select_at(&mut s, &key, 40).unwrap();
    let rec = ledger::resolve(&s, &key).unwrap();
    assert_eq!(rec.hits, 3);
    assert_eq!(rec.time_last_request, 170);
    assert!(rec.time_first_request <= rec.time_last_request);
}

#[test]
fn wall_clock_insert_and_select_round_trip() {
    let mut s = init_db_in_memory().unwrap();
    let key = String::from("clocked");
    let v = serde_json::to_vec(&vec![1i64, 2, 3]).unwrap();
    insert(&mut s, &key, &v).unwrap();
    let resp = select(&mut s, &key).unwrap();
    assert_eq!(resp.response, v);
    let back: Vec<i64> = serde_json::from_slice(&resp.response).unwrap();
    assert_eq!(back, vec![1, 2, 3]);
}

#[test]
fn token_renders_type_then_token() {
    let t = Token {
        access_token: String::from("abcdef"),
        token_type: String::from("Bearer"),
        expires_in: 3600,
        expires_at_secs: 1_700_000_000,
    };
    assert_eq!(t.render(), "Bearer abcdef");
}

#[test]
fn decimal_rendering_of_ids() {
    assert_eq!(i64_to_string(0), "0");
    assert_eq!(i64_to_string(42), "42");
    assert_eq!(i64_to_string(-123), "-123");
    assert_eq!(i64_to_string(i64::MAX), "9223372036854775807");
    assert_eq!(i64_to_string(i64::MIN), "-9223372036854775808");
}
