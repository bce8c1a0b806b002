use authkv::codec::{decode_entry, encode_entry};
use authkv::dispatcher::{complete_put, complete_get};
use authkv::keys::{derive_read_key, derive_write_key};
use authkv::messages::{Entry, ErrorCode};
use authkv::store::MemStore;

#[test]
fn write_key_is_tagged_signature() {
    let key = derive_write_key(&"abc123".to_string());
    assert_eq!(key, "e_abc123");
}

#[test]
fn write_key_deterministic() {
    let s = "3045022100aa".to_string();
    assert_eq!(derive_write_key(&s), derive_write_key(&s));
}

#[test]
fn write_keys_distinct_for_distinct_signatures() {
    let k1 = derive_write_key(&"sig-one".to_string());
    let k2 = derive_write_key(&"sig-two".to_string());
    assert_ne!(k1, k2);
}

#[test]
fn read_key_is_location() {
    let key = derive_read_key(&"some/location".to_string());
    assert_eq!(key, "some/location");
}

#[test]
fn encode_has_hex_length_prefix() {
    let entry = Entry { name: "doc1".to_string(), content: "hello".to_string() };
    let encoded = encode_entry(&entry);
    assert_eq!(encoded, "00000004doc1hello");
}

#[test]
fn codec_round_trip() {
    let entry = Entry { name: "doc1".to_string(), content: "payload with / chars".to_string() };
    let decoded = decode_entry(&encode_entry(&entry)).unwrap();
    assert_eq!(decoded.name, "doc1");
    assert_eq!(decoded.content, "payload with / chars");
}

#[test]
fn codec_round_trip_empty() {
    let entry = Entry { name: "".to_string(), content: "".to_string() };
    let decoded = decode_entry(&encode_entry(&entry)).unwrap();
    assert_eq!(decoded.name, "");
    assert_eq!(decoded.content, "");
}

#[test]
fn decode_rejects_short_value() {
    assert!(decode_entry(&"0000".to_string()).is_none());
}

#[test]
fn decode_rejects_bad_prefix() {
    assert!(decode_entry(&"zzzzzzzzrest".to_string()).is_none());
}

#[test]
fn decode_rejects_truncated_name() {
    assert!(decode_entry(&"00000005ab".to_string()).is_none());
}

#[test]
fn memstore_put_get_overwrite() {
    let mut store = MemStore::new();
    assert!(store.get(&"k".to_string()).is_none());
    store.put("k".to_string(), "v1".to_string());
    assert_eq!(store.get(&"k".to_string()).unwrap(), "v1");
    store.put("k".to_string(), "v2".to_string());
    assert_eq!(store.get(&"k".to_string()).unwrap(), "v2");
    assert!(store.get(&"other".to_string()).is_none());
}

#[test]
fn store_failure_is_reported_on_put() {
    let resp = complete_put("e_sig".to_string(), Err("routing timeout".to_string()));
    assert_eq!(resp.key.unwrap(), "e_sig");
    let (code, msg) = resp.error.unwrap();
    assert_eq!(code, ErrorCode::Unknown);
    assert_eq!(msg, "routing timeout");
}

#[test]
fn store_failure_is_reported_on_get() {
    let resp = complete_get(Err("no route to key".to_string()));
    assert!(resp.entry.is_none());
    assert_eq!(resp.error.unwrap(), "no route to key");
}

#[test]
fn malformed_record_is_reported_on_get() {
    let resp = complete_get(Ok("not a record".to_string()));
    assert!(resp.entry.is_none());
    assert_eq!(resp.error.unwrap(), "Malformed record");
}
