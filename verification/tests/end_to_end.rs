use authkv::channel::{BoundedQueue, Broadcaster};
use authkv::crypto::verify_put;
use authkv::dispatcher::{drain_step, process_request};
use authkv::messages::{
    DhtRequest, DhtResponse, Entry, ErrorCode, GetRecordRequest, PutRecordRequest,
};
use authkv::store::MemStore;
use secp256k1::{Message, PublicKey, Secp256k1, SecretKey};

fn keypair(byte: u8) -> (SecretKey, PublicKey) {
    let secp = Secp256k1::new();
    let sk = SecretKey::from_byte_array([byte; 32]).expect("valid secret key bytes");
    let pk = PublicKey::from_secret_key(&secp, &sk);
    (sk, pk)
}

fn sign_name(sk: &SecretKey, pk: &PublicKey, name: &str) -> String {
    let secp = Secp256k1::new();
    let digest = <secp256k1::hashes::sha256::Hash as secp256k1::hashes::Hash>::hash(
        format!("{}/{}", pk, name).as_bytes(),
    );
    let msg = Message::from_digest(
        <secp256k1::hashes::sha256::Hash as secp256k1::hashes::Hash>::to_byte_array(digest),
    );
    secp.sign_ecdsa(msg, sk).to_string()
}

fn put_request(name: &str, content: &str, signature: &str, pk: &PublicKey) -> DhtRequest {
    DhtRequest::PutRecord(PutRecordRequest {
        entry: Entry { name: name.to_string(), content: content.to_string() },
        signature: signature.to_string(),
        public_key: pk.to_string(),
    })
}

fn get_request(location: &str) -> DhtRequest {
    DhtRequest::GetRecord(GetRecordRequest { location: location.to_string() })
}

#[test]
fn valid_signature_verifies() {
    let (sk, pk) = keypair(1);
    let entry = Entry { name: "doc1".to_string(), content: "hello".to_string() };
    let sig = sign_name(&sk, &pk, "doc1");
    assert!(verify_put(&entry, &sig, &pk.to_string()));
}

#[test]
fn signature_by_other_key_fails() {
    let (other_sk, other_pk) = keypair(2);
    let (_, claimed_pk) = keypair(3);
    let entry = Entry { name: "doc1".to_string(), content: "hello".to_string() };
    let sig = sign_name(&other_sk, &other_pk, "doc1");
    assert!(!verify_put(&entry, &sig, &claimed_pk.to_string()));
}

#[test]
fn signature_over_other_name_fails() {
    let (sk, pk) = keypair(4);
    let entry = Entry { name: "doc1".to_string(), content: "hello".to_string() };
    let sig = sign_name(&sk, &pk, "doc2");
    assert!(!verify_put(&entry, &sig, &pk.to_string()));
}

#[test]
fn rejected_put_writes_nothing() {
    let (sk, pk) = keypair(5);
    let sig = sign_name(&sk, &pk, "doc-other");
    let mut store = MemStore::new();
    let resp = process_request(put_request("doc1", "hello", &sig, &pk), &mut store);
    match resp {
        DhtResponse::PutRecord(pr) => {
            assert_eq!(pr.key.unwrap(), format!("e_{}", sig));
            let (code, msg) = pr.error.unwrap();
            assert_eq!(code, ErrorCode::Unauthenticated);
            assert_eq!(msg, "Invalid signature");
        },
        DhtResponse::GetRecord(_) => panic!("expected a put response"),
    }
    let get_resp = process_request(get_request(&format!("e_{}", sig)), &mut store);
    match get_resp {
        DhtResponse::GetRecord(gr) => {
            assert!(gr.entry.is_none());
            assert_eq!(gr.error.unwrap(), "Record not found");
        },
        DhtResponse::PutRecord(_) => panic!("expected a get response"),
    }
}

#[test]
fn put_then_get_round_trip() {
    let (sk, pk) = keypair(6);
    let sig = sign_name(&sk, &pk, "doc1");
    let mut store = MemStore::new();
    let put_resp = process_request(put_request("doc1", "the payload", &sig, &pk), &mut store);
    match put_resp {
        DhtResponse::PutRecord(pr) => {
            assert!(pr.error.is_none());
            assert_eq!(pr.key.unwrap(), format!("e_{}", sig));
        },
        DhtResponse::GetRecord(_) => panic!("expected a put response"),
    }
    let get_resp = process_request(get_request(&format!("e_{}", sig)), &mut store);
    match get_resp {
        DhtResponse::GetRecord(gr) => {
            assert!(gr.error.is_none());
            let entry = gr.entry.unwrap();
            assert_eq!(entry.name, "doc1");
            assert_eq!(entry.content, "the payload");
        },
        DhtResponse::PutRecord(_) => panic!("expected a get response"),
    }
}

#[test]
fn put_twice_is_idempotent() {
    let (sk, pk) = keypair(7);
    let sig = sign_name(&sk, &pk, "doc1");
    let mut store = MemStore::new();
    let mut keys: Vec<String> = Vec::new();
    for _ in 0..2 {
        let resp = process_request(put_request("doc1", "same bytes", &sig, &pk), &mut store);
        match resp {
            DhtResponse::PutRecord(pr) => {
                assert!(pr.error.is_none());
                keys.push(pr.key.unwrap());
            },
            DhtResponse::GetRecord(_) => panic!("expected a put response"),
        }
    }
    assert_eq!(keys[0], keys[1]);
    let get_resp = process_request(get_request(&keys[0]), &mut store);
    match get_resp {
        DhtResponse::GetRecord(gr) => {
            let entry = gr.entry.unwrap();
            assert_eq!(entry.name, "doc1");
            assert_eq!(entry.content, "same bytes");
        },
        DhtResponse::PutRecord(_) => panic!("expected a get response"),
    }
}

#[test]
fn get_on_missing_location_reports_not_found() {
    let mut store = MemStore::new();
    let resp = process_request(get_request("nobody-wrote-here"), &mut store);
    match resp {
        DhtResponse::GetRecord(gr) => {
            assert!(gr.entry.is_none());
            assert_eq!(gr.error.unwrap(), "Record not found");
        },
        DhtResponse::PutRecord(_) => panic!("expected a get response"),
    }
}

#[test]
fn malformed_signature_string_is_rejected() {
    let (_, pk) = keypair(8);
    let mut store = MemStore::new();
    let resp = process_request(put_request("doc1", "hello", "not-a-signature", &pk), &mut store);
    match resp {
        DhtResponse::PutRecord(pr) => {
            assert_eq!(pr.key.unwrap(), "e_not-a-signature");
            let (code, msg) = pr.error.unwrap();
            assert_eq!(code, ErrorCode::Unauthenticated);
            assert_eq!(msg, "Invalid signature");
        },
        DhtResponse::GetRecord(_) => panic!("expected a put response"),
    }
}

#[test]
fn distinct_puts_each_get_one_response_and_coexist() {
    let (sk, pk) = keypair(9);
    let names = ["doc1", "doc2", "doc3"];
    let mut queue: BoundedQueue<DhtRequest> = BoundedQueue::new(32);
    let mut store = MemStore::new();
    let mut broadcaster = Broadcaster::new(32);
    let sub = broadcaster.subscribe();
    let mut signatures: Vec<String> = Vec::new();
    for name in names.iter() {
        let sig = sign_name(&sk, &pk, name);
        assert!(queue.try_enqueue(put_request(name, "payload", &sig, &pk)).is_ok());
        signatures.push(sig);
    }
    while drain_step(&mut queue, &mut store, &mut broadcaster) {}
    let mut keys: Vec<String> = Vec::new();
    loop {
        match broadcaster.recv(sub) {
            Some(DhtResponse::PutRecord(pr)) => {
                assert!(pr.error.is_none());
                keys.push(pr.key.unwrap());
            },
            Some(DhtResponse::GetRecord(_)) => panic!("expected put responses"),
            None => break,
        }
    }
    assert_eq!(keys.len(), 3);
    for (i, sig) in signatures.iter().enumerate() {
        assert_eq!(keys[i], format!("e_{}", sig));
        for j in 0..i {
            assert_ne!(keys[i], keys[j]);
        }
        let resp = process_request(get_request(&keys[i]), &mut store);
        match resp {
            DhtResponse::GetRecord(gr) => {
                let entry = gr.entry.unwrap();
                assert_eq!(entry.name, names[i]);
                assert_eq!(entry.content, "payload");
            },
            DhtResponse::PutRecord(_) => panic!("expected a get response"),
        }
    }
}
