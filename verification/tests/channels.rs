use authkv::channel::{BoundedQueue, Broadcaster};
use authkv::messages::{DhtResponse, PutRecordResponse};

fn put_response(key: &str) -> DhtResponse {
    DhtResponse::PutRecord(PutRecordResponse { key: Some(key.to_string()), error: None })
}

fn key_of(resp: &DhtResponse) -> String {
    match resp {
        DhtResponse::PutRecord(pr) => pr.key.clone().unwrap(),
        DhtResponse::GetRecord(_) => panic!("expected a put response"),
    }
}

#[test]
fn queue_is_fifo() {
    let mut q: BoundedQueue<u32> = BoundedQueue::new(4);
    assert!(q.try_enqueue(1).is_ok());
    assert!(q.try_enqueue(2).is_ok());
    assert!(q.try_enqueue(3).is_ok());
    assert_eq!(q.dequeue(), Some(1));
    assert_eq!(q.dequeue(), Some(2));
    assert_eq!(q.dequeue(), Some(3));
    assert_eq!(q.dequeue(), None);
}

#[test]
fn queue_refuses_when_full() {
    let mut q: BoundedQueue<u32> = BoundedQueue::new(2);
    assert!(q.try_enqueue(10).is_ok());
    assert!(q.try_enqueue(20).is_ok());
    assert_eq!(q.try_enqueue(30), Err(30));
    assert_eq!(q.dequeue(), Some(10));
    assert!(q.try_enqueue(30).is_ok());
}

#[test]
fn broadcaster_fans_out_to_every_subscriber() {
    let mut b = Broadcaster::new(8);
    let first = b.subscribe();
    let second = b.subscribe();
    b.publish(&put_response("e_sig"));
    let r1 = b.recv(first).unwrap();
    let r2 = b.recv(second).unwrap();
    assert_eq!(key_of(&r1), "e_sig");
    assert_eq!(key_of(&r2), "e_sig");
    assert!(b.recv(first).is_none());
    assert!(b.recv(second).is_none());
}

#[test]
fn broadcaster_drops_oldest_on_overflow() {
    let mut b = Broadcaster::new(1);
    let sub = b.subscribe();
    b.publish(&put_response("e_first"));
    b.publish(&put_response("e_second"));
    let got = b.recv(sub).unwrap();
    assert_eq!(key_of(&got), "e_second");
    assert!(b.recv(sub).is_none());
}

#[test]
fn late_subscriber_sees_only_later_responses() {
    let mut b = Broadcaster::new(8);
    let early = b.subscribe();
    b.publish(&put_response("e_before"));
    let late = b.subscribe();
    b.publish(&put_response("e_after"));
    assert_eq!(key_of(&b.recv(early).unwrap()), "e_before");
    assert_eq!(key_of(&b.recv(early).unwrap()), "e_after");
    assert_eq!(key_of(&b.recv(late).unwrap()), "e_after");
    assert!(b.recv(late).is_none());
}
