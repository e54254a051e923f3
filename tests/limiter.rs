use std::collections::HashMap;

use redis_rate::api::{byte_text, Res, OK};
use redis_rate::future::ExampleFuture;
use redis_rate::identity::{extract_identity, AuthMethod, ExtractionError};
use redis_rate::limiter::{
    rejection_status, Decision, RateLimiter, RedisLayer, BAD_REQUEST, TOO_MANY_REQUESTS,
};

/// A counter store in memory: the value of each key and the second at which
/// it expires, with the same increment and expiry semantics as the real one.
struct MemoryStore {
    counters: HashMap<String, (i64, Option<i64>)>,
}

impl MemoryStore {
    fn new() -> Self {
        MemoryStore { counters: HashMap::new() }
    }

    fn incr(&mut self, key: &str, now: i64) -> i64 {
        let live = match self.counters.get(key) {
            Some((_, Some(at))) => now < *at,
            Some((_, None)) => true,
            None => false,
        };
        let entry = if live {
            let (c, at) = self.counters[key];
            (c + 1, at)
        } else {
            (1, None)
        };
        self.counters.insert(key.to_string(), entry);
        entry.0
    }

    fn expire(&mut self, key: &str, now: i64, ttl: i64) {
        if let Some(e) = self.counters.get_mut(key) {
            e.1 = Some(now + ttl);
        }
    }

    fn get(&self, key: &str) -> Option<i64> {
        self.counters.get(key).map(|e| e.0)
    }
}

/// Serves one request from `key` at second `now` against `store`.
fn serve(limiter: &RateLimiter<()>, store: &mut MemoryStore, key: &str, now: i64) -> Decision {
    let count = store.incr(key, now);
    let verdict = limiter.judge(Some(count));
    if verdict.set_expiry {
        store.expire(key, now, limiter.ttl as i64);
    }
    verdict.decision
}

fn limiter(ttl: i32, limit: i32) -> RateLimiter<()> {
    RedisLayer::new(ttl, AuthMethod::Basic, limit).layer(())
}

#[test]
fn six_requests_limit_five() {
    let l = limiter(60, 5);
    let mut store = MemoryStore::new();
    let got: Vec<Decision> = (0..6).map(|_| serve(&l, &mut store, "10.0.0.1", 0)).collect();
    assert_eq!(
        got,
        vec![
            Decision::Admit,
            Decision::Admit,
            Decision::Admit,
            Decision::Admit,
            Decision::Admit,
            Decision::Deny
        ]
    );
    assert_eq!(rejection_status(&Ok(got[5])), Some(TOO_MANY_REQUESTS));
    assert_eq!(store.get("10.0.0.1"), Some(6));
}

#[test]
fn judge_replies_in_order() {
    let l = limiter(60, 5);
    for count in 1..=5i64 {
        let v = l.judge(Some(count));
        assert_eq!(v.decision, Decision::Admit);
        assert_eq!(v.set_expiry, count == 1);
    }
    let v = l.judge(Some(6));
    assert_eq!(v.decision, Decision::Deny);
    assert!(!v.set_expiry);
}

#[test]
fn credential_missing_is_bad_request() {
    let r = extract_identity(AuthMethod::Bearer, Some("10.0.0.1".to_string()), None);
    assert_eq!(r, Err(ExtractionError::MissingCredential));
    let outcome: Result<Decision, ExtractionError> = r.map(|_| Decision::Admit);
    assert_eq!(rejection_status(&outcome), Some(BAD_REQUEST));
}

#[test]
fn under_limit_all_admitted() {
    let l = limiter(60, 3);
    let mut store = MemoryStore::new();
    for t in [0, 10, 59] {
        assert_eq!(serve(&l, &mut store, "a", t), Decision::Admit);
    }
}

#[test]
fn over_limit_first_admitted_rest_denied() {
    let l = limiter(60, 2);
    let mut store = MemoryStore::new();
    let got: Vec<Decision> = (0..5).map(|t| serve(&l, &mut store, "a", t)).collect();
    assert_eq!(
        got,
        vec![Decision::Admit, Decision::Admit, Decision::Deny, Decision::Deny, Decision::Deny]
    );
}

#[test]
fn expired_window_restarts_at_one() {
    let l = limiter(60, 1);
    let mut store = MemoryStore::new();
    assert_eq!(serve(&l, &mut store, "a", 0), Decision::Admit);
    assert_eq!(serve(&l, &mut store, "a", 30), Decision::Deny);
    assert_eq!(serve(&l, &mut store, "a", 60), Decision::Admit);
    assert_eq!(store.get("a"), Some(1));
}

#[test]
fn identities_independent() {
    let l = limiter(60, 1);
    let mut store = MemoryStore::new();
    assert_eq!(serve(&l, &mut store, "a", 0), Decision::Admit);
    assert_eq!(serve(&l, &mut store, "a", 1), Decision::Deny);
    assert_eq!(serve(&l, &mut store, "b", 2), Decision::Admit);
    assert_eq!(store.get("a"), Some(2));
    assert_eq!(store.get("b"), Some(1));
}

#[test]
fn denied_retry_stays_denied() {
    let l = limiter(60, 2);
    let mut store = MemoryStore::new();
    for t in 0..2 {
        assert_eq!(serve(&l, &mut store, "a", t), Decision::Admit);
    }
    for t in 2..50 {
        assert_eq!(serve(&l, &mut store, "a", t), Decision::Deny);
    }
}

#[test]
fn unreachable_store_fail_closed() {
    let l = limiter(60, 5);
    assert!(!l.fail_open);
    assert_eq!(l.judge(None).decision, Decision::Deny);
    assert!(!l.judge(None).set_expiry);
}

#[test]
fn unreachable_store_fail_open() {
    let l = RedisLayer::new(60, AuthMethod::Basic, 0).with_fail_open(true).layer(());
    assert_eq!(l.judge(None).decision, Decision::Admit);
    assert_eq!(l.judge(Some(1)).decision, Decision::Deny);
    assert_eq!(rejection_status(&Ok(Decision::Admit)), None);
}

#[test]
fn address_identity() {
    assert_eq!(
        extract_identity(AuthMethod::Basic, Some("10.0.0.1".to_string()), None),
        Ok("10.0.0.1".to_string())
    );
    assert_eq!(
        extract_identity(AuthMethod::Basic, None, Some(b"t".to_vec())),
        Err(ExtractionError::MissingConnectionInfo)
    );
    assert_eq!(
        extract_identity(AuthMethod::Basic, Some(String::new()), None),
        Err(ExtractionError::MissingConnectionInfo)
    );
}

#[test]
fn credential_identity() {
    assert_eq!(
        extract_identity(AuthMethod::Bearer, None, Some(b"Bearer abc\t1".to_vec())),
        Ok("Bearer abc\t1".to_string())
    );
    assert_eq!(
        extract_identity(AuthMethod::Bearer, None, Some(vec![b'a', 1, b'b'])),
        Err(ExtractionError::MalformedCredential)
    );
    assert_eq!(
        extract_identity(AuthMethod::Bearer, None, Some(vec![b'a', 0xc3, 0xa9])),
        Err(ExtractionError::MalformedCredential)
    );
    assert_eq!(
        extract_identity(AuthMethod::Bearer, None, Some(Vec::new())),
        Err(ExtractionError::MissingCredential)
    );
}

#[test]
fn limiter_identify_uses_method() {
    let l = RateLimiter::new(60, AuthMethod::Bearer, 5, ());
    assert_eq!(l.identify(Some("1.2.3.4".to_string()), Some(b"tok".to_vec())), Ok("tok".to_string()));
    let l = RateLimiter::new(60, AuthMethod::Basic, 5, ());
    assert_eq!(l.identify(Some("1.2.3.4".to_string()), Some(b"tok".to_vec())), Ok("1.2.3.4".to_string()));
}

#[test]
fn layer_carries_configuration() {
    let layer = RedisLayer::new(60, AuthMethod::Basic, 5);
    assert_eq!((layer.ttl, layer.method, layer.req_limit, layer.fail_open), (60, AuthMethod::Basic, 5, false));
    let l = layer.with_fail_open(true).layer(7u8);
    assert_eq!((l.ttl, l.method, l.limit, l.fail_open, l.inner), (60, AuthMethod::Basic, 5, true, 7u8));
}

#[test]
fn decimal_text_of_bytes() {
    assert_eq!(byte_text(0), "0");
    assert_eq!(byte_text(7), "7");
    assert_eq!(byte_text(42), "42");
    assert_eq!(byte_text(100), "100");
    assert_eq!(byte_text(255), "255");
}

#[test]
fn responses() {
    let r = Res::from_byte(93);
    assert_eq!((r.status, r.body.as_str()), (OK, "93"));
    let r = Res::new(404, "x".to_string());
    assert_eq!((r.status, r.body.as_str()), (404, "x"));
    let r = Res::random_response();
    assert_eq!(r.status, 200);
    let n: u32 = r.body.parse().unwrap();
    assert!(n < 256);
    assert_eq!(byte_text(n as u8), r.body);
}

#[test]
fn example_future_holds_inner() {
    let f = ExampleFuture::new(5u32);
    assert_eq!(f.response_future, 5);
}
