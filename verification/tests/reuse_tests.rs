use pivot::reuse::{ListenSetup, Reuse, Route, LISTEN_BACKLOG};

fn sample(fallback: Option<&str>) -> Reuse {
    Reuse::new(
        "0.0.0.0:443".to_string(),
        "127.0.0.1:8443".to_string(),
        fallback.map(|s| s.to_string()),
        "203.0.113.7".to_string(),
        None,
    )
}

#[test]
fn reuse_new_keeps_values() {
    let reuse = Reuse::new(
        "a".to_string(),
        "b".to_string(),
        Some("c".to_string()),
        "d".to_string(),
        Some(30),
    );
    assert_eq!(reuse.local_addr, "a");
    assert_eq!(reuse.remote_addr, "b");
    assert_eq!(reuse.fallback_addr, Some("c".to_string()));
    assert_eq!(reuse.external_ip, "d");
    assert_eq!(reuse.timeout, Some(30));
    assert_eq!(reuse.accept_deadline(), Some(30));
}

#[test]
fn external_source_goes_to_primary() {
    let reuse = sample(Some("127.0.0.1:80"));
    assert_eq!(reuse.route("203.0.113.7"), Route::Primary("127.0.0.1:8443".to_string()));
}

#[test]
fn other_source_goes_to_fallback() {
    let reuse = sample(Some("127.0.0.1:80"));
    assert_eq!(reuse.route("203.0.113.8"), Route::Fallback("127.0.0.1:80".to_string()));
    assert_eq!(reuse.route(""), Route::Fallback("127.0.0.1:80".to_string()));
}

#[test]
fn other_source_without_fallback_is_dropped() {
    let reuse = sample(None);
    assert_eq!(reuse.route("198.51.100.1"), Route::Drop);
    assert_eq!(reuse.route("203.0.113.7"), Route::Primary("127.0.0.1:8443".to_string()));
}

#[test]
fn source_is_compared_as_text() {
    let reuse = sample(None);
    assert_eq!(reuse.route("203.0.113.07"), Route::Drop);
    assert_eq!(reuse.route("203.0.113.7 "), Route::Drop);
}

#[test]
fn listener_is_shared_and_queues_128() {
    assert_eq!(LISTEN_BACKLOG, 128);
    assert_eq!(
        Reuse::listen_setup(),
        ListenSetup { reuse_address: true, reuse_port: true, nonblocking: true, backlog: 128 }
    );
}

#[test]
fn no_deadline_without_timeout() {
    assert_eq!(sample(None).accept_deadline(), None);
}
