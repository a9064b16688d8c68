use pivot::socks::{
    advance, dial_reply, domain_target, ipv4_target, negotiate, offers, pass_matches, port_of,
    select_method, user_matches, Answer, AuthInfo, ErrorClass, Next, Phase, Progress, SocksError,
    Step,
};

fn creds(user: &str, pass: &str) -> Option<AuthInfo> {
    Some(AuthInfo { user: user.to_string(), pass: pass.to_string() })
}

fn read(phase: Phase) -> Step {
    Step { reply: vec![], next: Next::Read(phase) }
}

fn fail(error: SocksError) -> Step {
    Step { reply: vec![], next: Next::Fail(error) }
}

#[test]
fn start_phase_expects_two_bytes() {
    assert_eq!(Phase::start(), Phase::Greeting);
    assert_eq!(Phase::start().expects(), 2);
}

#[test]
fn phases_expect_their_frames() {
    assert_eq!(Phase::Methods(0).expects(), 0);
    assert_eq!(Phase::Methods(255).expects(), 255);
    assert_eq!(Phase::AuthHeader.expects(), 2);
    assert_eq!(Phase::AuthUser(0).expects(), 1);
    assert_eq!(Phase::AuthUser(255).expects(), 256);
    assert_eq!(Phase::AuthPass { user_ok: true, len: 7 }.expects(), 7);
    assert_eq!(Phase::Request.expects(), 4);
    assert_eq!(Phase::Ipv4Address.expects(), 6);
    assert_eq!(Phase::DomainLength.expects(), 1);
    assert_eq!(Phase::DomainAddress(0).expects(), 2);
    assert_eq!(Phase::DomainAddress(255).expects(), 257);
}

#[test]
fn greeting_with_version_five_asks_for_methods() {
    assert_eq!(advance(Phase::Greeting, &None, &[0x05, 0x03]), read(Phase::Methods(3)));
}

#[test]
fn greeting_with_other_version_fails() {
    assert_eq!(advance(Phase::Greeting, &None, &[0x04, 0x01]), fail(SocksError::InvalidVersion));
}

#[test]
fn open_proxy_accepts_any_methods() {
    let step = advance(Phase::Methods(2), &None, &[0x01, 0x02]);
    assert_eq!(step, Step { reply: vec![0x05, 0x00], next: Next::Read(Phase::Request) });
    let step = advance(Phase::Methods(0), &None, &[]);
    assert_eq!(step, Step { reply: vec![0x05, 0x00], next: Next::Read(Phase::Request) });
}

#[test]
fn credentials_require_method_two() {
    let auth = creds("user1", "pw1");
    let step = advance(Phase::Methods(2), &auth, &[0x00, 0x01]);
    assert_eq!(
        step,
        Step { reply: vec![0x05, 0xFF], next: Next::Fail(SocksError::NoSupportedMethod) }
    );
    let step = advance(Phase::Methods(2), &auth, &[0x00, 0x02]);
    assert_eq!(step, Step { reply: vec![0x05, 0x02], next: Next::Read(Phase::AuthHeader) });
}

#[test]
fn auth_header_checks_version() {
    let auth = creds("user1", "pw1");
    assert_eq!(advance(Phase::AuthHeader, &auth, &[0x01, 0x05]), read(Phase::AuthUser(5)));
    assert_eq!(
        advance(Phase::AuthHeader, &auth, &[0x05, 0x05]),
        fail(SocksError::InvalidAuthVersion)
    );
}

#[test]
fn matching_credentials_are_accepted() {
    let auth = creds("user1", "pw1");
    let step = advance(Phase::AuthUser(5), &auth, b"user1\x03");
    assert_eq!(step, read(Phase::AuthPass { user_ok: true, len: 3 }));
    let step = advance(Phase::AuthPass { user_ok: true, len: 3 }, &auth, b"pw1");
    assert_eq!(step, Step { reply: vec![0x01, 0x00], next: Next::Read(Phase::Request) });
}

#[test]
fn wrong_password_is_rejected() {
    let auth = creds("user1", "pw1");
    let step = advance(Phase::AuthUser(5), &auth, b"user1\x05");
    assert_eq!(step, read(Phase::AuthPass { user_ok: true, len: 5 }));
    let step = advance(Phase::AuthPass { user_ok: true, len: 5 }, &auth, b"wrong");
    assert_eq!(
        step,
        Step { reply: vec![0x01, 0x01], next: Next::Fail(SocksError::AuthenticationFailed) }
    );
}

#[test]
fn wrong_user_is_rejected_even_with_right_password() {
    let auth = creds("user1", "pw1");
    let step = advance(Phase::AuthUser(5), &auth, b"user2\x03");
    assert_eq!(step, read(Phase::AuthPass { user_ok: false, len: 3 }));
    let step = advance(Phase::AuthPass { user_ok: false, len: 3 }, &auth, b"pw1");
    assert_eq!(
        step,
        Step { reply: vec![0x01, 0x01], next: Next::Fail(SocksError::AuthenticationFailed) }
    );
}

#[test]
fn empty_credentials_match_empty_frames() {
    let auth = creds("", "");
    let step = advance(Phase::AuthUser(0), &auth, &[0x00]);
    assert_eq!(step, read(Phase::AuthPass { user_ok: true, len: 0 }));
    let step = advance(Phase::AuthPass { user_ok: true, len: 0 }, &auth, &[]);
    assert_eq!(step, Step { reply: vec![0x01, 0x00], next: Next::Read(Phase::Request) });
}

#[test]
fn malformed_bytes_are_decoded_with_replacement() {
    // 0xFF is no UTF-8; lossy decoding turns it into U+FFFD.
    let auth = creds("\u{FFFD}", "p");
    let step = advance(Phase::AuthUser(1), &auth, &[0xFF, 0x01]);
    assert_eq!(step, read(Phase::AuthPass { user_ok: true, len: 1 }));
    let auth = creds("x", "p");
    let step = advance(Phase::AuthUser(1), &auth, &[0xFF, 0x01]);
    assert_eq!(step, read(Phase::AuthPass { user_ok: false, len: 1 }));
}

#[test]
fn multibyte_user_name_is_decoded() {
    let auth = creds("é", "ß");
    let step = advance(Phase::AuthUser(2), &auth, &[0xC3, 0xA9, 0x02]);
    assert_eq!(step, read(Phase::AuthPass { user_ok: true, len: 2 }));
    let step = advance(Phase::AuthPass { user_ok: true, len: 2 }, &auth, &[0xC3, 0x9F]);
    assert_eq!(step, Step { reply: vec![0x01, 0x00], next: Next::Read(Phase::Request) });
}

#[test]
fn sub_negotiation_without_credentials_fails() {
    let step = advance(Phase::AuthUser(1), &None, b"a\x01");
    assert_eq!(step, read(Phase::AuthPass { user_ok: false, len: 1 }));
    let step = advance(Phase::AuthPass { user_ok: true, len: 1 }, &None, b"b");
    assert_eq!(
        step,
        Step { reply: vec![0x01, 0x01], next: Next::Fail(SocksError::AuthenticationFailed) }
    );
}

#[test]
fn request_header_is_checked_in_order() {
    assert_eq!(
        advance(Phase::Request, &None, &[0x04, 0x02, 0x00, 0x04]),
        fail(SocksError::InvalidRequest)
    );
    assert_eq!(
        advance(Phase::Request, &None, &[0x05, 0x02, 0x00, 0x01]),
        fail(SocksError::CommandNotSupported)
    );
    assert_eq!(
        advance(Phase::Request, &None, &[0x05, 0x03, 0x00, 0x04]),
        fail(SocksError::CommandNotSupported)
    );
    assert_eq!(advance(Phase::Request, &None, &[0x05, 0x01, 0x00, 0x01]), read(Phase::Ipv4Address));
    assert_eq!(
        advance(Phase::Request, &None, &[0x05, 0x01, 0x00, 0x03]),
        read(Phase::DomainLength)
    );
    assert_eq!(
        advance(Phase::Request, &None, &[0x05, 0x01, 0x00, 0x04]),
        fail(SocksError::Ipv6NotSupported)
    );
    assert_eq!(
        advance(Phase::Request, &None, &[0x05, 0x01, 0x00, 0x02]),
        fail(SocksError::AddressTypeNotSupported)
    );
    assert_eq!(
        advance(Phase::Request, &None, &[0x05, 0x01, 0x00, 0x00]),
        fail(SocksError::AddressTypeNotSupported)
    );
}

#[test]
fn reserved_byte_is_ignored() {
    assert_eq!(advance(Phase::Request, &None, &[0x05, 0x01, 0x7F, 0x01]), read(Phase::Ipv4Address));
}

#[test]
fn ipv4_request_gives_dotted_target() {
    let step = advance(Phase::Ipv4Address, &None, &[127, 0, 0, 1, 0x1F, 0x90]);
    assert_eq!(step, Step { reply: vec![], next: Next::Dial("127.0.0.1:8080".to_string()) });
    let step = advance(Phase::Ipv4Address, &None, &[255, 255, 255, 255, 0xFF, 0xFF]);
    assert_eq!(step, Step { reply: vec![], next: Next::Dial("255.255.255.255:65535".to_string()) });
    let step = advance(Phase::Ipv4Address, &None, &[0, 0, 0, 0, 0, 0]);
    assert_eq!(step, Step { reply: vec![], next: Next::Dial("0.0.0.0:0".to_string()) });
}

#[test]
fn domain_request_gives_named_target() {
    assert_eq!(advance(Phase::DomainLength, &None, &[11]), read(Phase::DomainAddress(11)));
    let step = advance(Phase::DomainAddress(11), &None, b"example.com\x01\xBB");
    assert_eq!(step, Step { reply: vec![], next: Next::Dial("example.com:443".to_string()) });
}

#[test]
fn empty_domain_gives_bare_port() {
    let step = advance(Phase::DomainAddress(0), &None, &[0x00, 0x50]);
    assert_eq!(step, Step { reply: vec![], next: Next::Dial(":80".to_string()) });
}

#[test]
fn malformed_domain_is_decoded_with_replacement() {
    let step = advance(Phase::DomainAddress(3), &None, &[b'a', 0xFF, b'b', 0x00, 0x50]);
    assert_eq!(step, Step { reply: vec![], next: Next::Dial("a\u{FFFD}b:80".to_string()) });
}

#[test]
fn whole_session_without_credentials() {
    let mut phase = Phase::start();
    let frames: [&[u8]; 4] =
        [&[0x05, 0x01], &[0x00], &[0x05, 0x01, 0x00, 0x01], &[10, 0, 0, 7, 0x00, 0x16]];
    let mut written: Vec<u8> = Vec::new();
    let mut target = None;
    for frame in frames {
        assert_eq!(phase.expects(), frame.len());
        let step = advance(phase, &None, frame);
        written.extend_from_slice(&step.reply);
        match step.next {
            Next::Read(next) => phase = next,
            Next::Dial(addr) => target = Some(addr),
            Next::Fail(error) => panic!("unexpected failure {:?}", error),
        }
    }
    assert_eq!(written, vec![0x05, 0x00]);
    assert_eq!(target, Some("10.0.0.7:22".to_string()));
}

#[test]
fn dial_replies_are_fixed() {
    assert_eq!(dial_reply(true), vec![0x05, 0x00, 0x00, 0x01, 0, 0, 0, 0, 0, 0]);
    assert_eq!(dial_reply(false), vec![0x05, 0x04, 0x00, 0x01, 0, 0, 0, 0, 0, 0]);
}

#[test]
fn method_selection() {
    assert_eq!(select_method(false, &[]), 0x00);
    assert_eq!(select_method(false, &[0x02]), 0x00);
    assert_eq!(select_method(true, &[0x02]), 0x02);
    assert_eq!(select_method(true, &[0x00, 0x01, 0x02]), 0x02);
    assert_eq!(select_method(true, &[0x00, 0x01]), 0xFF);
    assert_eq!(select_method(true, &[]), 0xFF);
}

#[test]
fn offered_methods_are_searched() {
    assert!(offers(&[1, 2, 3], 3));
    assert!(offers(&[1, 2, 3], 1));
    assert!(!offers(&[1, 2, 3], 4));
    assert!(!offers(&[], 0));
}

#[test]
fn user_and_password_are_compared_separately() {
    let auth = creds("u", "p");
    assert!(user_matches(&auth, &"u".to_string()));
    assert!(!user_matches(&auth, &"p".to_string()));
    assert!(pass_matches(&auth, &"p".to_string()));
    assert!(!pass_matches(&auth, &"u".to_string()));
    assert!(!user_matches(&None, &"u".to_string()));
    assert!(!pass_matches(&None, &"p".to_string()));
}

#[test]
fn ports_are_big_endian() {
    assert_eq!(port_of(0, 0), 0);
    assert_eq!(port_of(0, 80), 80);
    assert_eq!(port_of(1, 0), 256);
    assert_eq!(port_of(0x1F, 0x90), 8080);
    assert_eq!(port_of(0xFF, 0xFF), 65535);
}

#[test]
fn targets_are_rendered_in_decimal() {
    assert_eq!(ipv4_target(1, 2, 3, 4, 80), "1.2.3.4:80");
    assert_eq!(ipv4_target(192, 168, 100, 9, 10000), "192.168.100.9:10000");
    assert_eq!(domain_target(&"localhost".to_string(), 9), "localhost:9");
    assert_eq!(domain_target(&"a.b".to_string(), 65535), "a.b:65535");
}

#[test]
fn errors_have_class_and_message() {
    assert_eq!(SocksError::InvalidVersion.class(), ErrorClass::InvalidData);
    assert_eq!(SocksError::NoSupportedMethod.class(), ErrorClass::InvalidData);
    assert_eq!(SocksError::InvalidAuthVersion.class(), ErrorClass::InvalidData);
    assert_eq!(SocksError::InvalidRequest.class(), ErrorClass::InvalidData);
    assert_eq!(SocksError::AuthenticationFailed.class(), ErrorClass::PermissionDenied);
    assert_eq!(SocksError::CommandNotSupported.class(), ErrorClass::Unsupported);
    assert_eq!(SocksError::Ipv6NotSupported.class(), ErrorClass::Unsupported);
    assert_eq!(SocksError::AddressTypeNotSupported.class(), ErrorClass::Unsupported);
    assert_eq!(SocksError::InvalidVersion.message(), "Invalid SOCKS5 protocol version");
    assert_eq!(SocksError::NoSupportedMethod.message(), "No supported authentication method");
    assert_eq!(SocksError::InvalidAuthVersion.message(), "Invalid authentication version");
    assert_eq!(SocksError::AuthenticationFailed.message(), "Authentication failed");
    assert_eq!(SocksError::InvalidRequest.message(), "Invalid SOCKS5 request");
    assert_eq!(SocksError::CommandNotSupported.message(), "Only CONNECT command supported");
    assert_eq!(SocksError::Ipv6NotSupported.message(), "IPv6 address not supported");
    assert_eq!(SocksError::AddressTypeNotSupported.message(), "Unsupported address type");
}

#[test]
fn credentials_split_at_first_colon() {
    let auth = AuthInfo::new("user1:pw1".to_string());
    assert_eq!(auth, AuthInfo { user: "user1".to_string(), pass: "pw1".to_string() });
    let auth = AuthInfo::new("a:b:c".to_string());
    assert_eq!(auth, AuthInfo { user: "a".to_string(), pass: "b:c".to_string() });
    let auth = AuthInfo::new(":".to_string());
    assert_eq!(auth, AuthInfo { user: "".to_string(), pass: "".to_string() });
    let auth = AuthInfo::new("é:ß".to_string());
    assert_eq!(auth, AuthInfo { user: "é".to_string(), pass: "ß".to_string() });
}

#[test]
fn credentials_without_colon_are_generated() {
    for arg in ["random", "", "x"] {
        let auth = AuthInfo::new(arg.to_string());
        assert_eq!(auth.user.len(), 12);
        assert_eq!(auth.pass.len(), 12);
        assert!(auth.user.chars().all(|c| c.is_ascii_alphanumeric()));
        assert!(auth.pass.chars().all(|c| c.is_ascii_alphanumeric()));
    }
}

#[test]
fn credentials_clone_keeps_both_parts() {
    let auth = AuthInfo { user: "u".to_string(), pass: "p".to_string() };
    assert_eq!(auth.clone(), auth);
}

#[test]
fn buffered_session_with_credentials_reaches_dial() {
    let auth = creds("user1", "pw1");
    let mut stream: Vec<u8> = vec![0x05, 0x02, 0x00, 0x02];
    stream.extend_from_slice(&[0x01, 0x05]);
    stream.extend_from_slice(b"user1");
    stream.push(0x03);
    stream.extend_from_slice(b"pw1");
    stream.extend_from_slice(&[0x05, 0x01, 0x00, 0x03, 0x09]);
    stream.extend_from_slice(b"localhost");
    stream.extend_from_slice(&[0x00, 0x50]);
    let used = stream.len();
    stream.extend_from_slice(b"GET / HTTP/1.0");
    assert_eq!(
        negotiate(&auth, &stream),
        Answer {
            written: vec![0x05, 0x02, 0x01, 0x00],
            consumed: used,
            progress: Progress::Dial("localhost:80".to_string()),
        }
    );
}

#[test]
fn buffered_session_with_wrong_password_fails() {
    let auth = creds("user1", "pw1");
    let mut stream: Vec<u8> = vec![0x05, 0x01, 0x02, 0x01, 0x05];
    stream.extend_from_slice(b"user1");
    stream.push(0x03);
    stream.extend_from_slice(b"pw2");
    stream.extend_from_slice(&[0x05, 0x01, 0x00, 0x01, 1, 2, 3, 4, 0, 80]);
    assert_eq!(
        negotiate(&auth, &stream),
        Answer {
            written: vec![0x05, 0x02, 0x01, 0x01],
            consumed: 14,
            progress: Progress::Fail(SocksError::AuthenticationFailed),
        }
    );
}

#[test]
fn buffered_session_without_method_two_is_refused() {
    let auth = creds("user1", "pw1");
    assert_eq!(
        negotiate(&auth, &[0x05, 0x01, 0x00, 0x05, 0x01, 0x00, 0x01]),
        Answer {
            written: vec![0x05, 0xFF],
            consumed: 3,
            progress: Progress::Fail(SocksError::NoSupportedMethod),
        }
    );
}

#[test]
fn buffered_session_waits_for_incomplete_frames() {
    assert_eq!(
        negotiate(&None, &[]),
        Answer { written: vec![], consumed: 0, progress: Progress::Waiting(Phase::Greeting) }
    );
    assert_eq!(
        negotiate(&None, &[0x05]),
        Answer { written: vec![], consumed: 0, progress: Progress::Waiting(Phase::Greeting) }
    );
    assert_eq!(
        negotiate(&None, &[0x05, 0x02, 0x00]),
        Answer { written: vec![], consumed: 2, progress: Progress::Waiting(Phase::Methods(2)) }
    );
    assert_eq!(
        negotiate(&None, &[0x05, 0x01, 0x00, 0x05, 0x01]),
        Answer { written: vec![0x05, 0x00], consumed: 3, progress: Progress::Waiting(Phase::Request) }
    );
    assert_eq!(
        negotiate(&None, &[0x05, 0x01, 0x00, 0x05, 0x01, 0x00, 0x01, 10, 0]),
        Answer {
            written: vec![0x05, 0x00],
            consumed: 7,
            progress: Progress::Waiting(Phase::Ipv4Address),
        }
    );
}

#[test]
fn buffered_session_without_methods_still_opens() {
    assert_eq!(
        negotiate(&None, &[0x05, 0x00, 0x05, 0x01, 0x00, 0x01, 10, 0, 0, 1, 0x01, 0xBB]),
        Answer {
            written: vec![0x05, 0x00],
            consumed: 12,
            progress: Progress::Dial("10.0.0.1:443".to_string()),
        }
    );
}

#[test]
fn buffered_session_fails_on_bad_version() {
    assert_eq!(
        negotiate(&None, &[0x04, 0x01, 0x00]),
        Answer {
            written: vec![],
            consumed: 2,
            progress: Progress::Fail(SocksError::InvalidVersion),
        }
    );
}
