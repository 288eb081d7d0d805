use remote_signer::command::{parse_command, ParsedCommand};
use remote_signer::error::ErrorKind;
use remote_signer::event::Nip46PreEvent;
use remote_signer::key::PublicKey;
use remote_signer::pairing::{
    handle_command, judge, respond, send_response, Nip46UnconnectedServer, Outcome, Verdict,
};
use remote_signer::relay::{combine_relays, insert_relay, RelayUrl};
use remote_signer::server::{Algorithm, Capability, Nip46Server, Step};
use remote_signer::text::{begins_at, find_from, rank_text, same_text, Rank};

const LOCAL: &str = "3bf0c63fcb93463407af97a5e5ee64fa883d107ef9e558472c4eb9aaaefa459d";
const LOCAL_NPUB: &str = "npub180cvv07tjdrrgpa0j7j7tmnyl2yr6yr7l8j4s3evf6u64th6gkwsyjh6w6";
const PEER: &str = "79be667ef9dcbbac55a06295ce870b07029bfcdb2dce28d959f2815b16f81798";
const SECRET: &str = "abcdefghijklmnopqrstuvwxyz012345";

fn key(hex: &str) -> PublicKey {
    PublicKey::try_from_hex_string(hex).unwrap()
}

fn relay(text: &str) -> RelayUrl {
    RelayUrl::try_from_str(text).unwrap()
}

fn urls(relays: &[RelayUrl]) -> Vec<String> {
    relays.iter().map(|r| r.url.clone()).collect()
}

fn command(id: &str, method: &str, params: &[&str]) -> ParsedCommand {
    ParsedCommand {
        id: id.to_owned(),
        method: method.to_owned(),
        params: params.iter().map(|p| p.to_string()).collect(),
    }
}

fn envelope(id: &str, method: &str, params: &[&str]) -> Vec<u8> {
    let mut object = serde_json::Map::new();
    object.insert("id".to_owned(), serde_json::Value::from(id));
    object.insert("method".to_owned(), serde_json::Value::from(method));
    let list: Vec<String> = params.iter().map(|p| p.to_string()).collect();
    object.insert("params".to_owned(), serde_json::Value::from(list));
    serde_json::Value::Object(object).to_string().into_bytes()
}

fn session() -> Nip46Server {
    Nip46Server {
        peer_pubkey: key(PEER),
        relays: vec![relay("wss://a.example.com"), relay("wss://b.example.com")],
        metadata: None,
    }
}

fn pending() -> Nip46UnconnectedServer {
    Nip46UnconnectedServer {
        connect_secret: SECRET.to_owned(),
        relays: vec![relay("wss://r2.example.com"), relay("wss://r1.example.com")],
    }
}

fn reply_of(step: Step) -> (String, String, String) {
    match step {
        Step::Reply(r) => (r.id, r.result, r.error),
        Step::Invoke(..) => panic!("an answer was expected"),
    }
}

fn sent(out: &Outcome) -> (String, String, String, Vec<String>) {
    let r = out.reply.as_ref().unwrap();
    (r.id.clone(), r.result.clone(), r.error.clone(), urls(&r.relays))
}

#[test]
fn key_is_canonical_lower_case() {
    let upper = LOCAL.to_uppercase();
    assert_eq!(key(&upper).hex, LOCAL);
    assert_eq!(key(LOCAL).as_hex_string(), LOCAL);
}

#[test]
fn key_rejects_malformed_text() {
    assert!(matches!(PublicKey::try_from_hex_string("zz"), Err(ErrorKind::InvalidPublicKey)));
    assert!(matches!(
        PublicKey::try_from_hex_string(&LOCAL[..62]),
        Err(ErrorKind::InvalidPublicKey)
    ));
}

#[test]
fn key_renders_bech32() {
    assert_eq!(key(LOCAL).try_as_bech32_string().unwrap(), LOCAL_NPUB);
}

#[test]
fn key_equality_is_by_value() {
    assert!(key(LOCAL).same(&key(&LOCAL.to_uppercase())));
    assert!(!key(LOCAL).same(&key(PEER)));
    assert!(key(PEER).duplicate().same(&key(PEER)));
}

#[test]
fn relay_url_is_normalized() {
    assert_eq!(relay("wss://relay.example.com").url, "wss://relay.example.com/");
    assert_eq!(relay("wss://relay.example.com").as_str(), "wss://relay.example.com/");
}

#[test]
fn relay_url_rejects_other_schemes_and_garbage() {
    assert!(matches!(RelayUrl::try_from_str("https://example.com"), Err(ErrorKind::InvalidRelayUrl)));
    assert!(matches!(RelayUrl::try_from_str("not a url"), Err(ErrorKind::InvalidRelayUrl)));
}

#[test]
fn texts_are_ranked_by_code_point() {
    assert_eq!(rank_text("abc", "abd"), Rank::Before);
    assert_eq!(rank_text("abd", "abc"), Rank::After);
    assert_eq!(rank_text("ab", "abc"), Rank::Before);
    assert_eq!(rank_text("abc", "ab"), Rank::After);
    assert_eq!(rank_text("", ""), Rank::Same);
    assert_eq!(rank_text("abc", "abc"), Rank::Same);
    assert_eq!(rank_text("z", "\u{e9}"), Rank::Before);
    assert!(same_text("relay=", "relay="));
    assert!(!same_text("relay=", "relay"));
    assert!(!same_text("relax=", "relay="));
}

#[test]
fn scanning_helpers() {
    assert!(begins_at("a?relay=x", 2, "relay="));
    assert!(!begins_at("a?relay=x", 3, "relay="));
    assert!(!begins_at("rel", 0, "relay="));
    assert!(begins_at("abc", 3, ""));
    assert!(!begins_at("abc", 4, ""));
    assert_eq!(find_from("a&b&c", '&', 0), 1);
    assert_eq!(find_from("a&b&c", '&', 2), 3);
    assert_eq!(find_from("a&b&c", '&', 4), 5);
    assert_eq!(find_from("a&b&c", '&', 9), 5);
}

#[test]
fn insert_keeps_order_and_skips_what_is_there() {
    let mut list: Vec<RelayUrl> = Vec::new();
    insert_relay(&mut list, relay("wss://m.example.com"));
    insert_relay(&mut list, relay("wss://z.example.com"));
    insert_relay(&mut list, relay("wss://a.example.com"));
    insert_relay(&mut list, relay("wss://m.example.com"));
    assert_eq!(
        urls(&list),
        vec!["wss://a.example.com/", "wss://m.example.com/", "wss://z.example.com/"]
    );
}

#[test]
fn combine_sorts_and_removes_repeats() {
    let configured = vec![
        relay("wss://r2.example.com"),
        relay("wss://r1.example.com"),
        relay("wss://r2.example.com"),
    ];
    let merged = combine_relays(&configured, &relay("wss://r1.example.com"));
    assert_eq!(urls(&merged), vec!["wss://r1.example.com/", "wss://r2.example.com/"]);
    let merged = combine_relays(&Vec::new(), &relay("wss://seen.example.com"));
    assert_eq!(urls(&merged), vec!["wss://seen.example.com/"]);
}

#[test]
fn command_is_decoded() {
    let cmd = parse_command(&envelope("7", "nip04_encrypt", &[PEER, "hello"])).unwrap();
    assert_eq!(cmd.id, "7");
    assert_eq!(cmd.method, "nip04_encrypt");
    assert_eq!(cmd.params, vec![PEER.to_owned(), "hello".to_owned()]);
}

#[test]
fn command_faults_before_the_id_name_nobody() {
    assert!(matches!(parse_command(b"not json"), Err(ErrorKind::InvalidJson)));
    assert!(matches!(parse_command(b"[1,2]"), Err(ErrorKind::Nip46CommandNotJsonObject)));
    assert!(matches!(parse_command(b"\"id\""), Err(ErrorKind::Nip46CommandNotJsonObject)));
    assert!(matches!(
        parse_command(br#"{"method":"ping","params":[]}"#),
        Err(ErrorKind::Nip46CommandMissingId)
    ));
    assert!(matches!(
        parse_command(br#"{"id":5,"method":"ping","params":[]}"#),
        Err(ErrorKind::Nip46CommandMissingId)
    ));
}

fn fault(bytes: &[u8]) -> (String, String) {
    match parse_command(bytes) {
        Err(ErrorKind::Nip46ParsingError(id, how)) => (id, how),
        _ => panic!("a fault with an id was expected"),
    }
}

#[test]
fn command_faults_after_the_id_carry_it() {
    assert_eq!(
        fault(br#"{"id":"a","params":[]}"#),
        ("a".to_owned(), "method parameter missing".to_owned())
    );
    assert_eq!(
        fault(br#"{"id":"a","method":1,"params":[]}"#),
        ("a".to_owned(), "method not a string".to_owned())
    );
    assert_eq!(
        fault(br#"{"id":"a","method":"ping"}"#),
        ("a".to_owned(), "params missing".to_owned())
    );
    assert_eq!(
        fault(br#"{"id":"a","method":"ping","params":"x"}"#),
        ("a".to_owned(), "params not an array".to_owned())
    );
    assert_eq!(
        fault(br#"{"id":"a","method":"ping","params":["x",2]}"#),
        ("a".to_owned(), "non-string parameter found".to_owned())
    );
}

#[test]
fn uri_with_relays_and_metadata() {
    let uri = format!(
        "nostrconnect://{}?relay=wss://r1.example.com&relay=wss://r2.example.com&metadata={}",
        PEER, r#"{"name":"App & Co","url":"wss://app.example.com","description":"a?b&c"}"#
    );
    let peer = Nip46Server::new_from_client(uri).unwrap();
    assert_eq!(peer.peer_pubkey.hex, PEER);
    assert_eq!(urls(&peer.relays), vec!["wss://r1.example.com/", "wss://r2.example.com/"]);
    let metadata = peer.metadata.unwrap();
    assert_eq!(metadata.name, "App & Co");
    assert_eq!(metadata.url.url, "wss://app.example.com/");
    assert_eq!(metadata.description, "a?b&c");
}

#[test]
fn uri_with_one_relay_and_no_metadata() {
    let uri = format!("nostrconnect://{}?relay=wss://r1.example.com", PEER.to_uppercase());
    let peer = Nip46Server::new_from_client(uri).unwrap();
    assert_eq!(peer.peer_pubkey.hex, PEER);
    assert_eq!(urls(&peer.relays), vec!["wss://r1.example.com/"]);
    assert!(peer.metadata.is_none());
}

#[test]
fn uri_faults() {
    let bad = |uri: String| Nip46Server::new_from_client(uri).unwrap_err();
    assert!(matches!(bad(format!("nostrconnect:/{}?relay=wss://r.example.com", PEER)), ErrorKind::BadNostrConnectString));
    assert!(matches!(bad(String::new()), ErrorKind::BadNostrConnectString));
    assert!(matches!(bad("nostrconnect://abcd".to_owned()), ErrorKind::BadNostrConnectString));
    assert!(matches!(
        bad(format!("nostrconnect://{}?relay=wss://r.example.com", "g".repeat(64))),
        ErrorKind::InvalidPublicKey
    ));
    assert!(matches!(bad(format!("nostrconnect://{}", PEER)), ErrorKind::BadNostrConnectString));
    assert!(matches!(
        bad(format!("nostrconnect://{}&relay=wss://r.example.com", PEER)),
        ErrorKind::BadNostrConnectString
    ));
    assert!(matches!(bad(format!("nostrconnect://{}?", PEER)), ErrorKind::BadNostrConnectString));
    assert!(matches!(bad(format!("nostrconnect://{}?rel", PEER)), ErrorKind::BadNostrConnectString));
    assert!(matches!(
        bad(format!("nostrconnect://{}?name=x&relay=wss://r.example.com", PEER)),
        ErrorKind::BadNostrConnectString
    ));
    assert!(matches!(
        bad(format!("nostrconnect://{}?relay=wss://r.example.com&", PEER)),
        ErrorKind::BadNostrConnectString
    ));
    assert!(matches!(
        bad(format!("nostrconnect://{}?relay=nowhere", PEER)),
        ErrorKind::InvalidRelayUrl
    ));
    assert!(matches!(
        bad(format!("nostrconnect://{}?relay=wss://r.example.com&metadata={{", PEER)),
        ErrorKind::InvalidJson
    ));
    assert!(matches!(
        bad(format!("nostrconnect://{}?metadata={{\"name\":\"x\"}}", PEER)),
        ErrorKind::InvalidJson
    ));
}

#[test]
fn secret_is_fresh_and_32_characters() {
    let local = key(LOCAL);
    let a = Nip46UnconnectedServer::new(vec![relay("wss://r1.example.com")], Some(&local)).unwrap();
    let b = Nip46UnconnectedServer::new(Vec::new(), Some(&local)).unwrap();
    assert_eq!(a.connect_secret.chars().count(), 32);
    assert!(a.connect_secret.chars().all(|c| c.is_ascii_alphanumeric() || "-_=".contains(c)));
    assert!(matches!(Nip46UnconnectedServer::new(Vec::new(), None), Err(ErrorKind::NoPublicKey)));
    assert_ne!(a.connect_secret, b.connect_secret);
    assert_eq!(urls(&a.relays), vec!["wss://r1.example.com/"]);
    assert!(b.relays.is_empty());
}

#[test]
fn token_has_key_secret_and_relays() {
    let token = pending().connection_token(Some(&key(LOCAL))).unwrap();
    assert_eq!(
        token,
        format!("{}#{}?relay=wss://r2.example.com/&relay=wss://r1.example.com/", LOCAL_NPUB, SECRET)
    );
    let bare = Nip46UnconnectedServer { connect_secret: "s".to_owned(), relays: Vec::new() };
    assert_eq!(bare.connection_token(Some(&key(LOCAL))).unwrap(), format!("{}#s?", LOCAL_NPUB));
    assert!(matches!(pending().connection_token(None), Err(ErrorKind::NoPublicKey)));
}

#[test]
fn token_is_no_pairing_uri() {
    let token = pending().connection_token(Some(&key(LOCAL))).unwrap();
    assert!(matches!(Nip46Server::new_from_client(token), Err(ErrorKind::BadNostrConnectString)));
}

#[test]
fn envelope_holds_the_three_fields() {
    let out = send_response(
        "42".to_owned(),
        "pong".to_owned(),
        String::new(),
        key(PEER),
        vec![relay("wss://a.example.com")],
        Some(&key(LOCAL)),
    )
    .unwrap();
    assert_eq!(out.author.hex, LOCAL);
    assert_eq!(out.recipient.hex, PEER);
    assert_eq!(urls(&out.relays), vec!["wss://a.example.com/"]);
    let parsed: serde_json::Value = serde_json::from_str(&out.plaintext).unwrap();
    let object = parsed.as_object().unwrap();
    assert_eq!(object.len(), 3);
    assert_eq!(object.get("id").unwrap().as_str(), Some("42"));
    assert_eq!(object.get("result").unwrap().as_str(), Some("pong"));
    assert_eq!(object.get("error").unwrap().as_str(), Some(""));
}

#[test]
fn envelope_needs_a_local_key() {
    let out = send_response("1".to_owned(), String::new(), "e".to_owned(), key(PEER), Vec::new(), None);
    assert!(matches!(out, Err(ErrorKind::NoPublicKey)));
}

#[test]
fn dispatch_answers_at_once() {
    let s = session();
    let local = key(LOCAL);
    assert_eq!(
        reply_of(s.handle(command("1", "ping", &[]), Some(&local))),
        ("1".to_owned(), "pong".to_owned(), String::new())
    );
    assert_eq!(
        reply_of(s.handle(command("2", "get_public_key", &[]), Some(&local))),
        ("2".to_owned(), LOCAL.to_owned(), String::new())
    );
    assert_eq!(
        reply_of(s.handle(command("3", "get_public_key", &[]), None)),
        ("3".to_owned(), String::new(), "No public key configured".to_owned())
    );
    assert_eq!(
        reply_of(s.handle(command("4", "connect", &[LOCAL, SECRET]), Some(&local))),
        ("4".to_owned(), String::new(), "You are already connected".to_owned())
    );
    assert_eq!(
        reply_of(s.handle(command("5", "frobnicate", &["x"]), Some(&local))),
        ("5".to_owned(), String::new(), "unrecognized command".to_owned())
    );
}

#[test]
fn dispatch_answers_go_to_the_peer_on_its_relays() {
    match session().handle(command("1", "ping", &[]), None) {
        Step::Reply(r) => {
            assert_eq!(r.recipient.hex, PEER);
            assert_eq!(urls(&r.relays), vec!["wss://a.example.com/", "wss://b.example.com/"]);
        }
        Step::Invoke(..) => panic!("an answer was expected"),
    }
}

#[test]
fn get_relays_is_the_sessions_list_whatever_came_before() {
    let s = session();
    let local = key(LOCAL);
    let expected = r#"["wss://a.example.com/","wss://b.example.com/"]"#;
    assert_eq!(s.get_relays(), expected);
    let first = reply_of(s.handle(command("1", "get_relays", &[]), Some(&local)));
    let _ = s.handle(command("2", "ping", &[]), Some(&local));
    let _ = s.handle(command("3", "connect", &[LOCAL, SECRET]), Some(&local));
    let again = reply_of(s.handle(command("4", "get_relays", &["ignored"]), None));
    assert_eq!(first, ("1".to_owned(), expected.to_owned(), String::new()));
    assert_eq!(again, ("4".to_owned(), expected.to_owned(), String::new()));
    let empty = Nip46Server { peer_pubkey: key(PEER), relays: Vec::new(), metadata: None };
    assert_eq!(empty.get_relays(), "[]");
}

#[test]
fn dispatch_checks_parameter_counts() {
    let s = session();
    let local = key(LOCAL);
    let cases = [
        ("sign_event", vec![], "sign_event: requires a parameter"),
        ("nip04_encrypt", vec![PEER], "nip04_encrypt: requires two parameters"),
        ("nip04_decrypt", vec![], "nip04_decrypt: requires two parameters"),
        ("nip44_get_key", vec![], "nip44_get_key: requires a parameter"),
        ("nip44_encrypt", vec![PEER], "nip44_encrypt: requires two parameters"),
        ("nip44_decrypt", vec![PEER], "nip44_decrypt: requires two parameters"),
    ];
    for (method, params, why) in cases {
        assert_eq!(
            reply_of(s.handle(command("9", method, &params), Some(&local))),
            ("9".to_owned(), String::new(), why.to_owned())
        );
    }
}

#[test]
fn dispatch_refuses_malformed_peer_keys() {
    let s = session();
    let local = key(LOCAL);
    for method in ["nip04_encrypt", "nip04_decrypt", "nip44_get_key", "nip44_encrypt", "nip44_decrypt"] {
        assert_eq!(
            reply_of(s.handle(command("9", method, &["nokey", "text"]), Some(&local))),
            ("9".to_owned(), String::new(), "invalid public key".to_owned())
        );
    }
}

#[test]
fn dispatch_invokes_the_identity() {
    let s = session();
    let local = key(LOCAL);
    let upper = LOCAL.to_uppercase();
    match s.handle(command("1", "nip04_encrypt", &[&upper, "hi"]), Some(&local)) {
        Step::Invoke(id, Capability::Encrypt { peer, text, algorithm }) => {
            assert_eq!((id.as_str(), peer.hex.as_str(), text.as_str()), ("1", LOCAL, "hi"));
            assert_eq!(algorithm, Algorithm::Nip04);
        }
        _ => panic!("an encryption was expected"),
    }
    match s.handle(command("2", "nip44_encrypt", &[LOCAL, "hi"]), Some(&local)) {
        Step::Invoke(_, Capability::Encrypt { algorithm, .. }) => assert_eq!(algorithm, Algorithm::Nip44v2),
        _ => panic!("an encryption was expected"),
    }
    match s.handle(command("3", "nip04_decrypt", &[LOCAL, "ct"]), Some(&local)) {
        Step::Invoke(id, Capability::Decrypt { peer, text, algorithm }) => {
            assert_eq!((id.as_str(), peer.hex.as_str(), text.as_str()), ("3", LOCAL, "ct"));
            assert_eq!(algorithm, Algorithm::Nip04);
        }
        _ => panic!("a decryption was expected"),
    }
    match s.handle(command("4", "nip44_decrypt", &[LOCAL, "ct"]), Some(&local)) {
        Step::Invoke(_, Capability::Decrypt { algorithm, .. }) => assert_eq!(algorithm, Algorithm::Nip44v2),
        _ => panic!("a decryption was expected"),
    }
    match s.handle(command("5", "nip44_get_key", &[LOCAL]), Some(&local)) {
        Step::Invoke(id, Capability::ConversationKey { peer }) => {
            assert_eq!((id.as_str(), peer.hex.as_str()), ("5", LOCAL));
        }
        _ => panic!("a key derivation was expected"),
    }
    match s.handle(command("6", "sign_event", &["{}"]), Some(&local)) {
        Step::Invoke(id, Capability::SignEvent { descriptor }) => {
            assert_eq!((id.as_str(), descriptor.as_str()), ("6", "{}"));
        }
        _ => panic!("a signature was expected"),
    }
    assert_eq!(
        reply_of(s.handle(command("7", "sign_event", &["{}"]), None)),
        ("7".to_owned(), String::new(), "No public key configured".to_owned())
    );
}

#[test]
fn answers_carry_the_identitys_outcome() {
    let s = session();
    let ok = s.answer("1".to_owned(), Ok("ciphertext".to_owned()));
    assert_eq!((ok.id.as_str(), ok.result.as_str(), ok.error.as_str()), ("1", "ciphertext", ""));
    let no = s.answer("2".to_owned(), Err("bad padding".to_owned()));
    assert_eq!((no.id.as_str(), no.result.as_str(), no.error.as_str()), ("2", "", "bad padding"));
    let hex = s.answer_key("3".to_owned(), Ok(vec![0x00, 0x0a, 0xab, 0xff, 0x10]));
    assert_eq!((hex.result.as_str(), hex.error.as_str()), ("000aabff10", ""));
    let text = s.answer_bytes("5".to_owned(), Ok("h\u{e9}llo".as_bytes().to_vec()));
    assert_eq!((text.result.as_str(), text.error.as_str()), ("h\u{e9}llo", ""));
    let broken = s.answer_bytes("6".to_owned(), Ok(vec![0x68, 0xff, 0x69]));
    assert_eq!((broken.result.as_str(), broken.error.as_str()), ("", "invalid utf-8 sequence"));
    let failed = s.answer_bytes("7".to_owned(), Err("bad mac".to_owned()));
    assert_eq!((failed.result.as_str(), failed.error.as_str()), ("", "bad mac"));
    let none = s.answer_key("4".to_owned(), Err("no key".to_owned()));
    assert_eq!((none.result.as_str(), none.error.as_str()), ("", "no key"));
    assert_eq!(hex.recipient.hex, PEER);
}

fn descriptor(pubkey: Option<PublicKey>, created_at: Option<i64>) -> Nip46PreEvent {
    Nip46PreEvent {
        pubkey,
        created_at,
        kind: 1,
        tags: vec![vec!["p".to_owned(), PEER.to_owned()]],
        content: "hello".to_owned(),
    }
}

#[test]
fn sign_event_rejects_another_key() {
    let r = Nip46Server::sign_event(descriptor(Some(key(PEER)), None), &key(LOCAL), 1000);
    assert_eq!(r.unwrap_err(), "sign_event: pubkey mismatch");
}

#[test]
fn sign_event_builds_the_event() {
    let e = Nip46Server::sign_event(descriptor(Some(key(LOCAL)), Some(5)), &key(LOCAL), 1000).unwrap();
    assert_eq!(e.pubkey.hex, LOCAL);
    assert_eq!(e.created_at, 5);
    assert_eq!(e.kind, 1);
    assert_eq!(e.tags, vec![vec!["p".to_owned(), PEER.to_owned()]]);
    assert_eq!(e.content, "hello");
    let e = Nip46Server::sign_event(descriptor(None, None), &key(LOCAL), 1000).unwrap();
    assert_eq!(e.pubkey.hex, LOCAL);
    assert_eq!(e.created_at, 1000);
}

#[test]
fn handshake_verdicts_in_order() {
    let local = key(LOCAL);
    assert_eq!(judge(&command("1", "ping", &[]), SECRET, Some(&local)), Verdict::WrongMethod);
    assert_eq!(judge(&command("1", "connect", &[LOCAL]), SECRET, Some(&local)), Verdict::WrongArity);
    assert_eq!(judge(&command("1", "connect", &[LOCAL, SECRET, "x"]), SECRET, None), Verdict::WrongArity);
    assert_eq!(judge(&command("1", "connect", &[LOCAL, SECRET]), SECRET, None), Verdict::NoKey);
    assert_eq!(judge(&command("1", "connect", &[PEER, SECRET]), SECRET, Some(&local)), Verdict::WrongKey);
    assert_eq!(judge(&command("1", "connect", &[PEER, "no"]), SECRET, Some(&local)), Verdict::WrongKey);
    assert_eq!(judge(&command("1", "connect", &[LOCAL, "no"]), SECRET, Some(&local)), Verdict::WrongSecret);
    assert_eq!(judge(&command("1", "connect", &[LOCAL, SECRET]), SECRET, Some(&local)), Verdict::Accept);
}

#[test]
fn unexpected_peer_is_told_once() {
    let out = handle_command(
        &key(PEER),
        Some(relay("wss://seen.example.com")),
        None,
        Some(&envelope("1", "connect", &[LOCAL, SECRET])),
        None,
        Some(&key(LOCAL)),
    );
    assert_eq!(
        sent(&out),
        (
            "1".to_owned(),
            String::new(),
            "Not configured to receive a connection".to_owned(),
            vec!["wss://seen.example.com/".to_owned()]
        )
    );
    assert_eq!(out.reply.as_ref().unwrap().recipient.hex, PEER);
    assert!(out.session.is_none() && out.invoke.is_none() && out.error.is_none());
}

#[test]
fn unpaired_peer_without_a_relay_cannot_be_answered() {
    let out = handle_command(
        &key(PEER),
        None,
        None,
        Some(&envelope("1", "connect", &[LOCAL, SECRET])),
        Some(&pending()),
        Some(&key(LOCAL)),
    );
    assert!(out.reply.is_none() && out.session.is_none() && out.invoke.is_none());
    assert!(matches!(out.error, Some(ErrorKind::Nip46RelayNeeded)));
}

#[test]
fn correct_connect_creates_the_session() {
    let out = handle_command(
        &key(PEER),
        Some(relay("wss://r0.example.com")),
        None,
        Some(&envelope("c1", "connect", &[LOCAL, SECRET])),
        Some(&pending()),
        Some(&key(LOCAL)),
    );
    let merged = vec![
        "wss://r0.example.com/".to_owned(),
        "wss://r1.example.com/".to_owned(),
        "wss://r2.example.com/".to_owned(),
    ];
    assert_eq!(sent(&out), ("c1".to_owned(), "ack".to_owned(), String::new(), merged.clone()));
    let created = out.session.unwrap();
    assert_eq!(created.peer_pubkey.hex, PEER);
    assert_eq!(urls(&created.relays), merged);
    assert!(created.metadata.is_none());
    assert!(out.error.is_none() && out.invoke.is_none());
}

#[test]
fn observed_relay_that_is_configured_is_kept_once() {
    let out = respond(
        &key(PEER),
        Some(relay("wss://r2.example.com")),
        None,
        Ok(command("c1", "connect", &[LOCAL, SECRET])),
        Some(&pending()),
        Some(&key(LOCAL)),
    );
    assert_eq!(
        urls(&out.session.unwrap().relays),
        vec!["wss://r1.example.com/", "wss://r2.example.com/"]
    );
}

fn rejected(cmd: ParsedCommand, local: Option<&PublicKey>) -> Outcome {
    let out = respond(
        &key(PEER),
        Some(relay("wss://r0.example.com")),
        None,
        Ok(cmd),
        Some(&pending()),
        local,
    );
    assert!(out.session.is_none() && out.invoke.is_none());
    let (_, result, _, on) = sent(&out);
    assert_eq!(result, "");
    assert_eq!(on, vec!["wss://r0.example.com/", "wss://r1.example.com/", "wss://r2.example.com/"]);
    out
}

#[test]
fn wrong_secret_creates_nothing() {
    let out = rejected(command("c", "connect", &[LOCAL, "abcdefghijklmnopqrstuvwxyz012346"]), Some(&key(LOCAL)));
    assert_eq!(sent(&out).2, "Incorrect secret.");
    assert_eq!(sent(&out).0, "c");
    assert!(out.error.is_none());
}

#[test]
fn handshake_rejections() {
    let local = key(LOCAL);
    let out = rejected(command("c", "ping", &[]), Some(&local));
    assert_eq!(sent(&out).2, "Your pubkey is not configured for nostr connect here.");
    assert!(out.error.is_none());
    let out = rejected(command("c", "connect", &[LOCAL]), Some(&local));
    assert_eq!(sent(&out).2, "connect requires two parameters");
    assert!(out.error.is_none());
    let out = rejected(command("c", "connect", &[PEER, SECRET]), Some(&local));
    assert_eq!(sent(&out).2, "Not configured to sign with the requested public key");
    assert!(out.error.is_none());
    let out = rejected(command("c", "connect", &[LOCAL, SECRET]), None);
    assert_eq!(sent(&out).2, "connect requires two parameters");
    assert!(matches!(out.error, Some(ErrorKind::NoPublicKey)));
}

#[test]
fn undecryptable_message_is_dropped() {
    let s = session();
    let out = handle_command(&key(PEER), Some(relay("wss://r0.example.com")), Some(&s), None, None, Some(&key(LOCAL)));
    assert!(out.reply.is_none() && out.invoke.is_none() && out.session.is_none());
    assert!(matches!(out.error, Some(ErrorKind::Undecryptable)));
    let out = handle_command(&key(PEER), Some(relay("wss://r0.example.com")), None, None, Some(&pending()), Some(&key(LOCAL)));
    assert!(out.reply.is_none() && out.invoke.is_none() && out.session.is_none());
    assert!(matches!(out.error, Some(ErrorKind::Undecryptable)));
}

#[test]
fn malformed_envelope_with_an_id_is_answered_and_reported() {
    let s = session();
    let bytes = br#"{"id":"m1","method":"ping"}"#;
    let out = handle_command(&key(PEER), None, Some(&s), Some(bytes), None, Some(&key(LOCAL)));
    assert_eq!(
        sent(&out),
        (
            "m1".to_owned(),
            String::new(),
            "params missing".to_owned(),
            vec!["wss://a.example.com/".to_owned(), "wss://b.example.com/".to_owned()]
        )
    );
    assert!(matches!(out.error, Some(ErrorKind::Nip46ParsingError(_, _))));
    let out = handle_command(&key(PEER), Some(relay("wss://r0.example.com")), None, Some(bytes), Some(&pending()), None);
    assert_eq!(
        sent(&out),
        ("m1".to_owned(), String::new(), "params missing".to_owned(), vec!["wss://r0.example.com/".to_owned()])
    );
    assert!(matches!(out.error, Some(ErrorKind::Nip46ParsingError(_, _))));
    assert!(out.session.is_none());
}

#[test]
fn paired_peer_is_served() {
    let s = session();
    let out = handle_command(&key(PEER), None, Some(&s), Some(&envelope("p", "ping", &[])), None, Some(&key(LOCAL)));
    assert_eq!(
        sent(&out),
        (
            "p".to_owned(),
            "pong".to_owned(),
            String::new(),
            vec!["wss://a.example.com/".to_owned(), "wss://b.example.com/".to_owned()]
        )
    );
    assert!(out.error.is_none() && out.session.is_none() && out.invoke.is_none());
    let out = handle_command(&key(PEER), None, Some(&s), Some(&envelope("k", "nip44_get_key", &[LOCAL])), None, Some(&key(LOCAL)));
    assert!(out.reply.is_none() && out.error.is_none() && out.session.is_none());
    assert!(matches!(out.invoke, Some((ref id, Capability::ConversationKey { .. })) if id == "k"));
}

#[test]
fn second_connect_creates_no_second_session() {
    let local = key(LOCAL);
    let seen = || Some(relay("wss://r0.example.com"));
    let bytes = envelope("c", "connect", &[LOCAL, SECRET]);
    let first = handle_command(&key(PEER), seen(), None, Some(&bytes), Some(&pending()), Some(&local));
    let created = first.session.unwrap();
    let same_peer = handle_command(&key(PEER), seen(), Some(&created), Some(&bytes), None, Some(&local));
    assert!(same_peer.session.is_none());
    assert_eq!(sent(&same_peer).2, "You are already connected");
    let other_peer = handle_command(&local, seen(), None, Some(&bytes), None, Some(&local));
    assert!(other_peer.session.is_none());
    assert_eq!(sent(&other_peer).2, "Not configured to receive a connection");
}

#[test]
fn capability_requests_one_by_one() {
    let two = vec![PEER.to_uppercase(), "text".to_owned()];
    assert!(matches!(
        Nip46Server::nip04_encrypt(&two),
        Ok(Capability::Encrypt { ref peer, ref text, algorithm: Algorithm::Nip04 }) if peer.hex == PEER && text == "text"
    ));
    assert!(matches!(
        Nip46Server::nip04_decrypt(&two),
        Ok(Capability::Decrypt { ref peer, ref text, algorithm: Algorithm::Nip04 }) if peer.hex == PEER && text == "text"
    ));
    assert!(matches!(
        Nip46Server::nip44_encrypt(&two),
        Ok(Capability::Encrypt { algorithm: Algorithm::Nip44v2, .. })
    ));
    assert!(matches!(
        Nip46Server::nip44_decrypt(&two),
        Ok(Capability::Decrypt { algorithm: Algorithm::Nip44v2, .. })
    ));
    assert!(matches!(
        Nip46Server::nip44_get_key(&two),
        Ok(Capability::ConversationKey { ref peer }) if peer.hex == PEER
    ));
    let none: Vec<String> = Vec::new();
    assert_eq!(Nip46Server::nip44_get_key(&none).unwrap_err(), "nip44_get_key: requires a parameter");
    assert_eq!(Nip46Server::nip04_encrypt(&none).unwrap_err(), "nip04_encrypt: requires two parameters");
    let bad = vec!["xyz".to_owned(), "text".to_owned()];
    assert_eq!(Nip46Server::nip44_decrypt(&bad).unwrap_err(), "invalid public key");
    assert_eq!(
        Nip46Server::sign_event_command(&none, Some(&key(LOCAL))).unwrap_err(),
        "sign_event: requires a parameter"
    );
    assert_eq!(
        Nip46Server::sign_event_command(&two, None).unwrap_err(),
        "No public key configured"
    );
    assert_eq!(Nip46Server::get_public_key(Some(&key(LOCAL))).unwrap(), LOCAL);
    assert_eq!(Nip46Server::get_public_key(None).unwrap_err(), "No public key configured");
    assert_eq!(Nip46Server::ping(), "pong");
}

#[test]
fn envelope_escapes_its_strings() {
    let out = send_response(
        "a\"b".to_owned(),
        String::new(),
        "line\nbreak".to_owned(),
        key(PEER),
        Vec::new(),
        Some(&key(LOCAL)),
    )
    .unwrap();
    let parsed: serde_json::Value = serde_json::from_str(&out.plaintext).unwrap();
    assert_eq!(parsed.get("id").unwrap().as_str(), Some("a\"b"));
    assert_eq!(parsed.get("error").unwrap().as_str(), Some("line\nbreak"));
    assert_eq!(parsed.get("result").unwrap().as_str(), Some(""));
    let cmd = parse_command(br#"{"id":"a\"b","method":"get_public_key","params":["x\ty"]}"#).unwrap();
    assert_eq!(cmd.id, "a\"b");
    assert_eq!(cmd.params, vec!["x\ty".to_owned()]);
}

fn written(peer: &Nip46Server, document: Option<&str>) -> String {
    let mut parts: Vec<String> = peer.relays.iter().map(|r| format!("relay={}", r.url)).collect();
    if let Some(json) = document {
        parts.push(format!("metadata={}", json));
    }
    format!("nostrconnect://{}?{}", peer.peer_pubkey.hex, parts.join("&"))
}

#[test]
fn uri_written_from_a_peer_parses_to_it() {
    let document = r#"{"name":"n","url":"wss://app.example.com/","description":"d&e"}"#;
    let first = Nip46Server::new_from_client(format!(
        "nostrconnect://{}?relay=wss://r2.example.com&relay=wss://r1.example.com/x?y=1&metadata={}",
        PEER, document
    ))
    .unwrap();
    let again = Nip46Server::new_from_client(written(&first, Some(document))).unwrap();
    assert_eq!(again.peer_pubkey.hex, first.peer_pubkey.hex);
    assert_eq!(urls(&again.relays), urls(&first.relays));
    assert_eq!(urls(&again.relays), vec!["wss://r2.example.com/", "wss://r1.example.com/x?y=1"]);
    let (a, b) = (again.metadata.unwrap(), first.metadata.unwrap());
    assert_eq!((a.name, a.url.url, a.description), (b.name, b.url.url, b.description));
    let bare = Nip46Server { peer_pubkey: key(LOCAL), relays: vec![relay("wss://r.example.com")], metadata: None };
    let again = Nip46Server::new_from_client(written(&bare, None)).unwrap();
    assert_eq!(again.peer_pubkey.hex, LOCAL);
    assert_eq!(urls(&again.relays), vec!["wss://r.example.com/"]);
    assert!(again.metadata.is_none());
}

#[test]
fn token_query_reads_back_as_a_uri_query() {
    let token = pending().connection_token(Some(&key(LOCAL))).unwrap();
    let query = token.split_once('?').unwrap().1;
    let peer = Nip46Server::new_from_client(format!("nostrconnect://{}?{}", PEER, query)).unwrap();
    assert_eq!(urls(&peer.relays), urls(&pending().relays));
    assert!(peer.metadata.is_none());
}

#[test]
fn every_identified_message_gets_one_answer() {
    let s = session();
    let local = key(LOCAL);
    for method in ["ping", "connect", "get_relays", "sign_event", "nip04_encrypt", "nip44_get_key", "nope"] {
        for params in [vec![], vec![LOCAL], vec![LOCAL, "x"]] {
            let out = respond(&key(PEER), None, Some(&s), Ok(command("i", method, &params)), None, Some(&local));
            assert!(out.reply.is_some() != out.invoke.is_some());
            if let Some(r) = &out.reply {
                assert_eq!(r.id, "i");
                assert!(r.result.is_empty() != r.error.is_empty());
            }
            if let Some((id, _)) = &out.invoke {
                assert_eq!(id, "i");
            }
            let out = respond(
                &key(PEER),
                Some(relay("wss://r0.example.com")),
                None,
                Ok(command("i", method, &params)),
                Some(&pending()),
                Some(&local),
            );
            assert!(out.reply.is_some() && out.invoke.is_none());
            assert_eq!(out.reply.unwrap().id, "i");
        }
    }
}
