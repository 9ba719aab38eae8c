use krust::conn::Handle;
use krust::err::KErr;
use krust::kval::KRaw;
use krust::kval::ERROR_TAG;

#[test]
fn connect_zero_code_is_authentication_failure() {
    let r = Handle::connect("localhost", 5001, "user", 0);
    let e = r.err().expect("code 0 must not yield a session");
    assert_eq!(e.kind, KErr::AuthenticationFailed);
    assert_eq!(e.description(), "Wrong credentials");
}

#[test]
fn connect_negative_code_is_connection_failure() {
    let r = Handle::connect("localhost", 5001, "user", -1);
    let e = r.err().expect("a negative code must not yield a session");
    assert_eq!(e.kind, KErr::ConnectionFailed);
    assert_eq!(e.description(), "Could not connect");
}

#[test]
fn connect_positive_code_is_the_session_handle() {
    let h = Handle::connect("localhost", 5001, "user", 7).expect("code 7 opens a session");
    assert_eq!(h.session_handle(), 7);
    assert!(h.connected());
    assert_eq!(h.host(), "localhost");
    assert_eq!(h.port(), 5001);
    assert_eq!(h.username(), "user");
}

#[test]
fn connect_nul_in_host_fails_before_any_foreign_call() {
    // Even a code that would mean success cannot matter: the embedded nul
    // is rejected first, so no partial connection state exists.
    let r = Handle::connect("local\0host", 5001, "user", 7);
    let e = r.err().expect("an embedded nul must be rejected");
    assert_eq!(e.kind, KErr::IOErr);
}

#[test]
fn connect_nul_in_username_fails_before_any_foreign_call() {
    let r = Handle::connect("localhost", 5001, "us\0er", 7);
    let e = r.err().expect("an embedded nul must be rejected");
    assert_eq!(e.kind, KErr::IOErr);
}

#[test]
fn precheck_accepts_clean_text_and_rejects_nul() {
    assert!(Handle::precheck("localhost", "user").is_ok());
    let e = Handle::precheck("a\0b", "user").err().expect("nul host");
    assert_eq!(e.kind, KErr::IOErr);
    let e = Handle::precheck("localhost", "u\0").err().expect("nul user");
    assert_eq!(e.kind, KErr::IOErr);
}

#[test]
fn warmup_empty_query_yields_the_reply() {
    let h = Handle::connect("localhost", 5001, "user", 3).expect("open");
    let reply = KRaw { addr: 4096, type_tag: 101 };
    let w = h.query("", Some(reply)).expect("the warm-up shape must not itself error");
    assert_eq!(w.addr(), 4096);
    assert_eq!(w.type_tag(), 101);
}

#[test]
fn query_null_reply_is_a_failed_query() {
    let h = Handle::connect("localhost", 5001, "user", 3).expect("open");
    let e = h.query("select from t", None).err().expect("null reply fails");
    assert_eq!(e.kind, KErr::QueryFailed);
    assert_eq!(e.description(), "Query failed");
}

#[test]
fn query_nul_text_is_rejected() {
    let h = Handle::connect("localhost", 5001, "user", 3).expect("open");
    let reply = KRaw { addr: 64, type_tag: 0 };
    let e = h.query("bad\0text", Some(reply)).err().expect("nul text fails");
    assert_eq!(e.kind, KErr::IOErr);
}

#[test]
fn query_on_closed_session_is_rejected() {
    let mut h = Handle::connect("localhost", 5001, "user", 3).expect("open");
    h.close();
    let reply = KRaw { addr: 64, type_tag: 0 };
    let e = h.query("x", Some(reply)).err().expect("closed session fails");
    assert_eq!(e.kind, KErr::Generic);
}

#[test]
fn query_reply_may_be_the_error_variant_value() {
    // The wire protocol reports query errors as a value: the connection
    // hands it over and the caller inspects the tag.
    let h = Handle::connect("localhost", 5001, "user", 3).expect("open");
    let reply = KRaw { addr: 128, type_tag: ERROR_TAG };
    let w = h.query("bad query", Some(reply)).expect("a non-null reply is handed over");
    assert!(w.is_error());
}

#[test]
fn sync_get_follows_the_query_conventions() {
    let h = Handle::connect("localhost", 5001, "user", 5).expect("open");
    let arg = krust::kval::KOwned::new(KRaw { addr: 256, type_tag: -7 });
    let reply = KRaw { addr: 512, type_tag: 99 };
    let w = h.sync_get("upd", &arg, Some(reply)).expect("non-null reply");
    assert_eq!(w.addr(), 512);
    let e = h.sync_get("upd", &arg, None).err().expect("null reply fails");
    assert_eq!(e.kind, KErr::QueryFailed);
    let e = h.sync_get("up\0d", &arg, None).err().expect("nul name fails");
    assert_eq!(e.kind, KErr::IOErr);
    arg.release();
}

#[test]
fn async_pub_adopts_only_an_error_reply() {
    let h = Handle::connect("localhost", 5001, "user", 5).expect("open");
    let topic = krust::kval::KOwned::new(KRaw { addr: 600, type_tag: -11 });
    let object = krust::kval::KOwned::new(KRaw { addr: 700, type_tag: 0 });
    // No reply at all: nothing to adopt, nothing to report.
    assert!(h.async_pub("publish", &topic, &object, None).is_none());
    // An ordinary reply is ignored by protocol.
    let plain = KRaw { addr: 800, type_tag: 0 };
    assert!(h.async_pub("publish", &topic, &object, Some(plain)).is_none());
    // The error variant is adopted so the caller can report and release it.
    let failed = KRaw { addr: 900, type_tag: ERROR_TAG };
    let w = h.async_pub("publish", &topic, &object, Some(failed)).expect("error reply adopted");
    assert!(w.is_error());
    assert_eq!(w.release(), failed);
    topic.release();
    object.release();
}

#[test]
fn async_handle_is_the_negated_session_handle() {
    let h = Handle::connect("localhost", 5001, "user", 12).expect("open");
    assert_eq!(h.async_handle(), -12);
}

#[test]
fn close_hands_back_the_handle_once() {
    let mut h = Handle::connect("localhost", 5001, "user", 9).expect("open");
    assert!(h.connected());
    assert_eq!(h.close(), Some(9));
    assert!(!h.connected());
    // Closing again reaches no foreign call and does not fail.
    assert_eq!(h.close(), None);
    assert!(!h.connected());
}
