//! The connection state machine: one authenticated session to a database
//! endpoint, from a successful connect to an explicit close.
//!
//! The foreign layer performs the actual interprocess calls; this module
//! holds every decision around them. Each operation takes, beside the
//! session state, the event the foreign call produced — the connect
//! primitive's return code, or the reply pointer of a request — and pins
//! down exactly which typed result that event becomes, so no sentinel
//! convention of the wire protocol leaks past this module.

use vstd::prelude::*;

use crate::err::KErr;
use crate::err::KError;
use crate::err::KResult;
use crate::kval::ERROR_TAG;
use crate::kval::KOwned;
use crate::kval::KRaw;
use crate::text::has_nul;
use crate::text::str_has_nul;

verus! {

/// The connect decision. The foreign connect primitive folds three
/// outcomes into one integer: a negative code is a network or handshake
/// failure, zero means the credentials were rejected, and a positive code
/// is the session handle itself. Text with an embedded nul never reaches
/// the primitive at all and fails as an input/output error.
pub open spec fn spec_connect(host: Seq<char>, username: Seq<char>, code: i32) -> Result<
    i32,
    KErr,
> {
    if has_nul(host) || has_nul(username) {
        Err(KErr::IOErr)
    } else if code < 0 {
        Err(KErr::ConnectionFailed)
    } else if code == 0 {
        Err(KErr::AuthenticationFailed)
    } else {
        Ok(code)
    }
}

/// The decision for a synchronous request on a session. Text with an
/// embedded nul cannot be sent; a session that was closed accepts no
/// further request; a null reply from the foreign layer is a failed query;
/// any other reply is the answer, handed over as an owned value.
pub open spec fn spec_query(open: bool, text: Seq<char>, reply: Option<KRaw>) -> Result<
    KRaw,
    KErr,
> {
    if has_nul(text) {
        Err(KErr::IOErr)
    } else if !open {
        Err(KErr::Generic)
    } else if reply is None {
        Err(KErr::QueryFailed)
    } else {
        Ok(reply->0)
    }
}

/// The decision for the reply of a fire-and-forget send: by protocol no
/// response is expected, but if the foreign layer nonetheless hands back
/// the error variant, that value must be adopted (so it is released) and
/// the failure surfaced; every other reply is ignored.
pub open spec fn spec_async_reply(reply: Option<KRaw>) -> Option<KRaw> {
    if reply is Some && reply->0.type_tag == ERROR_TAG {
        Some(reply->0)
    } else {
        None
    }
}

/// One session to a database endpoint. A `Handle` exists only for a
/// session whose connect succeeded; it is open from construction until
/// `close`, and every operation states what it does in each of the two
/// states.
pub struct Handle {
    host: String,
    port: i32,
    username: String,
    handle: i32,
    open: bool,
}

impl Handle {
    /// The host this session was opened against.
    pub closed spec fn spec_host(&self) -> Seq<char> {
        self.host@
    }

    /// The port this session was opened against.
    pub closed spec fn spec_port(&self) -> i32 {
        self.port
    }

    /// The user the session authenticated as.
    pub closed spec fn spec_username(&self) -> Seq<char> {
        self.username@
    }

    /// The session handle the foreign connect primitive assigned.
    pub closed spec fn spec_handle(&self) -> i32 {
        self.handle
    }

    /// Whether the session is still open: true from construction until
    /// `close`.
    pub closed spec fn is_open(&self) -> bool {
        self.open
    }

    /// A well-formed session: the handle is positive (the connect
    /// convention reserves zero and negative codes for failures) and the
    /// endpoint text is free of embedded nul. Every `Handle` this library
    /// constructs is well-formed.
    pub open spec fn wf(&self) -> bool {
        &&& self.spec_handle() > 0
        &&& !has_nul(self.spec_host())
        &&& !has_nul(self.spec_username())
    }

    /// The guard a caller runs before handing `host` and `username` to the
    /// foreign connect primitive: text the protocol cannot carry is
    /// rejected here, before any foreign call, so no partial connection
    /// state ever exists.
    pub fn precheck(host: &str, username: &str) -> (r: KResult<()>)
        ensures
            r is Ok <==> (!has_nul(host@) && !has_nul(username@)),
            r is Err ==> r->Err_0.spec_kind() == KErr::IOErr,
    {
        if str_has_nul(host) || str_has_nul(username) {
            Err(KError::new("Embedded nul in host or username".to_owned(), KErr::IOErr))
        } else {
            Ok(())
        }
    }

    /// Open a session. `code` is what the foreign connect primitive
    /// returned for `(host, port, username)`; the three-way sentinel
    /// convention is decoded here, exactly as `spec_connect` states it, and
    /// on success the positive code becomes the session handle of an open,
    /// well-formed `Handle`. Callers should follow a successful connect
    /// with the warm-up request (an empty query) and discard its result.
    pub fn connect(host: &str, port: i32, username: &str, code: i32) -> (r: KResult<Handle>)
        ensures
            r is Ok <==> spec_connect(host@, username@, code) is Ok,
            r is Err ==> r->Err_0.spec_kind() == spec_connect(host@, username@, code)->Err_0,
            r is Ok ==> {
                &&& r->Ok_0.spec_handle() == code
                &&& r->Ok_0.spec_host() == host@
                &&& r->Ok_0.spec_port() == port
                &&& r->Ok_0.spec_username() == username@
                &&& r->Ok_0.is_open()
                &&& r->Ok_0.wf()
            },
    {
        if str_has_nul(host) || str_has_nul(username) {
            return Err(KError::new("Embedded nul in host or username".to_owned(), KErr::IOErr));
        }
        if code < 0 {
            Err(KError::new("Could not connect".to_owned(), KErr::ConnectionFailed))
        } else if code == 0 {
            Err(KError::new("Wrong credentials".to_owned(), KErr::AuthenticationFailed))
        } else {
            Ok(
                (Handle {
                    host: host.to_owned(),
                    port,
                    username: username.to_owned(),
                    handle: code,
                    open: true,
                }),
            )
        }
    }

    /// Decide the outcome of a synchronous query. `query` is the text that
    /// is to be sent on this session, `reply` what the foreign request
    /// primitive returned for it (`None` for a null pointer). The reply,
    /// when present, is adopted as an owned value; callers inspect its
    /// type tag themselves to detect an error-variant answer, since the
    /// wire protocol reports query errors as a value.
    pub fn query(&self, query: &str, reply: Option<KRaw>) -> (r: KResult<KOwned>)
        ensures
            r is Ok <==> spec_query(self.is_open(), query@, reply) is Ok,
            r is Ok ==> r->Ok_0@ == spec_query(self.is_open(), query@, reply)->Ok_0,
            r is Err ==> r->Err_0.spec_kind() == spec_query(self.is_open(), query@, reply)->Err_0,
    {
        if str_has_nul(query) {
            return Err(KError::new("Embedded nul in query".to_owned(), KErr::IOErr));
        }
        if !self.open {
            return Err(KError::new("Session is closed".to_owned(), KErr::Generic));
        }
        match reply {
            None => Err(KError::new("Query failed".to_owned(), KErr::QueryFailed)),
            Some(raw) => Ok(KOwned::new(raw)),
        }
    }

    /// Decide the outcome of a synchronous remote call: the application of
    /// the named remote function to one argument value. Ownership of the
    /// argument is not transferred — the caller keeps `object` and remains
    /// responsible for its release. The reply convention is the same as
    /// for `query`.
    pub fn sync_get(&self, function: &str, object: &KOwned, reply: Option<KRaw>) -> (r: KResult<
        KOwned,
    >)
        ensures
            r is Ok <==> spec_query(self.is_open(), function@, reply) is Ok,
            r is Ok ==> r->Ok_0@ == spec_query(self.is_open(), function@, reply)->Ok_0,
            r is Err ==> r->Err_0.spec_kind() == spec_query(self.is_open(), function@, reply)->Err_0,
    {
        if str_has_nul(function) {
            return Err(KError::new("Embedded nul in function name".to_owned(), KErr::IOErr));
        }
        if !self.open {
            return Err(KError::new("Session is closed".to_owned(), KErr::Generic));
        }
        match reply {
            None => Err(KError::new("Query failed".to_owned(), KErr::QueryFailed)),
            Some(raw) => Ok(KOwned::new(raw)),
        }
    }

    /// Decide the outcome of a fire-and-forget publish, sent on the
    /// negated session handle. Ownership of `topic` and `object` stays
    /// with the caller. A nul-free callback name and an open session are
    /// preconditions here: there is no response channel to report them on.
    /// If the foreign layer nonetheless answered with the error variant,
    /// that value is adopted and returned so the caller can report the
    /// failure and release it; otherwise nothing is returned.
    pub fn async_pub(
        &self,
        callback: &str,
        topic: &KOwned,
        object: &KOwned,
        reply: Option<KRaw>,
    ) -> (r: Option<KOwned>)
        requires
            !has_nul(callback@),
            self.is_open(),
        ensures
            r is Some <==> spec_async_reply(reply) is Some,
            r is Some ==> r->0@ == spec_async_reply(reply)->0,
    {
        match reply {
            Some(raw) => {
                if raw.type_tag == ERROR_TAG {
                    Some(KOwned::new(raw))
                } else {
                    None
                }
            },
            None => None,
        }
    }

    /// End the session. The first call closes it and hands back the
    /// handle, which the caller passes to the foreign close primitive
    /// (best-effort teardown: its own failure is not surfaced); any later
    /// call finds the session already closed, returns nothing, and reaches
    /// no foreign call, so closing twice is harmless at this layer.
    pub fn close(&mut self) -> (r: Option<i32>)
        ensures
            !final(self).is_open(),
            old(self).is_open() ==> r == Some(old(self).spec_handle()),
            !old(self).is_open() ==> r is None,
            final(self).spec_handle() == old(self).spec_handle(),
            final(self).spec_host() == old(self).spec_host(),
            final(self).spec_port() == old(self).spec_port(),
            final(self).spec_username() == old(self).spec_username(),
    {
        if self.open {
            self.open = false;
            Some(self.handle)
        } else {
            None
        }
    }

    /// The session handle, as the foreign request primitive expects it for
    /// synchronous calls.
    pub fn session_handle(&self) -> (h: i32)
        ensures
            h == self.spec_handle(),
    {
        self.handle
    }

    /// The channel value for fire-and-forget sends: the wire convention
    /// negates the session handle when no response is expected.
    pub fn async_handle(&self) -> (h: i32)
        requires
            self.wf(),
        ensures
            h == -self.spec_handle(),
            h < 0,
    {
        -self.handle
    }

    /// Whether the session is still open.
    pub fn connected(&self) -> (b: bool)
        ensures
            b == self.is_open(),
    {
        self.open
    }

    /// The host this session was opened against.
    pub fn host(&self) -> (h: &str)
        ensures
            h@ == self.spec_host(),
    {
        self.host.as_str()
    }

    /// The port this session was opened against.
    pub fn port(&self) -> (p: i32)
        ensures
            p == self.spec_port(),
    {
        self.port
    }

    /// The user this session authenticated as.
    pub fn username(&self) -> (u: &str)
        ensures
            u@ == self.spec_username(),
    {
        self.username.as_str()
    }
}

/// The warm-up call is safe by construction: empty text has no embedded
/// nul, so on an open session the library itself never rejects the empty
/// query — its outcome is decided by the foreign reply alone. A reply
/// yields the answer; only a null reply fails, and then as a failed query.
pub proof fn lemma_empty_query_accepted(open: bool, text: Seq<char>, reply: Option<KRaw>)
    requires
        text.len() == 0,
        open,
    ensures
        reply is Some ==> spec_query(open, text, reply) == Result::<KRaw, KErr>::Ok(reply->0),
        reply is None ==> spec_query(open, text, reply) == Result::<KRaw, KErr>::Err(
            KErr::QueryFailed,
        ),
{
}

} // verus!
