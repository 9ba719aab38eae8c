//! The error taxonomy: a closed set of failure kinds, each carried with a
//! human-readable description that is never used for control decisions.

use vstd::prelude::*;

verus! {

/// Every failure this library produces, or passes along for the transport
/// and decoding layers that surround it, carries exactly one of these
/// kinds. Foreign sentinel signals (negative or zero return codes, null
/// pointers, failed validity checks) are translated into a kind at the
/// boundary where they arrive and never propagate raw.
#[derive(Clone, Copy, Debug, PartialEq, Eq, Structural)]
pub enum KErr {
    ConnectionFailed,
    AuthenticationFailed,
    QueryFailed,
    SocketClosed,
    SocketTimeout,
    IOErr,
    RecvErr,
    SendErr,
    EncodeFailed,
    DecodeFailed,
    CorruptData,
    BadConfig,
    Generic,
    WrongType,
}

/// A typed failure: a kind from the closed enumeration plus a diagnostic
/// description for humans.
#[derive(Debug)]
pub struct KError {
    desc: String,
    pub kind: KErr,
}

/// The result type of every fallible operation in this library.
pub type KResult<T> = Result<T, KError>;

impl KError {
    /// The diagnostic text, as a sequence of characters.
    pub closed spec fn spec_desc(&self) -> Seq<char> {
        self.desc@
    }

    /// The kind of this failure.
    pub closed spec fn spec_kind(&self) -> KErr {
        self.kind
    }

    pub fn new(s: String, kind: KErr) -> (e: Self)
        ensures
            e.spec_kind() == kind,
            e.spec_desc() == s@,
    {
        KError { desc: s, kind }
    }

    /// The human-readable diagnostic attached to this failure.
    pub fn description(&self) -> (d: &str)
        ensures
            d@ == self.spec_desc(),
    {
        self.desc.as_str()
    }

    /// The name of this failure's kind, for reporting.
    pub fn kind_name(&self) -> (n: &str)
        ensures
            self.spec_kind() == KErr::ConnectionFailed ==> n@ == "ConnectionFailed"@,
            self.spec_kind() == KErr::AuthenticationFailed ==> n@ == "AuthenticationFailed"@,
            self.spec_kind() == KErr::QueryFailed ==> n@ == "QueryFailed"@,
            self.spec_kind() == KErr::SocketClosed ==> n@ == "SocketClosed"@,
            self.spec_kind() == KErr::SocketTimeout ==> n@ == "SocketTimeout"@,
            self.spec_kind() == KErr::IOErr ==> n@ == "IOErr"@,
            self.spec_kind() == KErr::RecvErr ==> n@ == "RecvErr"@,
            self.spec_kind() == KErr::SendErr ==> n@ == "SendErr"@,
            self.spec_kind() == KErr::EncodeFailed ==> n@ == "EncodeFailed"@,
            self.spec_kind() == KErr::DecodeFailed ==> n@ == "DecodeFailed"@,
            self.spec_kind() == KErr::CorruptData ==> n@ == "CorruptData"@,
            self.spec_kind() == KErr::BadConfig ==> n@ == "BadConfig"@,
            self.spec_kind() == KErr::Generic ==> n@ == "Generic"@,
            self.spec_kind() == KErr::WrongType ==> n@ == "WrongType"@,
    {
        match self.kind {
            KErr::ConnectionFailed => "ConnectionFailed",
            KErr::AuthenticationFailed => "AuthenticationFailed",
            KErr::QueryFailed => "QueryFailed",
            KErr::SocketClosed => "SocketClosed",
            KErr::SocketTimeout => "SocketTimeout",
            KErr::IOErr => "IOErr",
            KErr::RecvErr => "RecvErr",
            KErr::SendErr => "SendErr",
            KErr::EncodeFailed => "EncodeFailed",
            KErr::DecodeFailed => "DecodeFailed",
            KErr::CorruptData => "CorruptData",
            KErr::BadConfig => "BadConfig",
            KErr::Generic => "Generic",
            KErr::WrongType => "WrongType",
        }
    }
}

} // verus!
