//! The foreign value model and the single-owner wrapper around it.

use vstd::prelude::*;

verus! {

/// The type tag that marks a foreign value as the protocol's error
/// variant: its payload is a diagnostic string rather than data.
pub const ERROR_TAG: i8 = -128;

/// What this library reads of one foreign value: the address of its
/// allocation and the type tag of the tagged union stored there. Negative
/// tags are atoms, zero and positive tags are vectors and containers, and
/// `ERROR_TAG` is the error variant. The payload itself stays in foreign
/// memory and is decoded elsewhere.
///
/// A `KRaw` names a value the foreign layer actually returned; a foreign
/// call that came back with a null pointer yields no `KRaw` at all (the
/// reply is `None`).
#[derive(Clone, Copy, Debug, PartialEq, Eq, Structural)]
pub struct KRaw {
    pub addr: u64,
    pub type_tag: i8,
}

/// The single-owner wrapper around one foreign value. Holding a `KOwned`
/// is the permission, and the obligation, to release the foreign
/// allocation exactly once: it is created only from a reply that actually
/// carried a value, it cannot be cloned or copied, and the one way to part
/// with it is `release`, which consumes it and hands back the address the
/// caller must now free. While the wrapper lives, nothing else may free or
/// mutate the referenced memory.
pub struct KOwned {
    raw: KRaw,
}

impl View for KOwned {
    type V = KRaw;

    closed spec fn view(&self) -> KRaw {
        self.raw
    }
}

impl KOwned {
    /// Adopt a value a foreign call has just returned. This is the narrow
    /// entry point reserved for code that received `raw` from the foreign
    /// layer a moment ago and has not yet released it; adopting the same
    /// value twice would free it twice.
    pub fn new(raw: KRaw) -> (w: KOwned)
        ensures
            w@ == raw,
    {
        KOwned { raw }
    }

    /// The type tag of the owned value.
    pub fn type_tag(&self) -> (t: i8)
        ensures
            t == self@.type_tag,
    {
        self.raw.type_tag
    }

    /// The address of the foreign allocation the wrapper owns.
    pub fn addr(&self) -> (a: u64)
        ensures
            a == self@.addr,
    {
        self.raw.addr
    }

    /// Whether the owned value is the protocol's error variant.
    pub fn is_error(&self) -> (b: bool)
        ensures
            b == (self@.type_tag == ERROR_TAG),
    {
        self.raw.type_tag == ERROR_TAG
    }

    /// A read-only projection of the owned value: the same address and
    /// tag, as plain data. It carries no ownership — releasing stays this
    /// wrapper's obligation — and is what a caller hands to a foreign
    /// primitive that borrows the value for the duration of one call.
    pub fn as_raw(&self) -> (r: KRaw)
        ensures
            r == self@,
    {
        self.raw
    }

    /// Give up ownership. The returned raw names the allocation whose
    /// release now falls to the caller; the wrapper itself is gone and can
    /// trigger no second release.
    pub fn release(self) -> (r: KRaw)
        ensures
            r == self@,
    {
        self.raw
    }
}

} // verus!
