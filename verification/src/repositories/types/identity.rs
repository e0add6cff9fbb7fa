//! Caller identities: the byte strings that the platform calls principals.

use candid::Principal;
use vstd::prelude::*;

verus! {

/// The longest byte string that is an identity.
pub const MAX_IDENTITY_LENGTH: usize = 29;

/// The text form of the principal with the given bytes: what
/// `candid::Principal::to_text` returns for it.
pub uninterp spec fn principal_text(bytes: Seq<u8>) -> Seq<char>;

/// The bytes of `candid::Principal::anonymous()`: the single byte 4.
#[verifier::external_body]
fn anonymous_principal_bytes() -> (bytes: Vec<u8>)
    ensures
        bytes@ == seq![4u8],
{
    Principal::anonymous().as_slice().to_vec()
}

/// The text that `candid::Principal::to_text` gives for the principal made of
/// `bytes` by `Principal::from_slice`, which takes at most 29 bytes.
#[verifier::external_body]
fn principal_to_text(bytes: &Vec<u8>) -> (text: String)
    requires
        bytes@.len() <= MAX_IDENTITY_LENGTH,
    ensures
        text@ == principal_text(bytes@),
{
    Principal::from_slice(bytes.as_slice()).to_text()
}

/// An opaque, comparable token that names a caller. It is at most
/// `MAX_IDENTITY_LENGTH` bytes long.
#[derive(Debug)]
pub struct Identity {
    bytes: Vec<u8>,
}

impl View for Identity {
    type V = Seq<u8>;

    closed spec fn view(&self) -> Seq<u8> {
        self.bytes@
    }
}

/// The bytes of the anonymous identity.
pub open spec fn anonymous_bytes() -> Seq<u8> {
    seq![4u8]
}

impl Identity {
    /// What holds of every identity: it is short enough to be a principal.
    #[verifier::type_invariant]
    pub open spec fn well_formed(&self) -> bool {
        self@.len() <= MAX_IDENTITY_LENGTH
    }

    /// The identity with the given bytes, if they are few enough.
    pub fn from_slice(bytes: &[u8]) -> (r: Option<Identity>)
        ensures
            match r {
                Some(id) => bytes@.len() <= MAX_IDENTITY_LENGTH && id@ == bytes@,
                None => bytes@.len() > MAX_IDENTITY_LENGTH,
            },
    {
        if bytes.len() > MAX_IDENTITY_LENGTH {
            return None;
        }
        let mut copy: Vec<u8> = Vec::new();
        let mut i: usize = 0;
        while i < bytes.len()
            invariant
                i <= bytes@.len(),
                copy@ == bytes@.subrange(0, i as int),
            decreases bytes@.len() - i,
        {
            copy.push(bytes[i]);
            i += 1;
        }
        assert(bytes@.subrange(0, bytes@.len() as int) == bytes@);
        Some(Identity { bytes: copy })
    }

    /// The anonymous identity, which stands for a caller that did not sign.
    pub fn anonymous() -> (id: Identity)
        ensures
            id@ == anonymous_bytes(),
    {
        Identity { bytes: anonymous_principal_bytes() }
    }

    /// The bytes of this identity.
    pub fn as_slice(&self) -> (bytes: &[u8])
        ensures
            bytes@ == self@,
    {
        self.bytes.as_slice()
    }

    /// Whether this is the anonymous identity.
    pub fn is_anonymous(&self) -> (r: bool)
        ensures
            r == (self@ == anonymous_bytes()),
    {
        let r = self.bytes.len() == 1 && self.bytes[0] == 4;
        assert(r ==> self.bytes@ =~= seq![4u8]);
        r
    }

    /// Whether the two identities are the same.
    pub fn same_as(&self, other: &Identity) -> (r: bool)
        ensures
            r == (self@ == other@),
    {
        if self.bytes.len() != other.bytes.len() {
            return false;
        }
        let mut i: usize = 0;
        while i < self.bytes.len()
            invariant
                i <= self.bytes@.len(),
                self.bytes@.len() == other.bytes@.len(),
                self.bytes@.subrange(0, i as int) == other.bytes@.subrange(0, i as int),
            decreases self.bytes@.len() - i,
        {
            if self.bytes[i] != other.bytes[i] {
                return false;
            }
            assert(self.bytes@.subrange(0, i + 1) == self.bytes@.subrange(0, i as int).push(
                self.bytes@[i as int],
            ));
            assert(other.bytes@.subrange(0, i + 1) == other.bytes@.subrange(0, i as int).push(
                other.bytes@[i as int],
            ));
            i += 1;
        }
        assert(self.bytes@ == self.bytes@.subrange(0, self.bytes@.len() as int));
        assert(other.bytes@ == other.bytes@.subrange(0, other.bytes@.len() as int));
        true
    }

    /// The text form of this identity.
    pub fn to_text(&self) -> (text: String)
        ensures
            text@ == principal_text(self@),
    {
        proof {
            use_type_invariant(self);
        }
        principal_to_text(&self.bytes)
    }
}

impl Clone for Identity {
    fn clone(&self) -> (copy: Identity)
        ensures
            copy@ == self@,
    {
        proof {
            use_type_invariant(self);
        }
        Identity { bytes: self.bytes.clone() }
    }
}

impl PartialEq for Identity {
    fn eq(&self, other: &Identity) -> (r: bool) {
        self.same_as(other)
    }
}

impl Eq for Identity {

}

impl vstd::std_specs::cmp::PartialEqSpecImpl for Identity {
    open spec fn obeys_eq_spec() -> bool {
        true
    }

    open spec fn eq_spec(&self, other: &Identity) -> bool {
        self@ == other@
    }
}

} // verus!
