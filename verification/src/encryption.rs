use vstd::prelude::*;

verus! {

/// How a user's data is encrypted: not at all, or with a secret identified by its sign.
#[derive(Debug)]
pub enum EncryptionType {
    NoEncryption,
    SelfEncryption(String),
}

/// The sign of an encryption type: empty when there is no encryption.
pub open spec fn encryption_sign(e: EncryptionType) -> Seq<char> {
    match e {
        EncryptionType::NoEncryption => Seq::empty(),
        EncryptionType::SelfEncryption(sign) => sign@,
    }
}

/// Whether an encryption type asks for a secret: only self encryption with a non-empty
/// sign does.
pub open spec fn encryption_requires_secret(e: EncryptionType) -> bool {
    match e {
        EncryptionType::NoEncryption => false,
        EncryptionType::SelfEncryption(sign) => sign@.len() != 0,
    }
}

/// Two encryption types are the same when they are of the same kind with the same sign.
pub open spec fn encryption_same(a: EncryptionType, b: EncryptionType) -> bool {
    match (a, b) {
        (EncryptionType::NoEncryption, EncryptionType::NoEncryption) => true,
        (EncryptionType::SelfEncryption(x), EncryptionType::SelfEncryption(y)) => x@ == y@,
        _ => false,
    }
}

/// What `from_sign` gives for a sign: no encryption for the empty sign, otherwise self
/// encryption with that sign.
pub open spec fn encryption_made_from_sign(e: EncryptionType, sign: Seq<char>) -> bool {
    &&& (e is NoEncryption) == (sign.len() == 0)
    &&& encryption_sign(e) == sign
}

impl Clone for EncryptionType {
    fn clone(&self) -> (r: Self)
        ensures
            r == *self,
    {
        match self {
            EncryptionType::NoEncryption => EncryptionType::NoEncryption,
            EncryptionType::SelfEncryption(sign) => EncryptionType::SelfEncryption(sign.clone()),
        }
    }
}

impl Default for EncryptionType {
    fn default() -> (r: Self)
        ensures
            r is NoEncryption,
    {
        EncryptionType::NoEncryption
    }
}

impl PartialEq for EncryptionType {
    fn eq(&self, other: &Self) -> (r: bool) {
        match (self, other) {
            (EncryptionType::NoEncryption, EncryptionType::NoEncryption) => true,
            (EncryptionType::SelfEncryption(x), EncryptionType::SelfEncryption(y)) => x.eq(y),
            _ => false,
        }
    }
}

impl vstd::std_specs::cmp::PartialEqSpecImpl for EncryptionType {
    open spec fn obeys_eq_spec() -> bool {
        true
    }

    open spec fn eq_spec(&self, other: &EncryptionType) -> bool {
        encryption_same(*self, *other)
    }
}

impl Eq for EncryptionType {}

impl EncryptionType {
    pub fn from_sign(sign: &str) -> (r: Self)
        ensures
            encryption_made_from_sign(r, sign@),
    {
        if sign.is_empty() {
            assert(sign@ =~= Seq::empty());
            EncryptionType::NoEncryption
        } else {
            EncryptionType::SelfEncryption(sign.to_owned())
        }
    }

    pub fn require_encrypt_secret(&self) -> (r: bool)
        ensures
            r == encryption_requires_secret(*self),
    {
        match self {
            EncryptionType::NoEncryption => false,
            EncryptionType::SelfEncryption(sign) => !sign.as_str().is_empty(),
        }
    }

    pub fn sign(&self) -> (r: String)
        ensures
            r@ == encryption_sign(*self),
    {
        match self {
            EncryptionType::NoEncryption => String::new(),
            EncryptionType::SelfEncryption(sign) => sign.clone(),
        }
    }
}

/// An encryption type asks for a secret exactly when its sign is not empty.
pub proof fn lemma_secret_iff_sign(e: EncryptionType)
    ensures
        encryption_requires_secret(e) == (encryption_sign(e).len() != 0),
{
}

/// Building an encryption type from the sign of another gives back the same encryption
/// type, unless the other is self encryption with an empty sign (which comes back as no
/// encryption); and the sign of what a sign builds is that sign.
pub proof fn lemma_sign_round_trip(e: EncryptionType, r: EncryptionType)
    requires
        encryption_made_from_sign(r, encryption_sign(e)),
    ensures
        !(e is SelfEncryption && encryption_sign(e).len() == 0) ==> encryption_same(r, e),
        (e is SelfEncryption && encryption_sign(e).len() == 0) ==> r is NoEncryption,
        encryption_requires_secret(r) == encryption_requires_secret(e),
{
}

/// The sign of self encryption is its string and no encryption has an empty sign; a secret
/// is needed only for self encryption with a non-empty string; and `from_sign` builds no
/// encryption from the empty sign and self encryption with the whole sign from any other.
pub proof fn lemma_sign_meaning(e: EncryptionType, r: EncryptionType, sign: Seq<char>)
    requires
        encryption_made_from_sign(r, sign),
    ensures
        e matches EncryptionType::SelfEncryption(x) ==> encryption_sign(e) == x@
            && encryption_requires_secret(e) == (x@.len() > 0),
        e is NoEncryption ==> encryption_sign(e).len() == 0 && !encryption_requires_secret(e),
        sign.len() == 0 ==> r is NoEncryption,
        sign.len() > 0 ==> (r matches EncryptionType::SelfEncryption(x) && x@ == sign),
{
}

/// Two encryption types are equal exactly when neither encrypts, or both encrypt with the
/// same sign.
pub proof fn lemma_encryption_equality(a: EncryptionType, b: EncryptionType)
    ensures
        (a is NoEncryption && b is NoEncryption) ==> encryption_same(a, b),
        (a is NoEncryption) != (b is NoEncryption) ==> !encryption_same(a, b),
        a matches EncryptionType::SelfEncryption(x) ==> (b matches EncryptionType::SelfEncryption(y)
            ==> (encryption_same(a, b) == (x@ == y@))),
{
}

} // verus!
