use vstd::prelude::*;

verus! {

#[verifier::external_type_specification]
#[verifier::external_body]
pub struct ExUuidError(uuid::Error);

/// A 128-bit universally unique identifier, held as its big-endian value.
#[derive(Debug, Clone, Copy, Hash, PartialEq, Eq, Structural)]
pub struct Uuid(pub u128);

/// The lowercase hexadecimal digit for a value below 16.
pub open spec fn hex_digit(n: u128) -> char {
    if n < 10 {
        (48 + n) as char
    } else {
        (87 + n) as char
    }
}

/// The `k`-th hexadecimal digit of a 128-bit value, counted from the most significant.
pub open spec fn hex_nibble(v: u128, k: int) -> u128 {
    (v >> ((124 - 4 * k) as u128)) & 0xf
}

/// Whether a position of the 36-character text form holds a hyphen.
pub open spec fn is_hyphen_position(i: int) -> bool {
    i == 8 || i == 13 || i == 18 || i == 23
}

/// The digit that a position of the text form holds, skipping the hyphens before it.
pub open spec fn digit_at_position(i: int) -> int {
    if i < 8 {
        i
    } else if i < 13 {
        i - 1
    } else if i < 18 {
        i - 2
    } else if i < 23 {
        i - 3
    } else {
        i - 4
    }
}

/// The hyphenated lowercase text of a value, such as
/// `936da01f-9abd-4d9d-80c7-02af85c822a8`: 32 hexadecimal digits in groups of 8, 4, 4, 4
/// and 12.
pub open spec fn uuid_text(v: u128) -> Seq<char> {
    Seq::new(
        36,
        |i: int|
            if is_hyphen_position(i) {
                '-'
            } else {
                hex_digit(hex_nibble(v, digit_at_position(i)))
            },
    )
}

/// The version number that a value carries (its 13th hexadecimal digit).
pub open spec fn uuid_version(v: u128) -> u128 {
    (v >> 76u128) & 0xf
}

/// Whether a value carries the RFC 4122 variant (its two bits after the 64 lowest are `10`).
pub open spec fn uuid_has_rfc_variant(v: u128) -> bool {
    (v >> 62u128) & 0x3 == 2
}

/// The value that `uuid` parses a text into, if the text is a well-formed identifier.
pub uninterp spec fn uuid_parse(text: Seq<char>) -> Option<u128>;

/// The name-based (SHA-1, version 5) identifier of a name within a namespace.
pub uninterp spec fn uuid_v5(namespace: u128, name: Seq<u8>) -> u128;

/// Calls `uuid::Uuid::new_v4`. Its bits come from the operating system's random source,
/// so the contract only says what `new_v4` always sets: version 4 and the RFC 4122
/// variant.
#[verifier::external_body]
pub(crate) fn random_uuid() -> (r: Uuid)
    ensures
        uuid_version(r.0) == 4,
        uuid_has_rfc_variant(r.0),
{
    Uuid(uuid::Uuid::new_v4().as_u128())
}

/// Calls `uuid::Uuid::new_v5` with the namespace and the name bytes. The result is named
/// by `uuid_v5`; `new_v5` also always sets version 5 and the RFC 4122 variant.
#[verifier::external_body]
pub(crate) fn name_based_uuid(namespace: Uuid, name: &[u8]) -> (r: Uuid)
    ensures
        r.0 == uuid_v5(namespace.0, name@),
        uuid_version(r.0) == 5,
        uuid_has_rfc_variant(r.0),
{
    Uuid(uuid::Uuid::new_v5(&uuid::Uuid::from_u128(namespace.0), name).as_u128())
}

/// Calls `uuid::Uuid::to_string` (its `Display`), which writes the hyphenated lowercase
/// text of the value.
#[verifier::external_body]
fn uuid_to_text(u: Uuid) -> (r: String)
    ensures
        r@ == uuid_text(u.0),
{
    uuid::Uuid::from_u128(u.0).to_string()
}

/// Calls `uuid::Uuid::from_str` (that is, `parse_str`). Which texts it accepts is named by
/// `uuid_parse`; the contract also states that the hyphenated lowercase text of a value
/// parses back to that value.
#[verifier::external_body]
fn parse_uuid(text: &str) -> (r: Result<Uuid, uuid::Error>)
    ensures
        r is Ok <==> uuid_parse(text@) is Some,
        r matches Ok(u) ==> Some(u.0) == uuid_parse(text@),
        r is Ok || forall|v: u128| #[trigger] uuid_text(v) != text@,
        r matches Ok(u) ==> forall|v: u128| #[trigger] uuid_text(v) == text@ ==> u.0 == v,
{
    match <uuid::Uuid as std::str::FromStr>::from_str(text) {
        Ok(u) => Ok(Uuid(u.as_u128())),
        Err(e) => Err(e),
    }
}

/// Calls `uuid::Error::to_string`; what the message says is left to `uuid`.
#[verifier::external_body]
fn uuid_error_text(e: &uuid::Error) -> String {
    e.to_string()
}

/// The text form of an identifier has 36 characters, hyphens exactly at positions 8, 13, 18
/// and 23, and lowercase hexadecimal digits everywhere else; its 15th character shows the
/// version and its 20th shows the variant (one of `8`, `9`, `a`, `b` for the RFC 4122
/// variant).
pub proof fn lemma_uuid_text_shape(v: u128)
    ensures
        uuid_text(v).len() == 36,
        forall|i: int| 0 <= i < 36 && is_hyphen_position(i) ==> #[trigger] uuid_text(v)[i] == '-',
        forall|i: int|
            0 <= i < 36 && !is_hyphen_position(i) ==> {
                let c = #[trigger] uuid_text(v)[i];
                ('0' <= c <= '9') || ('a' <= c <= 'f')
            },
        uuid_text(v)[14] == hex_digit(uuid_version(v)),
        uuid_has_rfc_variant(v) ==> {
            let c = uuid_text(v)[19];
            c == '8' || c == '9' || c == 'a' || c == 'b'
        },
{
    assert forall|i: int| 0 <= i < 36 && !is_hyphen_position(i) implies {
        let c = #[trigger] uuid_text(v)[i];
        ('0' <= c <= '9') || ('a' <= c <= 'f')
    } by {
        let k = digit_at_position(i);
        let shift = (124 - 4 * k) as u128;
        let n = hex_nibble(v, k);
        assert(n < 16) by (bit_vector)
            requires
                n == (v >> shift) & 0xf,
        ;
    }
    assert(hex_nibble(v, 12) == uuid_version(v)) by (bit_vector);
    let n16 = hex_nibble(v, 16);
    assert(uuid_has_rfc_variant(v) ==> 8 <= n16 < 12) by (bit_vector)
        requires
            n16 == (v >> 60u128) & 0xf,
    ;
    assert(uuid_version(v) < 16) by (bit_vector);
}

/// The position in the text form of the `k`-th hexadecimal digit.
pub open spec fn position_of_digit(k: int) -> int {
    if k < 8 {
        k
    } else if k < 12 {
        k + 1
    } else if k < 16 {
        k + 2
    } else if k < 20 {
        k + 3
    } else {
        k + 4
    }
}

proof fn lemma_same_digit(a: u128, b: u128, k: int)
    requires
        0 <= k < 32,
        uuid_text(a) == uuid_text(b),
    ensures
        hex_nibble(a, k) == hex_nibble(b, k),
{
    let i = position_of_digit(k);
    assert(!is_hyphen_position(i) && digit_at_position(i) == k);
    assert(uuid_text(a)[i] == uuid_text(b)[i]);
    let shift = (124 - 4 * k) as u128;
    let na = hex_nibble(a, k);
    let nb = hex_nibble(b, k);
    assert(na < 16 && nb < 16) by (bit_vector)
        requires
            na == (a >> shift) & 0xf,
            nb == (b >> shift) & 0xf,
    ;
    assert(uuid_text(a)[i] == hex_digit(na));
    assert(uuid_text(b)[i] == hex_digit(nb));
    assert(hex_digit(na) as int == if na < 10 { 48 + na } else { 87 + na });
    assert(hex_digit(nb) as int == if nb < 10 { 48 + nb } else { 87 + nb });
}

proof fn lemma_nibbles_determine_value(a: u128, b: u128)
    requires
            (a >> 124u128) & 0xf == (b >> 124u128) & 0xf,
            (a >> 120u128) & 0xf == (b >> 120u128) & 0xf,
            (a >> 116u128) & 0xf == (b >> 116u128) & 0xf,
            (a >> 112u128) & 0xf == (b >> 112u128) & 0xf,
            (a >> 108u128) & 0xf == (b >> 108u128) & 0xf,
            (a >> 104u128) & 0xf == (b >> 104u128) & 0xf,
            (a >> 100u128) & 0xf == (b >> 100u128) & 0xf,
            (a >> 96u128) & 0xf == (b >> 96u128) & 0xf,
            (a >> 92u128) & 0xf == (b >> 92u128) & 0xf,
            (a >> 88u128) & 0xf == (b >> 88u128) & 0xf,
            (a >> 84u128) & 0xf == (b >> 84u128) & 0xf,
            (a >> 80u128) & 0xf == (b >> 80u128) & 0xf,
            (a >> 76u128) & 0xf == (b >> 76u128) & 0xf,
            (a >> 72u128) & 0xf == (b >> 72u128) & 0xf,
            (a >> 68u128) & 0xf == (b >> 68u128) & 0xf,
            (a >> 64u128) & 0xf == (b >> 64u128) & 0xf,
            (a >> 60u128) & 0xf == (b >> 60u128) & 0xf,
            (a >> 56u128) & 0xf == (b >> 56u128) & 0xf,
            (a >> 52u128) & 0xf == (b >> 52u128) & 0xf,
            (a >> 48u128) & 0xf == (b >> 48u128) & 0xf,
            (a >> 44u128) & 0xf == (b >> 44u128) & 0xf,
            (a >> 40u128) & 0xf == (b >> 40u128) & 0xf,
            (a >> 36u128) & 0xf == (b >> 36u128) & 0xf,
            (a >> 32u128) & 0xf == (b >> 32u128) & 0xf,
            (a >> 28u128) & 0xf == (b >> 28u128) & 0xf,
            (a >> 24u128) & 0xf == (b >> 24u128) & 0xf,
            (a >> 20u128) & 0xf == (b >> 20u128) & 0xf,
            (a >> 16u128) & 0xf == (b >> 16u128) & 0xf,
            (a >> 12u128) & 0xf == (b >> 12u128) & 0xf,
            (a >> 8u128) & 0xf == (b >> 8u128) & 0xf,
            (a >> 4u128) & 0xf == (b >> 4u128) & 0xf,
            (a >> 0u128) & 0xf == (b >> 0u128) & 0xf,
    ensures
        a == b,
{
    assert(a == b) by (bit_vector)
        requires
            (a >> 124u128) & 0xf == (b >> 124u128) & 0xf,
            (a >> 120u128) & 0xf == (b >> 120u128) & 0xf,
            (a >> 116u128) & 0xf == (b >> 116u128) & 0xf,
            (a >> 112u128) & 0xf == (b >> 112u128) & 0xf,
            (a >> 108u128) & 0xf == (b >> 108u128) & 0xf,
            (a >> 104u128) & 0xf == (b >> 104u128) & 0xf,
            (a >> 100u128) & 0xf == (b >> 100u128) & 0xf,
            (a >> 96u128) & 0xf == (b >> 96u128) & 0xf,
            (a >> 92u128) & 0xf == (b >> 92u128) & 0xf,
            (a >> 88u128) & 0xf == (b >> 88u128) & 0xf,
            (a >> 84u128) & 0xf == (b >> 84u128) & 0xf,
            (a >> 80u128) & 0xf == (b >> 80u128) & 0xf,
            (a >> 76u128) & 0xf == (b >> 76u128) & 0xf,
            (a >> 72u128) & 0xf == (b >> 72u128) & 0xf,
            (a >> 68u128) & 0xf == (b >> 68u128) & 0xf,
            (a >> 64u128) & 0xf == (b >> 64u128) & 0xf,
            (a >> 60u128) & 0xf == (b >> 60u128) & 0xf,
            (a >> 56u128) & 0xf == (b >> 56u128) & 0xf,
            (a >> 52u128) & 0xf == (b >> 52u128) & 0xf,
            (a >> 48u128) & 0xf == (b >> 48u128) & 0xf,
            (a >> 44u128) & 0xf == (b >> 44u128) & 0xf,
            (a >> 40u128) & 0xf == (b >> 40u128) & 0xf,
            (a >> 36u128) & 0xf == (b >> 36u128) & 0xf,
            (a >> 32u128) & 0xf == (b >> 32u128) & 0xf,
            (a >> 28u128) & 0xf == (b >> 28u128) & 0xf,
            (a >> 24u128) & 0xf == (b >> 24u128) & 0xf,
            (a >> 20u128) & 0xf == (b >> 20u128) & 0xf,
            (a >> 16u128) & 0xf == (b >> 16u128) & 0xf,
            (a >> 12u128) & 0xf == (b >> 12u128) & 0xf,
            (a >> 8u128) & 0xf == (b >> 8u128) & 0xf,
            (a >> 4u128) & 0xf == (b >> 4u128) & 0xf,
            (a >> 0u128) & 0xf == (b >> 0u128) & 0xf,
    ;
}

/// The text form spells the value in big-endian order: the `k`-th hexadecimal digit of the
/// text is the digit of bits `124 - 4k` to `127 - 4k`, written `0`-`9` then `a`-`f`.
pub proof fn lemma_uuid_text_digits(v: u128, k: int)
    requires
        0 <= k < 32,
    ensures
        uuid_text(v)[position_of_digit(k)] == hex_digit(hex_nibble(v, k)),
        hex_nibble(v, k) == (v >> ((124 - 4 * k) as u128)) & 0xf,
        hex_nibble(v, k) < 10 ==> hex_digit(hex_nibble(v, k)) as int == '0' as int + hex_nibble(v, k),
        hex_nibble(v, k) >= 10 ==> hex_digit(hex_nibble(v, k)) as int == 'a' as int + hex_nibble(v, k) - 10,
{
    let i = position_of_digit(k);
    assert(!is_hyphen_position(i) && digit_at_position(i) == k);
    let shift = (124 - 4 * k) as u128;
    let n = hex_nibble(v, k);
    assert(n < 16) by (bit_vector)
        requires
            n == (v >> shift) & 0xf,
    ;
}

/// Distinct identifiers have distinct text forms.
pub proof fn lemma_uuid_text_injective(a: u128, b: u128)
    requires
        uuid_text(a) == uuid_text(b),
    ensures
        a == b,
{
    lemma_same_digit(a, b, 0);
    lemma_same_digit(a, b, 1);
    lemma_same_digit(a, b, 2);
    lemma_same_digit(a, b, 3);
    lemma_same_digit(a, b, 4);
    lemma_same_digit(a, b, 5);
    lemma_same_digit(a, b, 6);
    lemma_same_digit(a, b, 7);
    lemma_same_digit(a, b, 8);
    lemma_same_digit(a, b, 9);
    lemma_same_digit(a, b, 10);
    lemma_same_digit(a, b, 11);
    lemma_same_digit(a, b, 12);
    lemma_same_digit(a, b, 13);
    lemma_same_digit(a, b, 14);
    lemma_same_digit(a, b, 15);
    lemma_same_digit(a, b, 16);
    lemma_same_digit(a, b, 17);
    lemma_same_digit(a, b, 18);
    lemma_same_digit(a, b, 19);
    lemma_same_digit(a, b, 20);
    lemma_same_digit(a, b, 21);
    lemma_same_digit(a, b, 22);
    lemma_same_digit(a, b, 23);
    lemma_same_digit(a, b, 24);
    lemma_same_digit(a, b, 25);
    lemma_same_digit(a, b, 26);
    lemma_same_digit(a, b, 27);
    lemma_same_digit(a, b, 28);
    lemma_same_digit(a, b, 29);
    lemma_same_digit(a, b, 30);
    lemma_same_digit(a, b, 31);
    lemma_nibbles_determine_value(a, b);
}

impl Uuid {
    /// The hyphenated lowercase text of the identifier.
    pub fn to_string(&self) -> (r: String)
        ensures
            r@ == uuid_text(self.0),
    {
        uuid_to_text(*self)
    }

    /// Parses an identifier from its text; the error carries the parser's message.
    pub fn parse_str(text: &str) -> (r: Result<Uuid, crate::FlowyError>)
        ensures
            r is Ok <==> uuid_parse(text@) is Some,
            r matches Ok(u) ==> Some(u.0) == uuid_parse(text@),
            r matches Err(e) ==> e.code == crate::ErrorCode::Internal,
            forall|v: u128| #[trigger] uuid_text(v) == text@ ==> (r matches Ok(u) && u.0 == v),
    {
        match parse_uuid(text) {
            Ok(u) => Ok(u),
            Err(e) => Err(crate::FlowyError { code: crate::ErrorCode::Internal, msg: uuid_error_text(&e) }),
        }
    }
}

} // verus!
