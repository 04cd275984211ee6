use vstd::prelude::*;

use crate::error::{RuntimeError, is_config_err};
use crate::farm_config::{
    DocumentView, FarmConfigDocument, FarmLocation, FarmMissingField, LocationView, is_base64url_char,
    is_d_tag,
};
use crate::find::join_with;
use crate::text::{
    append_str, char_vecs_view, chars_of, concat2, owned, push_char, split, split_chars, string_of,
    strings_view, trim, trim_string, upper_char, upper_char_exec,
};
use vstd::utf8::encode_utf8;

verus! {

/// The base64url digit of value `v < 64`.
pub open spec fn b64_char(v: int) -> char {
    if v < 26 {
        ('A' as int + v) as char
    } else if v < 52 {
        ('a' as int + (v - 26)) as char
    } else if v < 62 {
        ('0' as int + (v - 52)) as char
    } else if v == 62 {
        '-'
    } else {
        '_'
    }
}

/// Unpadded base64url of `bytes`: each three bytes give four digits, a trailing byte two, a
/// trailing pair three.
pub open spec fn base64url(bytes: Seq<u8>) -> Seq<char>
    decreases bytes.len(),
{
    if bytes.len() >= 3 {
        seq![
            b64_char((bytes[0] as int) / 4),
            b64_char(((bytes[0] as int) % 4) * 16 + (bytes[1] as int) / 16),
            b64_char(((bytes[1] as int) % 16) * 4 + (bytes[2] as int) / 64),
            b64_char((bytes[2] as int) % 64),
        ] + base64url(bytes.skip(3))
    } else if bytes.len() == 2 {
        seq![
            b64_char((bytes[0] as int) / 4),
            b64_char(((bytes[0] as int) % 4) * 16 + (bytes[1] as int) / 16),
            b64_char(((bytes[1] as int) % 16) * 4),
        ]
    } else if bytes.len() == 1 {
        seq![b64_char((bytes[0] as int) / 4), b64_char(((bytes[0] as int) % 4) * 16)]
    } else {
        seq![]
    }
}

fn b64_digit(v: u32) -> (r: char)
    requires
        v < 64,
    ensures
        r == b64_char(v as int),
        is_base64url_char(r),
{
    if v < 26 {
        ((65 + v) as u8) as char
    } else if v < 52 {
        ((97 + (v - 26)) as u8) as char
    } else if v < 62 {
        ((48 + (v - 52)) as u8) as char
    } else if v == 62 {
        '-'
    } else {
        '_'
    }
}

proof fn lemma_base64url_digits(bytes: Seq<u8>)
    ensures
        forall|i: int| 0 <= i < base64url(bytes).len() ==> #[trigger] is_base64url_char(base64url(bytes)[i]),
        base64url(bytes).len() == (bytes.len() / 3) * 4 + (if bytes.len() % 3 == 0 {
            0int
        } else {
            bytes.len() % 3 + 1int
        }),
    decreases bytes.len(),
{
    assert forall|v: int| 0 <= v < 64 implies #[trigger] is_base64url_char(b64_char(v)) by {
    }
    if bytes.len() >= 3 {
        lemma_base64url_digits(bytes.skip(3));
        assert((bytes[0] as int) / 4 < 64);
        assert(((bytes[0] as int) % 4) * 16 + (bytes[1] as int) / 16 < 64);
        assert(((bytes[1] as int) % 16) * 4 + (bytes[2] as int) / 64 < 64);
        let head = seq![
            b64_char((bytes[0] as int) / 4),
            b64_char(((bytes[0] as int) % 4) * 16 + (bytes[1] as int) / 16),
            b64_char(((bytes[1] as int) % 16) * 4 + (bytes[2] as int) / 64),
            b64_char((bytes[2] as int) % 64),
        ];
        assert forall|i: int| 0 <= i < base64url(bytes).len() implies #[trigger] is_base64url_char(
            base64url(bytes)[i],
        ) by {
            if i < 4 {
                assert(base64url(bytes)[i] == head[i]);
            } else {
                assert(base64url(bytes)[i] == base64url(bytes.skip(3))[i - 4]);
            }
        }
    } else if bytes.len() == 2 {
        assert(((bytes[0] as int) % 4) * 16 + (bytes[1] as int) / 16 < 64);
        assert(((bytes[1] as int) % 16) * 4 < 64);
    } else if bytes.len() == 1 {
        assert(((bytes[0] as int) % 4) * 16 < 64);
    }
}

proof fn lemma_block_digits(b0: u8, b1: u8, b2: u8)
    ensures
        ({
            let block = ((b0 as u32) << 16u32) | ((b1 as u32) << 8u32) | (b2 as u32);
            &&& (block >> 18u32) & 0x3f == (b0 / 4) as u32
            &&& (block >> 12u32) & 0x3f == ((b0 % 4) * 16 + b1 / 16) as u32
            &&& (block >> 6u32) & 0x3f == ((b1 % 16) * 4 + b2 / 64) as u32
            &&& block & 0x3f == (b2 % 64) as u32
        }),
{
    assert(({
        let block = ((b0 as u32) << 16u32) | ((b1 as u32) << 8u32) | (b2 as u32);
        &&& (block >> 18u32) & 0x3f == (b0 / 4) as u32
        &&& (block >> 12u32) & 0x3f == ((b0 % 4) * 16 + b1 / 16) as u32
        &&& (block >> 6u32) & 0x3f == ((b1 % 16) * 4 + b2 / 64) as u32
        &&& block & 0x3f == (b2 % 64) as u32
    })) by (bit_vector);
}

/// Unpadded base64url of sixteen bytes: twenty-two digits.
pub fn encode_base64url_no_pad(bytes: [u8; 16]) -> (r: String)
    ensures
        r@ == base64url(bytes@),
        is_d_tag(r@),
{
    let mut output = String::new();
    let mut index: usize = 0;
    proof {
        assert(bytes@.skip(0) =~= bytes@);
        assert(output@ + base64url(bytes@) =~= base64url(bytes@));
    }
    while index + 3 <= 16
        invariant
            index <= 16,
            index % 3 == 0,
            output@ + base64url(bytes@.skip(index as int)) == base64url(bytes@),
        decreases 16 - index,
    {
        let b0 = bytes[index];
        let b1 = bytes[index + 1];
        let b2 = bytes[index + 2];
        let block: u32 = ((b0 as u32) << 16u32) | ((b1 as u32) << 8u32) | (b2 as u32);
        proof {
            lemma_block_digits(b0, b1, b2);
            let rest = bytes@.skip(index as int);
            assert(rest[0] == b0 && rest[1] == b1 && rest[2] == b2);
            assert(rest.skip(3) =~= bytes@.skip(index + 3));
        }
        let ghost before = output@;
        push_char(&mut output, b64_digit((block >> 18u32) & 0x3f));
        push_char(&mut output, b64_digit((block >> 12u32) & 0x3f));
        push_char(&mut output, b64_digit((block >> 6u32) & 0x3f));
        push_char(&mut output, b64_digit(block & 0x3f));
        proof {
            let rest = bytes@.skip(index as int);
            let head = seq![
                b64_char((rest[0] as int) / 4),
                b64_char(((rest[0] as int) % 4) * 16 + (rest[1] as int) / 16),
                b64_char(((rest[1] as int) % 16) * 4 + (rest[2] as int) / 64),
                b64_char((rest[2] as int) % 64),
            ];
            assert(output@ =~= before + head);
            assert(base64url(rest) == head + base64url(bytes@.skip(index + 3)));
            assert((before + head) + base64url(bytes@.skip(index + 3)) =~= before + (head
                + base64url(bytes@.skip(index + 3))));
        }
        index += 3;
    }
    let b0 = bytes[15];
    let zero: u8 = 0;
    let block: u32 = ((b0 as u32) << 16u32) | ((zero as u32) << 8u32) | (zero as u32);
    proof {
        lemma_block_digits(b0, 0, 0);
        assert(index == 15);
        let rest = bytes@.skip(15);
        assert(rest.len() == 1 && rest[0] == b0);
    }
    let ghost before = output@;
    push_char(&mut output, b64_digit((block >> 18u32) & 0x3f));
    push_char(&mut output, b64_digit((block >> 12u32) & 0x3f));
    proof {
        let rest = bytes@.skip(15);
        assert(output@ =~= before + base64url(rest));
        lemma_base64url_digits(bytes@);
        assert(base64url(bytes@).len() == 22);
    }
    output
}

/// The sixteen big-endian bytes of `v`.
pub open spec fn be_bytes(v: u128) -> Seq<u8> {
    Seq::new(16, |i: int| ((v >> ((8 * (15 - i)) as u128)) & 0xff) as u8)
}

fn to_be_bytes(v: u128) -> (r: [u8; 16])
    ensures
        r@ == be_bytes(v),
{
    let mut r: [u8; 16] = [0u8; 16];
    let mut i: usize = 0;
    while i < 16
        invariant
            i <= 16,
            r@.len() == 16,
            forall|j: int| 0 <= j < i ==> r@[j] == ((v >> ((8 * (15 - j)) as u128)) & 0xff) as u8,
        decreases 16 - i,
    {
        let shift: u128 = (8 * (15 - i)) as u128;
        r[i] = ((v >> shift) & 0xff) as u8;
        i += 1;
    }
    proof {
        assert(r@ =~= be_bytes(v));
    }
    r
}

/// A fresh farm or listing identifier from a clock reading and a counter that differs between
/// calls: the base64url of their exclusive or.
pub fn generate_d_tag(nanos: u128, counter: u128) -> (r: String)
    ensures
        r@ == base64url(be_bytes(nanos ^ counter)),
        is_d_tag(r@),
{
    encode_base64url_no_pad(to_be_bytes(nanos ^ counter))
}

/// `value` trimmed, refusing blank text with "`field` must not be empty".
pub open spec fn required_text_result(value: Seq<char>, field: Seq<char>) -> Result<Seq<char>, Seq<char>> {
    if trim(value).len() == 0 {
        Err(field + " must not be empty"@)
    } else {
        Ok(trim(value))
    }
}

/// `value` trimmed; blank text is refused.
pub fn required_text(value: &str, field: &str) -> (r: Result<String, RuntimeError>)
    ensures
        match required_text_result(value@, field@) {
            Ok(t) => r matches Ok(x) && x@ == t,
            Err(m) => is_config_err(r, m),
        },
{
    let t = trim_string(value);
    if t.as_str().is_empty() {
        return Err(RuntimeError::Config(concat2(field, " must not be empty")));
    }
    Ok(t)
}

/// `value` trimmed, which must be a d-tag identifier.
pub fn required_d_tag(value: &str, field: &str) -> (r: Result<String, RuntimeError>)
    ensures
        match required_text_result(value@, field@) {
            Err(m) => is_config_err(r, m),
            Ok(t) => if is_d_tag(t) {
                r matches Ok(x) && x@ == t
            } else {
                is_config_err(r, field@ + " must be a 22-character base64url identifier"@)
            },
        },
{
    let v = match required_text(value, field) {
        Ok(v) => v,
        Err(e) => {
            return Err(e);
        },
    };
    if !crate::farm_config::is_d_tag_base64url(v.as_str()) {
        return Err(RuntimeError::Config(concat2(field, " must be a 22-character base64url identifier")));
    }
    Ok(v)
}

/// Whether `c` is an ASCII hexadecimal digit.
pub open spec fn is_hex_char(c: char) -> bool {
    ('0' <= c && c <= '9') || ('a' <= c && c <= 'f') || ('A' <= c && c <= 'F')
}

/// Whether `s` has the shape of a version 7 UUID: 36 characters, dashes at 8, 13, 18 and 23,
/// `7` at 14, a variant digit `8`, `9`, `a` or `b` at 19, and hexadecimal digits elsewhere.
pub open spec fn is_uuid_v7(s: Seq<char>) -> bool {
    &&& s.len() == 36
    &&& s[8] == '-' && s[13] == '-' && s[18] == '-' && s[23] == '-'
    &&& s[14] == '7'
    &&& (s[19] == '8' || s[19] == '9' || s[19] == 'a' || s[19] == 'b')
    &&& forall|i: int|
        0 <= i < 36 && i != 8 && i != 13 && i != 18 && i != 23 ==> #[trigger] is_hex_char(s[i])
}

/// Whether `value` has the shape of a version 7 UUID.
pub fn is_uuid_v7_idempotency_key(value: &str) -> (r: bool)
    ensures
        r == is_uuid_v7(value@),
{
    let cs = chars_of(value);
    if cs.len() != 36 {
        return false;
    }
    if !(cs[8] == '-' && cs[13] == '-' && cs[18] == '-' && cs[23] == '-' && cs[14] == '7') {
        return false;
    }
    if !(cs[19] == '8' || cs[19] == '9' || cs[19] == 'a' || cs[19] == 'b') {
        return false;
    }
    let mut i: usize = 0;
    while i < 36
        invariant
            cs@ == value@,
            cs@.len() == 36,
            i <= 36,
            forall|j: int|
                0 <= j < i && j != 8 && j != 13 && j != 18 && j != 23 ==> #[trigger] is_hex_char(cs@[j]),
        decreases 36 - i,
    {
        if i != 8 && i != 13 && i != 18 && i != 23 {
            let c = cs[i];
            if !(('0' <= c && c <= '9') || ('a' <= c && c <= 'f') || ('A' <= c && c <= 'F')) {
                proof {
                    assert(!is_hex_char(value@[i as int]));
                }
                return false;
            }
        }
        i += 1;
    }
    true
}

/// The FNV-1a offset basis.
pub open spec fn fnv_offset() -> u64 {
    0xcbf2_9ce4_8422_2325
}

/// The FNV-1a prime.
pub open spec fn fnv_prime() -> u64 {
    0x0000_0100_0000_01b3
}

/// FNV-1a of `bytes`, continuing from the hash `h`.
pub open spec fn fnv1a_from(h: u64, bytes: Seq<u8>) -> u64
    decreases bytes.len(),
{
    if bytes.len() == 0 {
        h
    } else {
        fnv1a_from((h ^ (bytes[0] as u64)).wrapping_mul(fnv_prime()), bytes.drop_first())
    }
}

fn fnv1a_extend(h: u64, bytes: &[u8]) -> (r: u64)
    ensures
        r == fnv1a_from(h, bytes@),
{
    let mut hash = h;
    let mut i: usize = 0;
    proof {
        assert(bytes@.skip(0) =~= bytes@);
    }
    while i < bytes.len()
        invariant
            i <= bytes@.len(),
            fnv1a_from(hash, bytes@.skip(i as int)) == fnv1a_from(h, bytes@),
        decreases bytes@.len() - i,
    {
        proof {
            assert(bytes@.skip(i as int).drop_first() =~= bytes@.skip(i + 1));
        }
        hash = (hash ^ (bytes[i] as u64)).wrapping_mul(0x0000_0100_0000_01b3);
        i += 1;
    }
    hash
}

proof fn lemma_fnv_concat(h: u64, a: Seq<u8>, b: Seq<u8>)
    ensures
        fnv1a_from(h, a + b) == fnv1a_from(fnv1a_from(h, a), b),
    decreases a.len(),
{
    if a.len() == 0 {
        assert(a + b =~= b);
    } else {
        assert((a + b).drop_first() =~= a.drop_first() + b);
        lemma_fnv_concat((h ^ (a[0] as u64)).wrapping_mul(fnv_prime()), a.drop_first(), b);
    }
}

/// The lowercase hexadecimal digit of `d < 16`.
pub open spec fn hex_digit(d: int) -> char {
    if d < 10 {
        ('0' as int + d) as char
    } else {
        ('a' as int + (d - 10)) as char
    }
}

/// The lowest `n` hexadecimal digits of `v`, most significant first.
pub open spec fn hex_fixed(v: nat, n: nat) -> Seq<char>
    decreases n,
{
    if n == 0 {
        seq![]
    } else {
        hex_fixed(v / 16, (n - 1) as nat).push(hex_digit((v % 16) as int))
    }
}

fn hex_fixed_string(v: u64, n: u64) -> (r: String)
    ensures
        r@ == hex_fixed(v as nat, n as nat),
    decreases n,
{
    if n == 0 {
        String::new()
    } else {
        let mut r = hex_fixed_string(v / 16, n - 1);
        let d = v % 16;
        let c: char = if d < 10 {
            ((48 + d) as u8) as char
        } else {
            ((97 + (d - 10)) as u8) as char
        };
        push_char(&mut r, c);
        r
    }
}

/// The per-component idempotency key: the key's first 24 characters followed by the low 48 bits,
/// in twelve hexadecimal digits, of the FNV-1a hash of the key's bytes, a colon and the
/// component's bytes.
pub open spec fn component_key(key: Seq<char>, component: Seq<char>) -> Seq<char> {
    let hash = fnv1a_from(fnv_offset(), encode_utf8(key) + seq![58u8] + encode_utf8(component));
    key.take(24) + hex_fixed((hash & 0xffff_ffff_ffff) as nat, 12)
}

/// The idempotency key of one published component, derived from a UUIDv7 key.
pub fn derive_component_idempotency_key(key: &str, component: &str) -> (r: Result<String, RuntimeError>)
    ensures
        is_uuid_v7(key@) ==> (r matches Ok(x) && x@ == component_key(key@, component@)),
        !is_uuid_v7(key@) ==> is_config_err(r, "idempotency_key must be a UUIDv7"@),
{
    if !is_uuid_v7_idempotency_key(key) {
        return Err(RuntimeError::Config(owned("idempotency_key must be a UUIDv7")));
    }
    let colon: [u8; 1] = [58u8];
    let h1 = fnv1a_extend(0xcbf2_9ce4_8422_2325, key.as_bytes());
    let h2 = fnv1a_extend(h1, &colon);
    let hash = fnv1a_extend(h2, component.as_bytes());
    proof {
        lemma_fnv_concat(fnv_offset(), encode_utf8(key@), seq![58u8]);
        lemma_fnv_concat(fnv_offset(), encode_utf8(key@) + seq![58u8], encode_utf8(component@));
        assert(colon@ =~= seq![58u8]);
    }
    let cs = chars_of(key);
    let mut out = string_of(&cs.as_slice()[0..24]);
    proof {
        assert(cs@.subrange(0, 24) =~= key@.take(24));
    }
    let digits = hex_fixed_string(hash & 0xffff_ffff_ffff, 12);
    append_str(&mut out, digits.as_str());
    Ok(out)
}

/// The idempotency key of `component`, when the command was given a key.
pub fn component_idempotency_key(idempotency_key: Option<&str>, component: &str) -> (r: Result<
    Option<String>,
    RuntimeError,
>)
    ensures
        match idempotency_key {
            None => r matches Ok(None),
            Some(k) => match required_text_result(k@, "idempotency_key"@) {
                Err(m) => is_config_err(r, m),
                Ok(t) => if is_uuid_v7(t) {
                    r matches Ok(Some(x)) && x@ == component_key(t, component@)
                } else {
                    is_config_err(r, "idempotency_key must be a UUIDv7"@)
                },
            },
        },
{
    match idempotency_key {
        None => Ok(None),
        Some(k) => {
            let key = match required_text(k, "idempotency_key") {
                Ok(t) => t,
                Err(e) => {
                    return Err(e);
                },
            };
            match derive_component_idempotency_key(key.as_str(), component) {
                Ok(x) => Ok(Some(x)),
                Err(e) => Err(e),
            }
        },
    }
}

/// The labels of the missing fields, in order.
pub fn missing_field_labels(missing: &[FarmMissingField]) -> (r: Vec<String>)
    ensures
        strings_view(r@) == missing@.map_values(|f: FarmMissingField| f.label_view()),
{
    let mut r: Vec<String> = Vec::new();
    for i in 0..missing.len()
        invariant
            strings_view(r@) == missing@.take(i as int).map_values(|f: FarmMissingField| f.label_view()),
    {
        let ghost prior = strings_view(r@);
        r.push(owned(missing[i].label()));
        proof {
            assert(strings_view(r@) =~= prior.push(missing@[i as int].label_view()));
            assert(missing@.take(i + 1) =~= missing@.take(i as int).push(missing@[i as int]));
            assert(missing@.take(i + 1).map_values(|f: FarmMissingField| f.label_view()) =~= missing@.take(
                i as int,
            ).map_values(|f: FarmMissingField| f.label_view()).push(missing@[i as int].label_view()));
            assert(strings_view(r@) =~= missing@.take(i + 1).map_values(|f: FarmMissingField| f.label_view()));
        }
    }
    proof {
        assert(missing@.take(missing@.len() as int) =~= missing@);
    }
    r
}

/// The command that fills in a missing field.
pub open spec fn field_action(f: FarmMissingField) -> Seq<char> {
    match f {
        FarmMissingField::Name => "radroots farm set name \"La Huerta Farm\""@,
        FarmMissingField::Location => "radroots farm set location \"San Francisco, CA\""@,
        FarmMissingField::Delivery => "radroots farm set delivery pickup"@,
        FarmMissingField::Country => "radroots farm set country US"@,
    }
}

/// `acts` with `a` added at the end unless it is already there.
pub open spec fn add_unique(acts: Seq<Seq<char>>, a: Seq<char>) -> Seq<Seq<char>> {
    if acts.contains(a) {
        acts
    } else {
        acts.push(a)
    }
}

/// The commands that fill in the missing fields, each once, in the order first needed.
pub open spec fn field_actions(missing: Seq<FarmMissingField>) -> Seq<Seq<char>>
    decreases missing.len(),
{
    if missing.len() == 0 {
        seq![]
    } else {
        add_unique(field_actions(missing.drop_last()), field_action(missing.last()))
    }
}

/// Adds `action` unless `actions` already holds it.
pub fn push_action(actions: &mut Vec<String>, action: &str)
    ensures
        strings_view(final(actions)@) == add_unique(strings_view(old(actions)@), action@),
{
    let mut i: usize = 0;
    while i < actions.len()
        invariant
            i <= actions@.len(),
            forall|j: int| 0 <= j < i ==> actions@[j]@ != action@,
        decreases actions@.len() - i,
    {
        if crate::text::str_eq(actions[i].as_str(), action) {
            proof {
                assert(strings_view(actions@)[i as int] == action@);
            }
            return;
        }
        i += 1;
    }
    proof {
        assert(!strings_view(actions@).contains(action@)) by {
            if strings_view(actions@).contains(action@) {
                let j = choose|j: int| 0 <= j < strings_view(actions@).len() && strings_view(actions@)[j] == action@;
                assert(actions@[j]@ == action@);
            }
        }
    }
    let ghost before = strings_view(actions@);
    actions.push(owned(action));
    proof {
        assert(strings_view(actions@) =~= before.push(action@));
    }
}

/// The commands that fill in the missing fields, each once, in the order first needed.
pub fn missing_field_actions(missing: &[FarmMissingField]) -> (r: Vec<String>)
    ensures
        strings_view(r@) == field_actions(missing@),
{
    let mut actions: Vec<String> = Vec::new();
    for i in 0..missing.len()
        invariant
            strings_view(actions@) == field_actions(missing@.take(i as int)),
    {
        let action = match missing[i] {
            FarmMissingField::Name => "radroots farm set name \"La Huerta Farm\"",
            FarmMissingField::Location => "radroots farm set location \"San Francisco, CA\"",
            FarmMissingField::Delivery => "radroots farm set delivery pickup",
            FarmMissingField::Country => "radroots farm set country US",
        };
        push_action(&mut actions, action);
        proof {
            assert(missing@.take(i + 1).drop_last() =~= missing@.take(i as int));
        }
    }
    proof {
        assert(missing@.take(missing@.len() as int) =~= missing@);
    }
    actions
}

/// Whether the missing fields keep listings from taking farm defaults.
pub fn missing_blocks_listing_defaults(missing: &[FarmMissingField]) -> (r: bool)
    ensures
        r == exists|i: int|
            0 <= i < missing@.len() && (#[trigger] missing@[i] == FarmMissingField::Location
                || missing@[i] == FarmMissingField::Delivery),
{
    let mut i: usize = 0;
    while i < missing.len()
        invariant
            i <= missing@.len(),
            forall|j: int|
                0 <= j < i ==> !(missing@[j] == FarmMissingField::Location || missing@[j]
                    == FarmMissingField::Delivery),
        decreases missing@.len() - i,
    {
        if missing[i] == FarmMissingField::Location || missing[i] == FarmMissingField::Delivery {
            return true;
        }
        i += 1;
    }
    false
}

/// The dry-run command that rebinds the farm to the account `selector`.
pub fn farm_rebind_dry_run_action(selector: &str) -> (r: String)
    ensures
        r@ == "radroots --dry-run account select "@ + selector@,
{
    concat2("radroots --dry-run account select ", selector)
}

/// The command that rebinds the farm to the account `selector`.
pub fn farm_rebind_live_action(selector: &str) -> (r: String)
    ensures
        r@ == "radroots account select "@ + selector@,
{
    concat2("radroots account select ", selector)
}

/// The dry-run and live rebind commands.
pub fn farm_rebind_recovery_actions(selector: &str) -> (r: Vec<String>)
    ensures
        strings_view(r@) == seq![
            "radroots --dry-run account select "@ + selector@,
            "radroots account select "@ + selector@,
        ],
{
    let mut r: Vec<String> = Vec::new();
    r.push(farm_rebind_dry_run_action(selector));
    r.push(farm_rebind_live_action(selector));
    proof {
        assert(strings_view(r@) =~= seq![
            "radroots --dry-run account select "@ + selector@,
            "radroots account select "@ + selector@,
        ]);
    }
    r
}

/// How to recover a farm whose seller account is missing: import it, or rebind.
pub fn farm_bound_seller_recovery_actions(selector: &str) -> (r: Vec<String>)
    ensures
        strings_view(r@) == seq![
            "radroots account import <path>"@,
            "radroots --dry-run account select "@ + selector@,
            "radroots account select "@ + selector@,
        ],
{
    let mut r: Vec<String> = Vec::new();
    r.push(owned("radroots account import <path>"));
    r.push(farm_rebind_dry_run_action(selector));
    r.push(farm_rebind_live_action(selector));
    proof {
        assert(strings_view(r@) =~= seq![
            "radroots account import <path>"@,
            "radroots --dry-run account select "@ + selector@,
            "radroots account select "@ + selector@,
        ]);
    }
    r
}

/// How to get an account at all.
pub fn account_recovery_actions() -> (r: Vec<String>)
    ensures
        strings_view(r@) == seq!["radroots account import <path>"@, "radroots account create"@],
{
    let mut r: Vec<String> = Vec::new();
    r.push(owned("radroots account import <path>"));
    r.push(owned("radroots account create"));
    proof {
        assert(strings_view(r@) =~= seq!["radroots account import <path>"@, "radroots account create"@]);
    }
    r
}

/// Why a farm-bound seller account is missing.
pub fn missing_farm_bound_seller_reason(account_id: &str) -> (r: String)
    ensures
        r@ == "farm-bound seller account `"@ + account_id@
            + "` is not present in the local account store"@,
{
    let mut r = concat2("farm-bound seller account `", account_id);
    append_str(&mut r, "` is not present in the local account store");
    r
}

/// Whether a component counts as published: a non-blank event id or a publish time.
pub open spec fn is_published(event_id: Option<Seq<char>>, published_at: Option<u64>) -> bool {
    (event_id is Some && trim(event_id->0).len() > 0) || published_at is Some
}

/// `published` or `not_published`.
pub fn publish_state(event_id: Option<&str>, published_at: Option<u64>) -> (r: &'static str)
    ensures
        r@ == (if is_published(
            match event_id {
                Some(e) => Some(e@),
                None => None,
            },
            published_at,
        ) {
            "published"@
        } else {
            "not_published"@
        }),
{
    let has_event = match event_id {
        Some(e) => !crate::text::is_blank_str(e),
        None => false,
    };
    if has_event || published_at.is_some() {
        "published"
    } else {
        "not_published"
    }
}

/// `word` with its first character in ASCII upper case.
pub open spec fn capitalized(word: Seq<char>) -> Seq<char> {
    if word.len() == 0 {
        seq![]
    } else {
        seq![upper_char(word[0])] + word.drop_first()
    }
}

/// `word` with its first character in ASCII upper case.
pub fn capitalize_ascii_word(word: &[char]) -> (r: String)
    ensures
        r@ == capitalized(word@),
{
    if word.len() == 0 {
        return String::new();
    }
    let mut r = String::new();
    push_char(&mut r, upper_char_exec(word[0]));
    let rest = string_of(&word[1..word.len()]);
    append_str(&mut r, rest.as_str());
    proof {
        assert(word@.subrange(1, word@.len() as int) =~= word@.drop_first());
        assert(r@ =~= capitalized(word@));
    }
    r
}

proof fn lemma_filter_push<A>(s: Seq<A>, x: A, p: spec_fn(A) -> bool)
    ensures
        s.push(x).filter(p) == (if p(x) {
            s.filter(p).push(x)
        } else {
            s.filter(p)
        }),
{
    reveal(Seq::filter);
    assert(s.push(x).drop_last() =~= s);
}

/// A delivery method shown as words: its `_`-separated pieces capitalized and joined by spaces.
pub open spec fn delivery_display(value: Seq<char>) -> Seq<char> {
    join_with(
        split(value, '_').filter(|p: Seq<char>| p.len() > 0).map_values(|p: Seq<char>| capitalized(p)),
        " "@,
    )
}

/// A delivery method shown as words.
pub fn display_delivery_method(value: &str) -> (r: String)
    ensures
        r@ == delivery_display(value@),
{
    let cs = chars_of(value);
    let pieces = split_chars(cs.as_slice(), '_');
    let mut words: Vec<String> = Vec::new();
    for i in 0..pieces.len()
        invariant
            char_vecs_view(pieces@) == split(value@, '_'),
            strings_view(words@) == char_vecs_view(pieces@.take(i as int)).filter(|p: Seq<char>| p.len() > 0).map_values(|p: Seq<char>| capitalized(p)),
    {
        proof {
            let before = char_vecs_view(pieces@.take(i as int));
            assert(char_vecs_view(pieces@.take(i + 1)) =~= before.push(pieces@[i as int]@));
            lemma_filter_push(before, pieces@[i as int]@, |p: Seq<char>| p.len() > 0);
        }
        if pieces[i].len() > 0 {
            let w = capitalize_ascii_word(pieces[i].as_slice());
            let ghost prior = strings_view(words@);
            words.push(w);
            proof {
                assert(strings_view(words@) =~= prior.push(capitalized(pieces@[i as int]@)));
                let before = char_vecs_view(pieces@.take(i as int));
                assert(before.filter(|p: Seq<char>| p.len() > 0).push(pieces@[i as int]@).map_values(|p: Seq<char>| capitalized(p)) =~= before.filter(|p: Seq<char>| p.len() > 0).map_values(|p: Seq<char>| capitalized(p)).push(capitalized(pieces@[i as int]@)));
            }
        }
    }
    proof {
        assert(pieces@.take(pieces@.len() as int) =~= pieces@);
    }
    crate::find::join_strings(&words, " ")
}

/// A field `farm set` can change.
#[derive(Debug, Clone, Copy, PartialEq, Eq, Structural)]
pub enum FarmField {
    Name,
    DisplayName,
    About,
    Website,
    Picture,
    Banner,
    Location,
    City,
    Region,
    Country,
    Geohash,
    Delivery,
}

/// The name a field is shown under.
pub open spec fn field_title(field: FarmField) -> Seq<char> {
    match field {
        FarmField::Name => "Name"@,
        FarmField::DisplayName => "Display name"@,
        FarmField::About => "About"@,
        FarmField::Website => "Website"@,
        FarmField::Picture => "Picture"@,
        FarmField::Banner => "Banner"@,
        FarmField::Location => "Location"@,
        FarmField::City => "City"@,
        FarmField::Region => "Region"@,
        FarmField::Country => "Country"@,
        FarmField::Geohash => "Geohash"@,
        FarmField::Delivery => "Delivery"@,
    }
}

/// The name a field is shown under.
pub fn terminal_field_name(field: FarmField) -> (r: &'static str)
    ensures
        r@ == field_title(field),
{
    match field {
        FarmField::Name => "Name",
        FarmField::DisplayName => "Display name",
        FarmField::About => "About",
        FarmField::Website => "Website",
        FarmField::Picture => "Picture",
        FarmField::Banner => "Banner",
        FarmField::Location => "Location",
        FarmField::City => "City",
        FarmField::Region => "Region",
        FarmField::Country => "Country",
        FarmField::Geohash => "Geohash",
        FarmField::Delivery => "Delivery",
    }
}

/// A field's value as shown: delivery methods as words, other values as given.
pub fn terminal_field_value(field: FarmField, value: &str) -> (r: String)
    ensures
        r@ == (if field == FarmField::Delivery {
            delivery_display(value@)
        } else {
            value@
        }),
{
    match field {
        FarmField::Delivery => display_delivery_method(value),
        _ => owned(value),
    }
}

/// The farm location a location update starts from: the farm's own, else one seeded from the
/// listing defaults.
pub open spec fn location_base(d: DocumentView) -> LocationView {
    match d.farm.location {
        Some(l) => l,
        None => LocationView {
            primary: Some(d.defaults.primary),
            city: d.defaults.city,
            region: d.defaults.region,
            country: d.defaults.country,
        },
    }
}

/// The document after `farm set field v`.
pub open spec fn field_updated(d: DocumentView, field: FarmField, v: Seq<char>) -> DocumentView {
    let base = location_base(d);
    match field {
        FarmField::Name => DocumentView {
            profile: crate::farm_config::ProfileView { name: v, ..d.profile },
            farm: crate::farm_config::FarmView { name: v, ..d.farm },
            ..d
        },
        FarmField::DisplayName => DocumentView {
            profile: crate::farm_config::ProfileView { display_name: Some(v), ..d.profile },
            ..d
        },
        FarmField::About => DocumentView {
            profile: crate::farm_config::ProfileView { about: Some(v), ..d.profile },
            farm: crate::farm_config::FarmView { about: Some(v), ..d.farm },
            ..d
        },
        FarmField::Website => DocumentView {
            profile: crate::farm_config::ProfileView { website: Some(v), ..d.profile },
            farm: crate::farm_config::FarmView { website: Some(v), ..d.farm },
            ..d
        },
        FarmField::Picture => DocumentView {
            profile: crate::farm_config::ProfileView { picture: Some(v), ..d.profile },
            farm: crate::farm_config::FarmView { picture: Some(v), ..d.farm },
            ..d
        },
        FarmField::Banner => DocumentView {
            profile: crate::farm_config::ProfileView { banner: Some(v), ..d.profile },
            farm: crate::farm_config::FarmView { banner: Some(v), ..d.farm },
            ..d
        },
        FarmField::Location => DocumentView {
            defaults: crate::farm_config::DefaultsView { primary: v, ..d.defaults },
            farm: crate::farm_config::FarmView {
                location: Some(LocationView { primary: Some(v), ..base }),
                ..d.farm
            },
            ..d
        },
        FarmField::City => DocumentView {
            defaults: crate::farm_config::DefaultsView { city: Some(v), ..d.defaults },
            farm: crate::farm_config::FarmView {
                location: Some(LocationView { city: Some(v), ..base }),
                ..d.farm
            },
            ..d
        },
        FarmField::Region => DocumentView {
            defaults: crate::farm_config::DefaultsView { region: Some(v), ..d.defaults },
            farm: crate::farm_config::FarmView {
                location: Some(LocationView { region: Some(v), ..base }),
                ..d.farm
            },
            ..d
        },
        FarmField::Country => DocumentView {
            defaults: crate::farm_config::DefaultsView { country: Some(v), ..d.defaults },
            farm: crate::farm_config::FarmView {
                location: Some(LocationView { country: Some(v), ..base }),
                ..d.farm
            },
            ..d
        },
        FarmField::Geohash => DocumentView {
            defaults: crate::farm_config::DefaultsView { geohash: Some(v), ..d.defaults },
            ..d
        },
        FarmField::Delivery => DocumentView {
            defaults: crate::farm_config::DefaultsView { delivery_method: v, ..d.defaults },
            ..d
        },
    }
}

fn clone_location(l: &FarmLocation) -> (r: FarmLocation)
    ensures
        r.view_of() == l.view_of(),
{
    FarmLocation {
        primary: crate::runtime_config::clone_opt_string(&l.primary),
        city: crate::runtime_config::clone_opt_string(&l.city),
        region: crate::runtime_config::clone_opt_string(&l.region),
        country: crate::runtime_config::clone_opt_string(&l.country),
    }
}

/// The farm location a location update starts from.
pub fn ensure_farm_location(document: &FarmConfigDocument) -> (r: FarmLocation)
    ensures
        r.view_of() == location_base(document.view_of()),
{
    match &document.farm.location {
        Some(l) => clone_location(l),
        None => FarmLocation {
            primary: Some(document.listing_defaults.location.primary.clone()),
            city: crate::runtime_config::clone_opt_string(&document.listing_defaults.location.city),
            region: crate::runtime_config::clone_opt_string(&document.listing_defaults.location.region),
            country: crate::runtime_config::clone_opt_string(&document.listing_defaults.location.country),
        },
    }
}

/// Sets one field of the farm config to `value`, trimmed; blank values are refused and leave
/// the document as it was.
pub fn apply_field_update(document: &mut FarmConfigDocument, field: FarmField, value: &str) -> (r:
    Result<(), RuntimeError>)
    ensures
        match required_text_result(value@, "farm set value"@) {
            Err(m) => is_config_err(r, m) && final(document).view_of() == old(document).view_of(),
            Ok(v) => r is Ok && final(document).view_of() == field_updated(old(document).view_of(), field, v),
        },
{
    let value = match required_text(value, "farm set value") {
        Ok(v) => v,
        Err(e) => {
            return Err(e);
        },
    };
    let mut location = ensure_farm_location(document);
    match field {
        FarmField::Name => {
            document.profile.name = value.clone();
            document.farm.name = value;
        },
        FarmField::DisplayName => {
            document.profile.display_name = Some(value);
        },
        FarmField::About => {
            document.profile.about = Some(value.clone());
            document.farm.about = Some(value);
        },
        FarmField::Website => {
            document.profile.website = Some(value.clone());
            document.farm.website = Some(value);
        },
        FarmField::Picture => {
            document.profile.picture = Some(value.clone());
            document.farm.picture = Some(value);
        },
        FarmField::Banner => {
            document.profile.banner = Some(value.clone());
            document.farm.banner = Some(value);
        },
        FarmField::Location => {
            document.listing_defaults.location.primary = value.clone();
            location.primary = Some(value);
            document.farm.location = Some(location);
        },
        FarmField::City => {
            document.listing_defaults.location.city = Some(value.clone());
            location.city = Some(value);
            document.farm.location = Some(location);
        },
        FarmField::Region => {
            document.listing_defaults.location.region = Some(value.clone());
            location.region = Some(value);
            document.farm.location = Some(location);
        },
        FarmField::Country => {
            document.listing_defaults.location.country = Some(value.clone());
            location.country = Some(value);
            document.farm.location = Some(location);
        },
        FarmField::Geohash => {
            document.listing_defaults.location.geohash = Some(value);
        },
        FarmField::Delivery => {
            document.listing_defaults.delivery_method = value;
        },
    }
    Ok(())
}

} // verus!
