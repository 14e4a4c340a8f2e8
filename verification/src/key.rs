//! Cache keys: a stable digest of a resource identity, and the storage
//! location derived from it.

use vstd::prelude::*;
use vstd::string::StringExecFns;
use vstd::string::StrSliceExecFns;
use vstd::utf8::encode_scalar;
use vstd::utf8::encode_utf8;
use vstd::utf8::encode_utf8_decode_utf8;

verus! {

/// The seed every cache key is computed with.
pub const KEY_SEED: u64 = 0;

/// The byte that closes each field of an encoded identity.
pub const FIELD_END: u8 = 0xff;

/// The 64-bit XXH64 digest of `data` under `seed`.
pub uninterp spec fn xxh64_digest(seed: u64, data: Seq<u8>) -> u64;

/// Calls `twox_hash::XxHash64::oneshot`. The digest is a function of the seed
/// and the bytes alone; nothing else is claimed of it.
#[verifier::external_body]
fn xxh64(seed: u64, data: &[u8]) -> (digest: u64)
    ensures
        digest == xxh64_digest(seed, data@),
{
    twox_hash::XxHash64::oneshot(seed, data)
}

/// One field of an identity as bytes: its UTF-8 encoding and the terminator.
pub open spec fn field_bytes(text: Seq<char>) -> Seq<u8> {
    encode_utf8(text).push(FIELD_END)
}

/// No byte of the UTF-8 encoding of a scalar value is the field terminator.
proof fn lemma_scalar_bytes(scalar: u32)
    by (bit_vector)
    ensures
        (scalar & 0x7F) as u8 != 0xffu8,
        0xC0u8 | ((scalar >> 6) & 0x1F) as u8 != 0xffu8,
        0xE0u8 | ((scalar >> 12) & 0x0F) as u8 != 0xffu8,
        0xF0u8 | ((scalar >> 18) & 0x7) as u8 != 0xffu8,
        0x80u8 | (scalar & 0x3F) as u8 != 0xffu8,
        0x80u8 | ((scalar >> 6) & 0x3F) as u8 != 0xffu8,
        0x80u8 | ((scalar >> 12) & 0x3F) as u8 != 0xffu8,
{
}

/// The terminator occurs in no text: no byte of a UTF-8 encoding equals it.
pub proof fn lemma_text_lacks_terminator(text: Seq<char>)
    ensures
        forall|i: int| 0 <= i < encode_utf8(text).len() ==> encode_utf8(text)[i] != FIELD_END,
    decreases text.len(),
{
    if text.len() > 0 {
        let head = encode_scalar(text[0] as u32);
        let tail = encode_utf8(text.drop_first());
        lemma_scalar_bytes(text[0] as u32);
        lemma_text_lacks_terminator(text.drop_first());
        assert forall|i: int| 0 <= i < encode_utf8(text).len() implies encode_utf8(text)[i]
            != FIELD_END by {
            if i < head.len() {
                assert(encode_utf8(text)[i] == head[i]);
            } else {
                assert(encode_utf8(text)[i] == tail[i - head.len()]);
            }
        }
    }
}

/// A field can be read back off the front of what it was written to: where
/// two fields followed by anything give the same bytes, the fields are the
/// same text and what follows them is the same.
pub proof fn lemma_fields_split_alike(
    a: Seq<char>,
    rest_a: Seq<u8>,
    b: Seq<char>,
    rest_b: Seq<u8>,
)
    requires
        field_bytes(a) + rest_a == field_bytes(b) + rest_b,
    ensures
        a == b,
        rest_a == rest_b,
{
    let x = encode_utf8(a);
    let y = encode_utf8(b);
    let left = field_bytes(a) + rest_a;
    let right = field_bytes(b) + rest_b;
    lemma_text_lacks_terminator(a);
    lemma_text_lacks_terminator(b);
    assert(left[x.len() as int] == FIELD_END);
    assert(right[y.len() as int] == FIELD_END);
    if x.len() < y.len() {
        assert(right[x.len() as int] == y[x.len() as int]);
        assert(false);
    }
    if y.len() < x.len() {
        assert(left[y.len() as int] == x[y.len() as int]);
        assert(false);
    }
    assert(x =~= y) by {
        assert forall|i: int| 0 <= i < x.len() implies x[i] == y[i] by {
            assert(left[i] == x[i]);
            assert(right[i] == y[i]);
        }
    }
    assert(rest_a =~= rest_b) by {
        assert(rest_a.len() == rest_b.len()) by {
            assert(left.len() == x.len() + 1 + rest_a.len());
            assert(right.len() == y.len() + 1 + rest_b.len());
        }
        assert forall|i: int| 0 <= i < rest_a.len() implies rest_a[i] == rest_b[i] by {
            assert(left[x.len() + 1 + i] == rest_a[i]);
            assert(right[y.len() + 1 + i] == rest_b[i]);
        }
    }
    encode_utf8_decode_utf8(a);
    encode_utf8_decode_utf8(b);
}

/// A resource that can say which bytes identify it.
pub trait Keyed {
    /// The bytes that identify the resource. Resources with equal identities
    /// share a cache entry.
    open spec fn identity(&self) -> Seq<u8> {
        arbitrary()
    }

    /// The identifying bytes, computed.
    fn identity_bytes(&self) -> (bytes: Vec<u8>)
        ensures
            bytes@ == self.identity(),
    ;
}

/// The cache key of a resource identified by `identity`.
pub open spec fn cache_key(identity: Seq<u8>) -> u64 {
    xxh64_digest(KEY_SEED, identity)
}

/// Computes the cache key of the resource identified by `identity`.
pub fn compute_cache_key(identity: &[u8]) -> (key: u64)
    ensures
        key == cache_key(identity@),
{
    xxh64(KEY_SEED, identity)
}

/// The character that writes the digit `d`.
pub open spec fn digit_char(d: nat) -> char {
    if d == 0 {
        '0'
    } else if d == 1 {
        '1'
    } else if d == 2 {
        '2'
    } else if d == 3 {
        '3'
    } else if d == 4 {
        '4'
    } else if d == 5 {
        '5'
    } else if d == 6 {
        '6'
    } else if d == 7 {
        '7'
    } else if d == 8 {
        '8'
    } else {
        '9'
    }
}

/// The decimal numeral of `n`: no sign, no leading zero, `"0"` for zero.
pub open spec fn decimal(n: nat) -> Seq<char>
    decreases n,
{
    if n < 10 {
        seq![digit_char(n)]
    } else {
        decimal(n / 10).push(digit_char(n % 10))
    }
}

/// The one-character numeral of a digit.
fn digit_text(d: u64) -> (text: &'static str)
    requires
        d < 10,
    ensures
        text@ == seq![digit_char(d as nat)],
{
    proof {
        reveal_strlit("0");
        reveal_strlit("1");
        reveal_strlit("2");
        reveal_strlit("3");
        reveal_strlit("4");
        reveal_strlit("5");
        reveal_strlit("6");
        reveal_strlit("7");
        reveal_strlit("8");
        reveal_strlit("9");
    }
    let text = if d == 0 {
        "0"
    } else if d == 1 {
        "1"
    } else if d == 2 {
        "2"
    } else if d == 3 {
        "3"
    } else if d == 4 {
        "4"
    } else if d == 5 {
        "5"
    } else if d == 6 {
        "6"
    } else if d == 7 {
        "7"
    } else if d == 8 {
        "8"
    } else {
        "9"
    };
    assert(text@ =~= seq![digit_char(d as nat)]);
    text
}

/// Writes a cache key as the name of its directory: the key in decimal.
pub fn key_name(key: u64) -> (name: String)
    ensures
        name@ == decimal(key as nat),
    decreases key,
{
    if key < 10 {
        String::from_str(digit_text(key))
    } else {
        let mut name = key_name(key / 10);
        name.append(digit_text(key % 10));
        name
    }
}

/// The separator between the components of a location.
pub open spec fn is_separator(c: char) -> bool {
    c == '/'
}

/// The location of the entry called `name` under `root`: the two joined by
/// one separator, which is left out where `root` is empty or already ends
/// in one.
pub open spec fn entry_location(root: Seq<char>, name: Seq<char>) -> Seq<char> {
    if root.len() == 0 || is_separator(root.last()) {
        root + name
    } else {
        root.push('/') + name
    }
}

/// Where the entry of the resource identified by `identity` is kept under
/// `root`: in the directory named by its cache key in decimal.
pub open spec fn cache_location(root: Seq<char>, identity: Seq<u8>) -> Seq<char> {
    entry_location(root, decimal(cache_key(identity) as nat))
}

/// Joins a cache root and an entry name into the entry's location.
pub fn join_location(root: &str, name: &str) -> (location: String)
    ensures
        location@ == entry_location(root@, name@),
{
    let len = root.unicode_len();
    let mut location = String::from_str(root);
    if len > 0 && root.get_char(len - 1) != '/' {
        proof {
            reveal_strlit("/");
        }
        location.append("/");
        assert(location@ =~= root@.push('/'));
    }
    location.append(name);
    location
}

} // verus!
