//! The wall clock and random session identifiers, read from the system.
use crate::model::{AppError, ErrorView};
use crate::text::owned;
use vstd::prelude::*;

verus! {

// ---------------------------------------------------------------------------
// The clock
// ---------------------------------------------------------------------------

/// The message when the system clock cannot be read as Unix seconds.
pub open spec fn clock_unavailable_message() -> Seq<char> {
    "读取系统时钟失败"@
}

/// Whole seconds since the Unix epoch on the system clock:
/// `SystemTime::now().duration_since(UNIX_EPOCH)` in seconds, the reading
/// that `chrono::Utc::now` (and so `chrono::Local::now().timestamp()`) is
/// made of; `None` for a clock set before the epoch, where chrono panics.
/// Nothing is stated of the value: it is whatever the clock reads.
#[verifier::external_body]
fn seconds_since_epoch() -> (s: Option<u64>) {
    match std::time::SystemTime::now().duration_since(std::time::UNIX_EPOCH) {
        Ok(d) => Some(d.as_secs()),
        Err(_) => None,
    }
}

/// The current time as Unix seconds; refused when the clock reads before
/// the epoch or beyond what `i64` holds.
pub fn now_unix() -> (r: Result<i64, AppError>)
    ensures
        match r {
            Ok(t) => t >= 0,
            Err(e) => e@ == ErrorView::Message(clock_unavailable_message()),
        },
{
    proof {
        reveal_strlit("读取系统时钟失败");
    }
    match seconds_since_epoch() {
        Some(s) => {
            if s <= 0x7fff_ffff_ffff_ffffu64 {
                Ok(s as i64)
            } else {
                Err(AppError::Message(owned("读取系统时钟失败")))
            }
        },
        None => Err(AppError::Message(owned("读取系统时钟失败"))),
    }
}

/// Whether `r` is the refusal of an unreadable clock.
pub open spec fn clock_failed<T>(r: Result<T, AppError>) -> bool {
    r matches Err(e) && e@ == ErrorView::Message(clock_unavailable_message())
}

// ---------------------------------------------------------------------------
// Session identifiers
// ---------------------------------------------------------------------------

/// The message when the system's random source fails.
pub open spec fn random_unavailable_message() -> Seq<char> {
    "生成随机会话 ID 失败"@
}

/// Whether `c` is a lowercase hexadecimal digit.
pub open spec fn is_lower_hex(c: char) -> bool {
    ('0' as int <= c as int && c as int <= '9' as int) || ('a' as int <= c as int && c as int
        <= 'f' as int)
}

/// Whether `s` is the hyphenated lowercase text of a version-4 UUID:
/// 8-4-4-4-12 hex digits, the version digit `4` and a variant digit of
/// `8`, `9`, `a` or `b`.
pub open spec fn is_uuid_v4_text(s: Seq<char>) -> bool {
    &&& s.len() == 36
    &&& forall|i: int|
        0 <= i < 36 ==> if i == 8 || i == 13 || i == 18 || i == 23 {
            s[i] == '-'
        } else {
            is_lower_hex(#[trigger] s[i])
        }
    &&& s[14] == '4'
    &&& s[19] == '8' || s[19] == '9' || s[19] == 'a' || s[19] == 'b'
}

/// The lowercase hex digit of a nibble.
pub open spec fn hex_char(n: u8) -> char {
    if n < 10 {
        (n + 48) as char
    } else {
        (n + 87) as char
    }
}

/// The bytes with the version-4 and RFC 4122 variant bits set, as
/// `uuid::Builder::from_random_bytes` sets them.
pub open spec fn v4_bytes(b: Seq<u8>) -> Seq<u8> {
    b.update(6, (b[6] & 0x0f) | 0x40).update(8, (b[8] & 0x3f) | 0x80)
}

/// The 32 lowercase hex digits of 16 bytes, high nibble first.
pub open spec fn hex_of(b: Seq<u8>) -> Seq<char> {
    Seq::new(
        32,
        |i: int|
            if i % 2 == 0 {
                hex_char(b[i / 2] >> 4)
            } else {
                hex_char(b[i / 2] & 0x0f)
            },
    )
}

/// The position in the hyphenated text of hex digit `h`.
pub open spec fn text_position(h: int) -> int {
    if h < 8 {
        h
    } else if h < 12 {
        h + 1
    } else if h < 16 {
        h + 2
    } else if h < 20 {
        h + 3
    } else {
        h + 4
    }
}

/// 32 hex digits grouped 8-4-4-4-12 with hyphens.
pub open spec fn hyphenated(h: Seq<char>) -> Seq<char> {
    h.subrange(0, 8) + seq!['-'] + h.subrange(8, 12) + seq!['-'] + h.subrange(12, 16) + seq!['-']
        + h.subrange(16, 20) + seq!['-'] + h.subrange(20, 32)
}

/// The text of the version-4 UUID made of 16 random bytes.
pub open spec fn uuid_v4_text_of(b: Seq<u8>) -> Seq<char> {
    hyphenated(hex_of(v4_bytes(b)))
}

/// Fills 16 bytes from the system's random source: `getrandom::fill`, the
/// source that `uuid::Uuid::new_v4` draws from (and panics on failure);
/// `None` when the source fails. Nothing is stated of the bytes.
#[verifier::external_body]
fn random_bytes() -> (b: Option<[u8; 16]>) {
    let mut bytes = [0u8; 16];
    match getrandom::fill(&mut bytes) {
        Ok(()) => Some(bytes),
        Err(_) => None,
    }
}

/// The text of the version-4 UUID of 16 random bytes:
/// `uuid::Builder::from_random_bytes(bytes).into_uuid().to_string()`, which
/// sets the version and variant bits and writes the hyphenated lowercase
/// form.
#[verifier::external_body]
fn uuid_text(bytes: [u8; 16]) -> (s: String)
    ensures
        s@ == uuid_v4_text_of(bytes@),
{
    uuid::Builder::from_random_bytes(bytes).into_uuid().to_string()
}

proof fn lemma_hex_char(n: u8)
    requires
        n < 16,
    ensures
        is_lower_hex(hex_char(n)),
        n == 4 ==> hex_char(n) == '4',
        n == 8 ==> hex_char(n) == '8',
        n == 9 ==> hex_char(n) == '9',
        n == 10 ==> hex_char(n) == 'a',
        n == 11 ==> hex_char(n) == 'b',
{
}

/// The text of any 16 bytes made a version-4 UUID is a UUID-v4 text.
pub proof fn lemma_uuid_v4_text(b: Seq<u8>)
    requires
        b.len() == 16,
    ensures
        is_uuid_v4_text(uuid_v4_text_of(b)),
{
    let v = v4_bytes(b);
    let h = hex_of(v);
    let s = hyphenated(h);
    assert(s.len() == 36);
    assert forall|k: int| 0 <= k < 16 implies (#[trigger] v[k]) >> 4 < 16 && v[k] & 0x0f < 16 by {
        let x = v[k];
        assert(x >> 4 < 16 && x & 0x0f < 16) by (bit_vector);
    }
    assert forall|i: int| 0 <= i < 32 implies is_lower_hex(#[trigger] h[i]) by {
        let k = i / 2;
        assert(v[k] >> 4 < 16 && v[k] & 0x0f < 16);
        lemma_hex_char(v[k] >> 4);
        lemma_hex_char(v[k] & 0x0f);
    }
    assert forall|i: int| 0 <= i < 36 implies if i == 8 || i == 13 || i == 18 || i == 23 {
        s[i] == '-'
    } else {
        is_lower_hex(#[trigger] s[i])
    } by {
        if i < 8 {
            assert(s[i] == h[i]);
        } else if i == 8 {
        } else if i < 13 {
            assert(s[i] == h[i - 1]);
        } else if i == 13 {
        } else if i < 18 {
            assert(s[i] == h[i - 2]);
        } else if i == 18 {
        } else if i < 23 {
            assert(s[i] == h[i - 3]);
        } else if i == 23 {
        } else {
            assert(s[i] == h[i - 4]);
        }
    }
    let b6 = b[6];
    let b8 = b[8];
    assert(((b6 & 0x0f) | 0x40) >> 4 == 4) by (bit_vector);
    assert({
        let n = ((b8 & 0x3f) | 0x80) >> 4;
        n == 8 || n == 9 || n == 10 || n == 11
    }) by (bit_vector);
    assert(v[6] == (b6 & 0x0f) | 0x40);
    assert(v[8] == (b8 & 0x3f) | 0x80);
    assert(s[14] == h[12]);
    assert(h[12] == hex_char(v[6] >> 4));
    lemma_hex_char(v[6] >> 4);
    assert(s[19] == h[16]);
    assert(h[16] == hex_char(v[8] >> 4));
    lemma_hex_char(v[8] >> 4);
}

/// The session id made of 16 random bytes: the text of the version-4 UUID
/// they make.
pub fn session_id_of_bytes(bytes: [u8; 16]) -> (id: String)
    ensures
        id@ == uuid_v4_text_of(bytes@),
        is_uuid_v4_text(id@),
{
    proof {
        lemma_uuid_v4_text(bytes@);
    }
    uuid_text(bytes)
}

/// A fresh random session identifier, the text of a version-4 UUID;
/// refused when the system's random source fails.
pub fn new_session_id() -> (r: Result<String, AppError>)
    ensures
        match r {
            Ok(id) => is_uuid_v4_text(id@),
            Err(e) => e@ == ErrorView::Message(random_unavailable_message()),
        },
{
    proof {
        reveal_strlit("生成随机会话 ID 失败");
    }
    match random_bytes() {
        Some(b) => Ok(session_id_of_bytes(b)),
        None => Err(AppError::Message(owned("生成随机会话 ID 失败"))),
    }
}

} // verus!
