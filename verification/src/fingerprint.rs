//! The write fingerprint: what the tool records of `config.toml` after
//! writing it, so that a later change by another program can be noticed.
use vstd::prelude::*;
use vstd::utf8::encode_utf8;
use sha2::{Digest, Sha256};
use crate::path::{path_join, PathModel, PathView};
use crate::text::chars_of;

verus! {

/// What the tool recorded of `config.toml` after its last write.
#[derive(Debug, Clone, PartialEq, Eq)]
pub struct WriteFingerprint {
    /// When the write happened (milliseconds since the UNIX epoch).
    pub written_at_millis: u128,
    /// The first 16 lowercase hexadecimal digits of the SHA-256 of the file.
    pub config_hash: String,
    /// The file's modification time after the write (seconds since the UNIX epoch).
    pub config_mtime_secs: u64,
}

/// The SHA-256 digest of `data`.
pub uninterp spec fn sha256(data: Seq<u8>) -> Seq<u8>;

/// Calls `sha2::Sha256` (`new`, `update`, `finalize`). Claims that the digest
/// is the SHA-256 of `data`, named [`sha256`], and that it is 32 bytes long
/// (the output size of `Sha256`).
#[verifier::external_body]
fn sha256_digest(data: &[u8]) -> (r: Vec<u8>)
    ensures
        r@ == sha256(data@),
        r@.len() == 32,
{
    let mut hasher = Sha256::new();
    hasher.update(data);
    hasher.finalize().to_vec()
}

/// The lowercase hexadecimal digits.
pub open spec fn hex_digits() -> Seq<char> {
    seq!['0', '1', '2', '3', '4', '5', '6', '7', '8', '9', 'a', 'b', 'c', 'd', 'e', 'f']
}

/// Each byte as two lowercase hexadecimal digits, high digit first.
pub open spec fn hex_of(bytes: Seq<u8>) -> Seq<char>
    decreases bytes.len(),
{
    if bytes.len() == 0 {
        Seq::empty()
    } else {
        let b = bytes.last();
        hex_of(bytes.drop_last()) + seq![hex_digits()[(b / 16) as int], hex_digits()[(b % 16) as int]]
    }
}

/// A lowercase hexadecimal digit.
pub open spec fn is_lower_hex_digit(c: char) -> bool {
    ('0' <= c && c <= '9') || ('a' <= c && c <= 'f')
}

/// The hash of a configuration text: the first 8 bytes of the SHA-256 of its
/// UTF-8 encoding, in lowercase hexadecimal.
pub open spec fn config_hash(text: Seq<char>) -> Seq<char> {
    hex_of(sha256(encode_utf8(text)).take(8))
}

/// The text of one hexadecimal digit.
fn hex_digit_text(n: u8) -> (r: &'static str)
    requires
        n < 16,
    ensures
        r@ == seq![hex_digits()[n as int]],
{
    match n {
        0 => { proof { reveal_strlit("0"); } "0" },
        1 => { proof { reveal_strlit("1"); } "1" },
        2 => { proof { reveal_strlit("2"); } "2" },
        3 => { proof { reveal_strlit("3"); } "3" },
        4 => { proof { reveal_strlit("4"); } "4" },
        5 => { proof { reveal_strlit("5"); } "5" },
        6 => { proof { reveal_strlit("6"); } "6" },
        7 => { proof { reveal_strlit("7"); } "7" },
        8 => { proof { reveal_strlit("8"); } "8" },
        9 => { proof { reveal_strlit("9"); } "9" },
        10 => { proof { reveal_strlit("a"); } "a" },
        11 => { proof { reveal_strlit("b"); } "b" },
        12 => { proof { reveal_strlit("c"); } "c" },
        13 => { proof { reveal_strlit("d"); } "d" },
        14 => { proof { reveal_strlit("e"); } "e" },
        _ => { proof { reveal_strlit("f"); } "f" },
    }
}

/// The first (at most) 8 bytes of `bytes`, in lowercase hexadecimal.
pub fn hex_short(bytes: &[u8]) -> (r: String)
    ensures
        r@ == hex_of(bytes@.take(if bytes@.len() < 8 { bytes@.len() as int } else { 8 })),
{
    let n: usize = if bytes.len() < 8 { bytes.len() } else { 8 };
    let mut r = String::new();
    let mut i: usize = 0;
    while i < n
        invariant
            n <= bytes@.len(),
            n == (if bytes@.len() < 8 { bytes@.len() as int } else { 8 }),
            i <= n,
            r@ == hex_of(bytes@.take(i as int)),
        decreases n - i,
    {
        let b = bytes[i];
        let hi = hex_digit_text(b / 16);
        let lo = hex_digit_text(b % 16);
        r.append(hi);
        r.append(lo);
        proof {
            let t = bytes@.take(i + 1);
            assert(t.drop_last() =~= bytes@.take(i as int));
            assert(t.last() == b);
            assert(r@ =~= hex_of(t));
        }
        i = i + 1;
    }
    r
}

/// The hash of the text of `config.toml` (see [`config_hash`]): always 16
/// lowercase hexadecimal digits.
pub fn compute_config_hash(text: &str) -> (r: String)
    ensures
        r@ == config_hash(text@),
        r@.len() == 16,
        forall|i: int| 0 <= i < 16 ==> is_lower_hex_digit(#[trigger] r@[i]),
{
    let digest = sha256_digest(text.as_bytes());
    let r = hex_short(digest.as_slice());
    proof {
        lemma_hex_of(digest@.take(8));
    }
    r
}

/// `hex_of` gives two digits per byte, each a lowercase hexadecimal digit.
pub proof fn lemma_hex_of(bytes: Seq<u8>)
    ensures
        hex_of(bytes).len() == 2 * bytes.len(),
        forall|i: int| 0 <= i < hex_of(bytes).len() ==> is_lower_hex_digit(#[trigger] hex_of(bytes)[i]),
    decreases bytes.len(),
{
    if bytes.len() > 0 {
        lemma_hex_of(bytes.drop_last());
        let b = bytes.last();
        assert(0 <= b / 16 < 16);
        assert(0 <= b % 16 < 16);
        let h = hex_of(bytes);
        let p = hex_of(bytes.drop_last());
        assert forall|i: int| 0 <= i < h.len() implies is_lower_hex_digit(#[trigger] h[i]) by {
            if i < p.len() {
                assert(h[i] == p[i]);
            } else {
                let d = if i == p.len() { (b / 16) as int } else { (b % 16) as int };
                assert(h[i] == hex_digits()[d]);
            }
        }
    }
}

/// The fingerprint that records a write of `contents`, whose modification
/// time was `mtime_secs` (0 when it could not be read), made at `now_millis`.
pub fn record_write_fingerprint(contents: &str, mtime_secs: Option<u64>, now_millis: u128) -> (r: WriteFingerprint)
    ensures
        r.written_at_millis == now_millis,
        r.config_hash@ == config_hash(contents@),
        r.config_mtime_secs == match mtime_secs {
            Some(m) => m,
            None => 0,
        },
{
    WriteFingerprint {
        written_at_millis: now_millis,
        config_hash: compute_config_hash(contents),
        config_mtime_secs: match mtime_secs {
            Some(m) => m,
            None => 0,
        },
    }
}

/// `c` has the Unicode `White_Space` property (the code points U+0009 to
/// U+000D, U+0020, U+0085, U+00A0, U+1680, U+2000 to U+200A, U+2028,
/// U+2029, U+202F, U+205F and U+3000), as `char::is_whitespace` and
/// `str::trim` use it.
pub open spec fn is_white_space(c: char) -> bool {
    let n = c as u32;
    ||| 0x9 <= n && n <= 0xD
    ||| n == 0x20
    ||| n == 0x85
    ||| n == 0xA0
    ||| n == 0x1680
    ||| 0x2000 <= n && n <= 0x200A
    ||| n == 0x2028
    ||| n == 0x2029
    ||| n == 0x202F
    ||| n == 0x205F
    ||| n == 0x3000
}

/// Whether `c` is white space (see [`is_white_space`]).
pub fn char_is_white_space(c: char) -> (r: bool)
    ensures
        r == is_white_space(c),
{
    let n = c as u32;
    (0x9 <= n && n <= 0xD) || n == 0x20 || n == 0x85 || n == 0xA0 || n == 0x1680 || (0x2000 <= n && n <= 0x200A)
        || n == 0x2028 || n == 0x2029 || n == 0x202F || n == 0x205F || n == 0x3000
}

/// Every character of `text` is white space: a fingerprint file with such a
/// text holds no fingerprint.
pub fn fingerprint_text_is_blank(text: &str) -> (r: bool)
    ensures
        r == forall|i: int| 0 <= i < text@.len() ==> is_white_space(#[trigger] text@[i]),
{
    let chars = chars_of(text);
    let mut i: usize = 0;
    while i < chars.len()
        invariant
            chars@ == text@,
            i <= chars@.len(),
            forall|k: int| 0 <= k < i ==> is_white_space(#[trigger] text@[k]),
        decreases chars@.len() - i,
    {
        if !char_is_white_space(chars[i]) {
            return false;
        }
        i = i + 1;
    }
    true
}

/// Where the fingerprint file is: the redirected path when there is one,
/// else `write-fingerprint.json` in the application state directory.
pub fn default_write_fingerprint_path(redirect: &Option<PathModel>, app_state_dir: &PathModel) -> (r: PathModel)
    ensures
        r@ == match redirect {
            Some(p) => p@,
            None => path_join(app_state_dir@, "write-fingerprint.json"@),
        },
{
    match redirect {
        Some(p) => p.duplicate(),
        None => app_state_dir.join("write-fingerprint.json"),
    }
}

} // verus!
