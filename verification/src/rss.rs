//! The resident set size of a process, read from what `ps -o rss= -p <pid>`
//! prints: a number of kibibytes, padded with whitespace.

use vstd::prelude::*;
use vstd::utf8::{decode_utf8, encode_utf8, encode_utf8_decode_utf8, encode_utf8_valid_utf8, valid_utf8};

use crate::decimal::{
    decimal_digits, is_digit, lemma_decimal_digits_shape, lemma_parse_format_roundtrip,
    parse_usize, parse_usize_spec, IntErrorKind,
};
use crate::text::{is_whitespace, lemma_trim_ignores_padding, lemma_trim_keeps_unpadded, trim, trim_spec};

verus! {

/// Why the output of `ps` does not give a size.
#[derive(Debug, PartialEq, Eq)]
pub enum RssError {
    /// The output is not UTF-8; the text is what `std::str::Utf8Error`
    /// displays for it.
    NotUtf8(String),
    /// The trimmed output is not the decimal form of a `usize`.
    NotANumber(IntErrorKind),
}

/// The message that `std::str::Utf8Error` displays for the invalid bytes
/// `bytes`; it depends on where the first invalid sequence starts and how
/// long it is, both functions of the bytes alone.
pub uninterp spec fn utf8_error_text(bytes: Seq<u8>) -> Seq<char>;

/// Calls `std::str::from_utf8` and copies the text out, or displays the error.
/// The contract claims what its documentation states: it succeeds exactly when
/// the bytes are valid UTF-8, and then the text holds the characters that the
/// bytes encode. The error's message is named (`utf8_error_text`), not spelled
/// out.
#[verifier::external_body]
fn utf8_text(bytes: &[u8]) -> (r: Result<String, String>)
    ensures
        r is Ok <==> valid_utf8(bytes@),
        r matches Ok(t) ==> t@ == decode_utf8(bytes@),
        r matches Err(m) ==> m@ == utf8_error_text(bytes@),
{
    match std::str::from_utf8(bytes) {
        Ok(text) => Ok(text.to_string()),
        Err(e) => Err(e.to_string()),
    }
}

/// What the kibibyte count read from `stdout` is: the bytes decoded as UTF-8,
/// trimmed, and parsed as a `usize`.
pub open spec fn rss_kib_spec(stdout: Seq<u8>) -> Result<usize, IntErrorKind> {
    parse_usize_spec(trim_spec(decode_utf8(stdout)))
}

/// Reads the resident set size, in kibibytes, from the standard output of `ps`.
pub fn rss_kib_from_ps_output(stdout: &[u8]) -> (r: Result<usize, RssError>)
    ensures
        r matches Err(RssError::NotUtf8(_)) <==> !valid_utf8(stdout@),
        r matches Err(RssError::NotUtf8(m)) ==> m@ == utf8_error_text(stdout@),
        valid_utf8(stdout@) ==> match rss_kib_spec(stdout@) {
            Ok(kib) => r == Ok::<usize, RssError>(kib),
            Err(kind) => r == Err::<usize, RssError>(RssError::NotANumber(kind)),
        },
{
    match utf8_text(stdout) {
        Err(message) => Err(RssError::NotUtf8(message)),
        Ok(text) => {
            let trimmed = trim(text.as_str());
            match parse_usize(trimmed) {
                Ok(kib) => Ok(kib),
                Err(kind) => Err(RssError::NotANumber(kind)),
            }
        },
    }
}

/// What `ps` prints for a count of `n` kibibytes, padded on either side with
/// any whitespace (none included), is read back as exactly `n`: the UTF-8
/// bytes of `pad_before + decimal(n) + pad_after` are valid and give `Ok(n)`.
pub proof fn lemma_rss_reads_padded_count(pad_before: Seq<char>, n: usize, pad_after: Seq<char>)
    requires
        forall|i: int| 0 <= i < pad_before.len() ==> is_whitespace(#[trigger] pad_before[i]),
        forall|i: int| 0 <= i < pad_after.len() ==> is_whitespace(#[trigger] pad_after[i]),
    ensures
        valid_utf8(encode_utf8(pad_before + decimal_digits(n as nat) + pad_after)),
        rss_kib_spec(encode_utf8(pad_before + decimal_digits(n as nat) + pad_after)) == Ok::<
            usize,
            IntErrorKind,
        >(n),
{
    let d = decimal_digits(n as nat);
    let text = pad_before + d + pad_after;
    encode_utf8_valid_utf8(text);
    encode_utf8_decode_utf8(text);
    lemma_decimal_digits_shape(n as nat);
    assert(is_digit(d[0]));
    assert(is_digit(d.last()));
    lemma_trim_ignores_padding(pad_before, d, pad_after);
    lemma_trim_keeps_unpadded(d);
    lemma_parse_format_roundtrip(n);
}

/// The size in bytes of `kib` kibibytes.
pub fn rss_bytes(kib: usize) -> (r: usize)
    requires
        kib * 1024 <= usize::MAX,
    ensures
        r == kib * 1024,
{
    kib * 1024
}

} // verus!
