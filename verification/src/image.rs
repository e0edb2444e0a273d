//! Images as `data:` URLs.

use vstd::prelude::*;
use base64::Engine;

use crate::text;

verus! {

/// The character of the standard base64 alphabet for a number below 64.
pub open spec fn base64_char(sextet: int) -> char {
    if sextet < 26 {
        ('A' as int + sextet) as char
    } else if sextet < 52 {
        ('a' as int + sextet - 26) as char
    } else if sextet < 62 {
        ('0' as int + sextet - 52) as char
    } else if sextet == 62 {
        '+'
    } else {
        '/'
    }
}

/// The byte at `i`, and zero behind the end.
pub open spec fn byte_or_zero(data: Seq<u8>, i: int) -> int {
    if i < data.len() {
        data[i] as int
    } else {
        0
    }
}

/// The six bits of `data` from bit `6 * k` on, as a number; bits behind the end are zero.
pub open spec fn sextet(data: Seq<u8>, k: int) -> int {
    let first = byte_or_zero(data, k / 4 * 3);
    let second = byte_or_zero(data, k / 4 * 3 + 1);
    let third = byte_or_zero(data, k / 4 * 3 + 2);
    if k % 4 == 0 {
        first / 4
    } else if k % 4 == 1 {
        first % 4 * 16 + second / 16
    } else if k % 4 == 2 {
        second % 16 * 4 + third / 64
    } else {
        third % 64
    }
}

/// Base64 with the standard alphabet and padding: four characters for each three bytes,
/// `=` where a character would hold no bit of the data.
pub open spec fn base64_text(data: Seq<u8>) -> Seq<char> {
    Seq::new(
        ((data.len() + 2) / 3 * 4) as nat,
        |k: int|
            if k / 4 * 3 + k % 4 > data.len() {
                '='
            } else {
                base64_char(sextet(data, k))
            },
    )
}

/// The `data:` URL under which an image is sent.
pub open spec fn image_url_text(data: Seq<u8>) -> Seq<char> {
    "data:image/jpeg;base64,"@ + base64_text(data)
}

/// `base64::Engine::encode` of the engine `base64::engine::general_purpose::STANDARD`.
///
/// Claims what the documentation says: base64 with the standard alphabet and with padding.
/// The call checks that the length of the result fits in a `usize`. It always does: a `Vec`
/// holds at most `isize::MAX` bytes.
#[verifier::external_body]
fn base64_encode(data: &Vec<u8>) -> (encoded: String)
    ensures
        encoded@ == base64_text(data@),
{
    base64::engine::general_purpose::STANDARD.encode(data)
}

/// The `data:` URL that holds the given image.
pub fn image_url(data: &Vec<u8>) -> (url: String)
    ensures
        url@ == image_url_text(data@),
{
    let encoded = base64_encode(data);
    text::joined("data:image/jpeg;base64,", encoded.as_str())
}

/// Numbers below 64 have different characters, and none has the padding character.
proof fn lemma_base64_chars_differ(a: int, b: int)
    requires
        0 <= a < 64,
        0 <= b < 64,
    ensures
        base64_char(a) == base64_char(b) ==> a == b,
        base64_char(a) != '=',
{
}

/// The padding character stands exactly where there is no bit of the data.
proof fn lemma_base64_padding(data: Seq<u8>, k: int)
    requires
        0 <= k < base64_text(data).len(),
    ensures
        base64_text(data)[k] == '=' <==> k / 4 * 3 + k % 4 > data.len(),
{
    lemma_base64_chars_differ(sextet(data, k), 0);
}

/// Data with the same base64 text have the same length.
proof fn lemma_base64_length(a: Seq<u8>, b: Seq<u8>)
    requires
        base64_text(a) == base64_text(b),
    ensures
        a.len() == b.len(),
{
    let groups = (a.len() + 2) / 3;
    assert(base64_text(a).len() == groups * 4);
    assert(base64_text(b).len() == (b.len() + 2) / 3 * 4);
    if groups > 0 {
        lemma_base64_padding(a, 4 * groups - 1);
        lemma_base64_padding(b, 4 * groups - 1);
        lemma_base64_padding(a, 4 * groups - 2);
        lemma_base64_padding(b, 4 * groups - 2);
    }
}

/// Data of one length with the same base64 text have the same six bits everywhere.
proof fn lemma_base64_sextet(a: Seq<u8>, b: Seq<u8>, k: int)
    requires
        base64_text(a) == base64_text(b),
        a.len() == b.len(),
        0 <= k < base64_text(a).len(),
    ensures
        sextet(a, k) == sextet(b, k),
{
    assert(base64_text(a)[k] == base64_text(b)[k]);
    if k / 4 * 3 + k % 4 <= a.len() {
        assert(base64_text(a)[k] == base64_char(sextet(a, k)));
        assert(base64_text(b)[k] == base64_char(sextet(b, k)));
        lemma_base64_chars_differ(sextet(a, k), sextet(b, k));
    } else {
        let groups = (a.len() + 2) / 3;
        assert(base64_text(a).len() == groups * 4);
        assert(k / 4 < groups);
        assert(k / 4 * 3 < a.len());
        assert(k % 4 == 2 || k % 4 == 3);
        assert(byte_or_zero(a, k / 4 * 3 + 2) == 0 && byte_or_zero(b, k / 4 * 3 + 2) == 0);
        if k % 4 == 2 {
            assert(byte_or_zero(a, k / 4 * 3 + 1) == 0 && byte_or_zero(b, k / 4 * 3 + 1) == 0);
        }
        assert(sextet(a, k) == 0 && sextet(b, k) == 0);
    }
}

/// Images with the same URL are the same image, byte for byte.
pub proof fn law_image_url_determines_image(first: Seq<u8>, second: Seq<u8>)
    requires
        image_url_text(first) == image_url_text(second),
    ensures
        first == second,
{
    let prefix = "data:image/jpeg;base64,"@;
    assert(base64_text(first) =~= image_url_text(first).skip(prefix.len() as int));
    assert(base64_text(second) =~= image_url_text(second).skip(prefix.len() as int));
    lemma_base64_length(first, second);
    assert forall|i: int| 0 <= i < first.len() implies first[i] == second[i] by {
        let k = i / 3 * 4;
        lemma_base64_sextet(first, second, k);
        lemma_base64_sextet(first, second, k + 1);
        lemma_base64_sextet(first, second, k + 2);
        lemma_base64_sextet(first, second, k + 3);
    }
    assert(first =~= second);
}

} // verus!
