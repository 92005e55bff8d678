//! Base64 transport of cat images and the `data:` URLs the front end shows.

use base64::Engine;
use vstd::prelude::*;

verus! {

/// The character of the standard Base64 alphabet (`A-Z a-z 0-9 + /`) for a 6-bit value.
pub open spec fn base64_char(v: int) -> char {
    if v < 26 {
        (v + 65) as char
    } else if v < 52 {
        (v - 26 + 97) as char
    } else if v < 62 {
        (v - 52 + 48) as char
    } else if v == 62 {
        '+'
    } else {
        '/'
    }
}

/// Standard padded Base64 (RFC 4648, section 4): every group of three bytes becomes
/// four characters; a last group of one or two bytes is padded with `=` to four.
pub open spec fn spec_base64_encode(bytes: Seq<u8>) -> Seq<char>
    decreases bytes.len(),
{
    if bytes.len() == 0 {
        Seq::empty()
    } else if bytes.len() == 1 {
        let b0 = bytes[0] as int;
        seq![base64_char(b0 / 4), base64_char((b0 % 4) * 16), '=', '=']
    } else if bytes.len() == 2 {
        let b0 = bytes[0] as int;
        let b1 = bytes[1] as int;
        seq![base64_char(b0 / 4), base64_char((b0 % 4) * 16 + b1 / 16), base64_char((b1 % 16) * 4), '=']
    } else {
        let b0 = bytes[0] as int;
        let b1 = bytes[1] as int;
        let b2 = bytes[2] as int;
        seq![
            base64_char(b0 / 4),
            base64_char((b0 % 4) * 16 + b1 / 16),
            base64_char((b1 % 16) * 4 + b2 / 64),
            base64_char(b2 % 64),
        ] + spec_base64_encode(bytes.skip(3))
    }
}

proof fn lemma_base64_char_injective(v: int, w: int)
    requires
        0 <= v < 64,
        0 <= w < 64,
        base64_char(v) == base64_char(w),
    ensures
        v == w,
{
}

proof fn lemma_base64_char_not_pad(v: int)
    requires
        0 <= v < 64,
    ensures
        base64_char(v) != '=',
{
}

/// The shape of the encoding of non-empty bytes: at least one group of four
/// characters, whose padding tells how many bytes the first group held.
proof fn lemma_base64_encode_shape(a: Seq<u8>)
    requires
        a.len() > 0,
    ensures
        spec_base64_encode(a).len() >= 4,
        (spec_base64_encode(a)[2] == '=') <==> a.len() == 1,
        a.len() != 1 ==> ((spec_base64_encode(a)[3] == '=') <==> a.len() == 2),
        a.len() >= 3 ==> spec_base64_encode(a).skip(4) == spec_base64_encode(a.skip(3)),
        spec_base64_encode(a)[0] == base64_char(a[0] as int / 4),
        a.len() == 1 ==> spec_base64_encode(a)[1] == base64_char((a[0] as int % 4) * 16),
        a.len() >= 2 ==> spec_base64_encode(a)[1] == base64_char((a[0] as int % 4) * 16 + a[1] as int / 16),
        a.len() == 2 ==> spec_base64_encode(a)[2] == base64_char((a[1] as int % 16) * 4),
        a.len() >= 3 ==> spec_base64_encode(a)[2] == base64_char((a[1] as int % 16) * 4 + a[2] as int / 64),
        a.len() >= 3 ==> spec_base64_encode(a)[3] == base64_char(a[2] as int % 64),
{
    let b0 = a[0] as int;
    if a.len() == 2 {
        lemma_base64_char_not_pad((a[1] as int % 16) * 4);
    } else if a.len() >= 3 {
        let b1 = a[1] as int;
        let b2 = a[2] as int;
        lemma_base64_char_not_pad((b1 % 16) * 4 + b2 / 64);
        lemma_base64_char_not_pad(b2 % 64);
        assert(spec_base64_encode(a).skip(4) =~= spec_base64_encode(a.skip(3)));
    }
}

/// Different bytes have different encodings.
pub proof fn lemma_base64_encode_injective(a: Seq<u8>, b: Seq<u8>)
    requires
        spec_base64_encode(a) == spec_base64_encode(b),
    ensures
        a == b,
    decreases a.len(),
{
    let e = spec_base64_encode(a);
    if a.len() == 0 || b.len() == 0 {
        if a.len() != 0 {
            lemma_base64_encode_shape(a);
        }
        if b.len() != 0 {
            lemma_base64_encode_shape(b);
        }
        assert(a =~= b);
    } else {
        lemma_base64_encode_shape(a);
        lemma_base64_encode_shape(b);
        let a0 = a[0] as int;
        let c0 = b[0] as int;
        lemma_base64_char_injective(a0 / 4, c0 / 4);
        if a.len() == 1 {
            assert(b.len() == 1);
            lemma_base64_char_injective((a0 % 4) * 16, (c0 % 4) * 16);
            assert(a =~= b);
        } else {
            let a1 = a[1] as int;
            let c1 = b[1] as int;
            lemma_base64_char_injective((a0 % 4) * 16 + a1 / 16, (c0 % 4) * 16 + c1 / 16);
            if a.len() == 2 {
                assert(b.len() == 2);
                lemma_base64_char_injective((a1 % 16) * 4, (c1 % 16) * 4);
                assert(a =~= b);
            } else {
                assert(b.len() >= 3);
                let a2 = a[2] as int;
                let c2 = b[2] as int;
                lemma_base64_char_injective((a1 % 16) * 4 + a2 / 64, (c1 % 16) * 4 + c2 / 64);
                lemma_base64_char_injective(a2 % 64, c2 % 64);
                lemma_base64_encode_injective(a.skip(3), b.skip(3));
                assert(a0 == c0);
                assert(a1 == c1);
                assert(a2 == c2);
                assert(a =~= b) by {
                    assert forall|i: int| 0 <= i < a.len() implies a[i] == b[i] by {
                        if i >= 3 {
                            assert(a[i] == a.skip(3)[i - 3]);
                            assert(b[i] == b.skip(3)[i - 3]);
                        }
                    }
                }
            }
        }
    }
}

/// Standard Base64 decoding: the bytes whose standard padded encoding is exactly the
/// text, `None` when no bytes encode to it (encodings of different bytes differ, see
/// `lemma_base64_encode_injective`).
pub open spec fn spec_base64_decode(text: Seq<char>) -> Option<Seq<u8>> {
    if exists|b: Seq<u8>| spec_base64_encode(b) == text {
        Some(choose|b: Seq<u8>| spec_base64_encode(b) == text)
    } else {
        None
    }
}

/// Decoding gives back the bytes that were encoded.
pub proof fn lemma_base64_decode_of_encode(bytes: Seq<u8>)
    ensures
        spec_base64_decode(spec_base64_encode(bytes)) == Some(bytes),
{
    let text = spec_base64_encode(bytes);
    assert(exists|b: Seq<u8>| spec_base64_encode(b) == text);
    let c = choose|b: Seq<u8>| spec_base64_encode(b) == text;
    lemma_base64_encode_injective(c, bytes);
}

/// Calls `Engine::encode` of `base64::engine::general_purpose::STANDARD`.
/// Claimed: the result is the standard padded Base64 text of the bytes.
/// The bound on the length keeps the crate's size computation from overflowing,
/// where it would panic.
#[verifier::external_body]
fn base64_encode_standard(bytes: &[u8]) -> (text: String)
    requires
        bytes@.len() <= usize::MAX / 2,
    ensures
        text@ == spec_base64_encode(bytes@),
{
    base64::engine::general_purpose::STANDARD.encode(bytes)
}

/// Calls `base64::decode` (the standard engine) on the UTF-8 bytes of the text.
/// Claimed: the standard engine accepts exactly the canonical texts (canonical
/// padding, no trailing bits), so it returns bytes exactly when the text is the
/// standard padded encoding of some bytes, and then the bytes it returns encode back
/// to exactly the text it was given.
#[verifier::external_body]
#[allow(deprecated)]
fn base64_decode_standard(text: &str) -> (bytes: Option<Vec<u8>>)
    ensures
        bytes matches Some(b) ==> spec_base64_encode(b@) == text@,
        bytes is None ==> forall|b: Seq<u8>| #[trigger] spec_base64_encode(b) != text@,
{
    base64::decode(text).ok()
}

/// The prefix of every image URL handed to the front end.
pub open spec fn data_url_prefix() -> Seq<char> {
    "data:image/jpeg;base64,"@
}

/// The `data:` URL under which an image is shown: the JPEG data-URL prefix
/// followed by the standard Base64 text of the bytes.
pub open spec fn spec_image_data_url(image: Seq<u8>) -> Seq<char> {
    data_url_prefix() + spec_base64_encode(image)
}

/// Builds the `data:image/jpeg;base64,...` URL of an image.
pub fn image_data_url(image: &[u8]) -> (url: String)
    requires
        image@.len() <= usize::MAX / 2,
    ensures
        url@ == spec_image_data_url(image@),
        url@.take(data_url_prefix().len() as int) == data_url_prefix(),
        spec_base64_decode(url@.skip(data_url_prefix().len() as int)) == Some(image@),
{
    let encoded = base64_encode_standard(image);
    let mut url = String::from_str("data:image/jpeg;base64,");
    url.append(encoded.as_str());
    assert(url@.take(data_url_prefix().len() as int) =~= data_url_prefix());
    assert(url@.skip(data_url_prefix().len() as int) =~= encoded@);
    proof {
        lemma_base64_decode_of_encode(image@);
    }
    url
}

/// Decodes an uploaded image sent as standard Base64 text.
/// `None` exactly when the text is not valid standard Base64. A decoded image is
/// shown again under the prefix followed by exactly the text that was uploaded.
pub fn decode_image(image_base64: &str) -> (image: Option<Vec<u8>>)
    ensures
        image is None <==> spec_base64_decode(image_base64@) is None,
        image matches Some(b) ==> spec_base64_decode(image_base64@) == Some(b@),
        image matches Some(b) ==> spec_image_data_url(b@) == data_url_prefix() + image_base64@,
{
    let image = base64_decode_standard(image_base64);
    proof {
        if image is Some {
            lemma_base64_decode_of_encode(image.unwrap()@);
        }
    }
    image
}

} // verus!
