//! Percent-encoding of the long URL for interpolation into a query string.

use vstd::prelude::*;

verus! {

/// The `application/x-www-form-urlencoded` byte serialization of `s`,
/// as `url::form_urlencoded::byte_serialize` computes it from the UTF-8
/// bytes of `s`.  It depends on `s` alone.
pub uninterp spec fn form_urlencoded_of(s: Seq<char>) -> Seq<char>;

/// The characters that a form-urlencoded serialization consists of:
/// unreserved bytes are kept (ASCII alphanumerics and `*`, `-`, `.`, `_`),
/// a space becomes `+`, and every other byte becomes a `%`-escape of two
/// hexadecimal digits.
pub open spec fn serialized_char(c: char) -> bool {
    ||| '0' <= c <= '9'
    ||| 'a' <= c <= 'z'
    ||| 'A' <= c <= 'Z'
    ||| c == '*'
    ||| c == '-'
    ||| c == '.'
    ||| c == '_'
    ||| c == '+'
    ||| c == '%'
}

/// Relies on `url::form_urlencoded::byte_serialize`: the byte serializer of
/// the `application/x-www-form-urlencoded` format.  It is a pure function
/// of the input bytes; it emits only unreserved bytes, `+` for a space, and
/// `%XX` escapes; and it emits nothing for an empty input.
#[verifier::external_body]
pub(crate) fn urlencode(s: &str) -> (r: String)
    ensures
        r@ == form_urlencoded_of(s@),
        forall|i: int| 0 <= i < r@.len() ==> serialized_char(r@[i]),
        s@.len() == 0 ==> r@.len() == 0,
{
    url::form_urlencoded::byte_serialize(s.as_bytes()).collect::<String>()
}

} // verus!
