use vstd::prelude::*;
use vstd::utf8::{decode_utf8, valid_utf8};

verus! {

/// A raw field value as the backing store hands it back: arbitrary binary
/// data, or some other store-native shape (an integer, a status line) that
/// the event model does not represent as text.
pub enum StoreValue {
    /// Arbitrary binary data attached to a stream entry field.
    Data(Vec<u8>),
    /// Any other store-native value shape.
    Other,
}

/// The fixed placeholder rendered for a field value that is not
/// text-representable.
pub open spec fn placeholder_text() -> Seq<char> {
    "??"@
}

/// The text a raw byte string is coerced to: its UTF-8 decoding when it is
/// well-formed, the placeholder otherwise.
pub open spec fn coerce_bytes(b: Seq<u8>) -> Seq<char> {
    if valid_utf8(b) {
        decode_utf8(b)
    } else {
        placeholder_text()
    }
}

/// The text a raw store value is coerced to.
pub open spec fn coerced_text(v: StoreValue) -> Seq<char> {
    match v {
        StoreValue::Data(b) => coerce_bytes(b@),
        StoreValue::Other => placeholder_text(),
    }
}

/// Relies on core::str::from_utf8: it returns Ok exactly on well-formed
/// UTF-8 input, and the returned slice is that input's decoding.
#[verifier::external_body]
fn utf8_to_str(b: &[u8]) -> (r: Option<&str>)
    ensures
        r is Some <==> valid_utf8(b@),
        r matches Some(s) ==> s@ == decode_utf8(b@),
{
    core::str::from_utf8(b).ok()
}

/// Relies on str's PartialEq: two string slices are equal exactly when
/// their character sequences are.
#[verifier::external_body]
pub(crate) fn str_eq(a: &str, b: &str) -> (r: bool)
    ensures
        r == (a@ == b@),
{
    a == b
}

/// Extracts store-native binary data as text: well-formed UTF-8 is decoded,
/// anything else is rendered as a fixed placeholder rather than failing the
/// surrounding query.
pub fn val_to_string(val: &StoreValue) -> (r: String)
    ensures
        r@ == coerced_text(*val),
{
    match val {
        StoreValue::Data(vec) => {
            match utf8_to_str(vec.as_slice()) {
                Some(s) => s.to_owned(),
                None => "??".to_owned(),
            }
        },
        StoreValue::Other => "??".to_owned(),
    }
}

} // verus!
