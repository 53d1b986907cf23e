//! Keys and values of the database, for a reader.
use vstd::prelude::*;

use crate::outside::{cbor_decode_value, hex_encode, json_encode};
use crate::outside::{cbor_value, hex_text, json_text};

verus! {

/// Helper formatter to convert cbor bytes to JSON or hex.
pub struct KeyFormat<'a>(pub &'a [u8]);

/// The JSON text of CBOR data, if it has one.
pub open spec fn json_of(data: Seq<u8>) -> Option<Seq<char>> {
    match cbor_value(data) {
        Some(value) => json_text(value),
        None => None,
    }
}

impl<'a> KeyFormat<'a> {
    /// The text of the bytes: JSON if they have such a form, hexadecimal otherwise.
    pub fn text(&self) -> (text: String)
        ensures
            text@ == match json_of(self.0@) {
                Some(json) => json,
                None => hex_text(self.0@),
            },
    {
        let value = match cbor_decode_value(self.0) {
            Ok(value) => value,
            Err(_) => return self.or_hex(None),
        };
        let json = match json_encode(&value) {
            Ok(json) => json,
            Err(_) => return self.or_hex(None),
        };
        self.or_hex(Some(json))
    }

    /// The JSON text of the bytes, or hexadecimal if there is none.
    pub fn or_hex(&self, json: Option<String>) -> (text: String)
        ensures
            text@ == match json {
                Some(json) => json@,
                None => hex_text(self.0@),
            },
    {
        match json {
            Some(json) => json,
            None => hex_encode(self.0),
        }
    }
}

}
