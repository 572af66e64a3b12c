use crate::error::{ArbitraryError, ValidationError};
use vstd::prelude::*;
use vstd::string::*;
use vstd::utf8::encode_utf8;

verus! {

/// The longest an identifier may be, in bytes of its UTF-8 encoding.
pub const MAX_IDENTIFIER_BYTES: usize = 255;

/// Whether `name` may be a datastore identifier: its UTF-8 encoding is at
/// most 255 bytes long.
pub open spec fn identifier_valid(name: Seq<char>) -> bool {
    encode_utf8(name).len() <= MAX_IDENTIFIER_BYTES
}

/// A name for vertex and edge types and for properties.
#[derive(Debug, PartialEq, Eq)]
pub struct Identifier {
    name: String,
}

impl View for Identifier {
    type V = Seq<char>;

    closed spec fn view(&self) -> Seq<char> {
        self.name@
    }
}

impl Identifier {
    #[verifier::type_invariant]
    closed spec fn wf(self) -> bool {
        identifier_valid(self.name@)
    }

    /// The identifier named `name`, or `ValueTooLong` when its UTF-8
    /// encoding is longer than 255 bytes.
    pub fn new(name: String) -> (res: Result<Identifier, ValidationError>)
        ensures
            res is Ok <==> identifier_valid(name@),
            res matches Ok(id) ==> id@ == name@,
            res matches Err(e) ==> e == ValidationError::ValueTooLong,
    {
        if name.as_str().as_bytes().len() > MAX_IDENTIFIER_BYTES {
            Err(ValidationError::ValueTooLong)
        } else {
            Ok(Identifier { name })
        }
    }

    /// The identifier built from a string drawn from the fuzzer's input:
    /// an empty string asks for more data, and a string that is no valid
    /// identifier is refused as ill-formed.
    pub fn from_arbitrary(s: String) -> (res: Result<Identifier, ArbitraryError>)
        ensures
            s@.len() == 0 ==> res == Err::<Identifier, ArbitraryError>(ArbitraryError::NotEnoughData),
            s@.len() != 0 && !identifier_valid(s@) ==> res == Err::<Identifier, ArbitraryError>(
                ArbitraryError::IncorrectFormat,
            ),
            s@.len() != 0 && identifier_valid(s@) ==> (res matches Ok(id) && id@ == s@),
    {
        if s.as_str().is_empty() {
            return Err(ArbitraryError::NotEnoughData);
        }
        match Identifier::new(s) {
            Ok(id) => Ok(id),
            Err(_) => Err(ArbitraryError::IncorrectFormat),
        }
    }

    /// The identifier's text.
    pub fn as_str(&self) -> (s: &str)
        ensures
            s@ == self@,
            identifier_valid(s@),
    {
        proof {
            use_type_invariant(self);
        }
        self.name.as_str()
    }
}

impl Clone for Identifier {
    fn clone(&self) -> (res: Identifier)
        ensures
            res == *self,
    {
        proof {
            use_type_invariant(self);
        }
        Identifier { name: self.name.clone() }
    }
}

} // verus!
