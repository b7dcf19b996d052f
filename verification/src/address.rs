//! Validation of textual account addresses.
use vstd::prelude::*;
use crate::errors::ProtocolError;

verus! {

/// The longest address text accepted, in bytes.
pub const MAX_ADDRESS_BYTES: usize = 256;

/// The UTF-8 length of a text, in bytes.
pub open spec fn byte_len(s: Seq<char>) -> int {
    vstd::utf8::encode_utf8(s).len() as int
}

/// An address text is well formed when it is non-empty and at most 256 bytes long.
pub open spec fn spec_valid_address(s: Seq<char>) -> bool {
    s.len() > 0 && byte_len(s) <= MAX_ADDRESS_BYTES
}

/// Address construction with validation.
pub struct AddressHelper;

impl AddressHelper {
    /// Checks that an address text is non-empty and at most 256 bytes long.
    pub fn validate_address_format(address_str: &String) -> (r: Result<(), ProtocolError>)
        ensures
            r == (if spec_valid_address(address_str@) {
                Ok(())
            } else {
                Err(ProtocolError::InvalidAddress)
            }),
    {
        let s = address_str.as_str();
        if s.is_empty() {
            return Err(ProtocolError::InvalidAddress);
        }
        if s.as_bytes().len() > MAX_ADDRESS_BYTES {
            return Err(ProtocolError::InvalidAddress);
        }
        Ok(())
    }

    /// Whether the text is a well-formed address.
    pub fn is_valid_address_string(address_str: &String) -> (b: bool)
        ensures
            b == spec_valid_address(address_str@),
    {
        Self::validate_address_format(address_str).is_ok()
    }

    /// The address named by the text, or `InvalidAddress`.
    pub fn from_string_safe(address_str: &String) -> (r: Result<String, ProtocolError>)
        ensures
            match r {
                Ok(a) => spec_valid_address(address_str@) && a == *address_str,
                Err(e) => !spec_valid_address(address_str@) && e == ProtocolError::InvalidAddress,
            },
    {
        if address_str.as_str().is_empty() {
            return Err(ProtocolError::InvalidAddress);
        }
        Self::validate_address_format(address_str)?;
        Ok(address_str.clone())
    }

    /// The addresses named by the texts, in order; `InvalidAddress` if any is malformed.
    pub fn from_strings_safe(address_strs: &Vec<String>) -> (r: Result<Vec<String>, ProtocolError>)
        ensures
            match r {
                Ok(v) => v@ == address_strs@ && forall|i: int|
                    0 <= i < address_strs@.len() ==> spec_valid_address(#[trigger] address_strs@[i]@),
                Err(e) => e == ProtocolError::InvalidAddress && exists|i: int|
                    0 <= i < address_strs@.len() && !spec_valid_address(#[trigger] address_strs@[i]@),
            },
    {
        let mut out: Vec<String> = Vec::new();
        let mut i: usize = 0;
        while i < address_strs.len()
            invariant
                i <= address_strs@.len(),
                out@ == address_strs@.subrange(0, i as int),
                forall|j: int| 0 <= j < i ==> spec_valid_address(#[trigger] address_strs@[j]@),
            decreases address_strs@.len() - i,
        {
            match Self::from_string_safe(&address_strs[i]) {
                Ok(a) => {
                    out.push(a);
                },
                Err(e) => {
                    return Err(e);
                },
            }
            proof {
                assert(out@ =~= address_strs@.subrange(0, i + 1));
            }
            i = i + 1;
        }
        proof {
            assert(out@ =~= address_strs@);
        }
        Ok(out)
    }

    /// The address named by the text, or `InvalidAddress`.
    pub fn require_valid_address(address_str: &String) -> (r: Result<String, ProtocolError>)
        ensures
            match r {
                Ok(a) => spec_valid_address(address_str@) && a == *address_str,
                Err(e) => !spec_valid_address(address_str@) && e == ProtocolError::InvalidAddress,
            },
    {
        Self::from_string_safe(address_str)
    }
}

} // verus!
