//! The kinds of content that can be put on the clipboard.

use crate::text::{concat, decimal, decimal_string, str_eq};
use vstd::prelude::*;

verus! {

/// Application property to copy to clipboard.
#[derive(Clone, Copy, Debug, PartialEq, Eq, Structural)]
pub enum CopyType {
    /// Selected row of the keys table.
    TableRow(usize),
    /// Exported key.
    Key,
    /// ID of the selected key.
    KeyId,
    /// Fingerprint of the selected key.
    KeyFingerprint,
    /// User ID of the selected key.
    KeyUserId,
}

/// The kind of content that a name denotes.
pub open spec fn copy_type_of(name: Seq<char>) -> Option<CopyType> {
    if name == "row1"@ || name == "1"@ {
        Some(CopyType::TableRow(1))
    } else if name == "row2"@ || name == "2"@ {
        Some(CopyType::TableRow(2))
    } else if name == "key"@ {
        Some(CopyType::Key)
    } else if name == "key_id"@ || name == "id"@ {
        Some(CopyType::KeyId)
    } else if name == "key_fingerprint"@ || name == "fingerprint"@ {
        Some(CopyType::KeyFingerprint)
    } else if name == "key_user_id"@ || name == "user"@ {
        Some(CopyType::KeyUserId)
    } else {
        None
    }
}

/// The text that describes a kind of content.
pub open spec fn copy_type_text(copy_type: CopyType) -> Seq<char> {
    match copy_type {
        CopyType::TableRow(i) => "table row ("@ + decimal(i as nat) + ")"@,
        CopyType::Key => "exported key"@,
        CopyType::KeyId => "key ID"@,
        CopyType::KeyFingerprint => "key fingerprint"@,
        CopyType::KeyUserId => "user ID"@,
    }
}

impl CopyType {
    /// Reads a kind of content from its name.
    pub fn from_str(name: &str) -> (r: Result<CopyType, ()>)
        ensures
            match copy_type_of(name@) {
                Some(copy_type) => r == Ok::<CopyType, ()>(copy_type),
                None => r is Err,
            },
    {
        if str_eq(name, "row1") || str_eq(name, "1") {
            Ok(CopyType::TableRow(1))
        } else if str_eq(name, "row2") || str_eq(name, "2") {
            Ok(CopyType::TableRow(2))
        } else if str_eq(name, "key") {
            Ok(CopyType::Key)
        } else if str_eq(name, "key_id") || str_eq(name, "id") {
            Ok(CopyType::KeyId)
        } else if str_eq(name, "key_fingerprint") || str_eq(name, "fingerprint") {
            Ok(CopyType::KeyFingerprint)
        } else if str_eq(name, "key_user_id") || str_eq(name, "user") {
            Ok(CopyType::KeyUserId)
        } else {
            Err(())
        }
    }

    /// The text that describes the kind of content.
    pub fn to_string(&self) -> (r: String)
        ensures
            r@ == copy_type_text(*self),
    {
        match self {
            CopyType::TableRow(i) => {
                let number = decimal_string(*i as u64);
                let mut out = concat("table row (", number.as_str());
                out.append(")");
                out
            },
            CopyType::Key => "exported key".to_owned(),
            CopyType::KeyId => "key ID".to_owned(),
            CopyType::KeyFingerprint => "key fingerprint".to_owned(),
            CopyType::KeyUserId => "user ID".to_owned(),
        }
    }
}

} // verus!
