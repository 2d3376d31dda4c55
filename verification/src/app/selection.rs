//! The properties of a key that can be copied or selected.

use crate::text::{ascii_lowered, copy_of, str_eq, to_ascii_lowercase};
use vstd::prelude::*;

verus! {

/// Application property to copy to clipboard.
#[derive(Clone, Copy, Debug, PartialEq, Eq, Structural)]
pub enum Selection {
    /// One of the selected rows of the keys table
    Row1,
    /// The other selected row of the keys table
    Row2,
    /// Exported key.
    Key,
    /// ID of the selected key.
    KeyId,
    /// Fingerprint of the selected key.
    KeyFingerprint,
    /// User ID of the selected key.
    KeyUserId,
}

/// The selection that a name denotes: each selection has one name and a
/// few aliases.
pub open spec fn selection_of(name: Seq<char>) -> Option<Selection> {
    if name == "row1"@ || name == "row_1"@ || name == "1"@ {
        Some(Selection::Row1)
    } else if name == "row2"@ || name == "row_2"@ || name == "2"@ {
        Some(Selection::Row2)
    } else if name == "key"@ {
        Some(Selection::Key)
    } else if name == "key-id"@ || name == "id"@ || name == "key_id"@ || name == "keyid"@ {
        Some(Selection::KeyId)
    } else if name == "key-fingerprint"@ || name == "fingerprint"@ || name == "key_fingerprint"@
        || name == "keyfingerprint"@ || name == "fpr"@ {
        Some(Selection::KeyFingerprint)
    } else if name == "key-user-id"@ || name == "user"@ || name == "user_id"@ || name == "userid"@
        || name == "user-id"@ || name == "key_user_id"@ || name == "keyuserid"@ {
        Some(Selection::KeyUserId)
    } else {
        None
    }
}

impl Selection {
    /// Reads a selection from a name as it is written.
    pub fn from_name(name: &str) -> (r: Option<Selection>)
        ensures
            r == selection_of(name@),
    {
        if str_eq(name, "row1") || str_eq(name, "row_1") || str_eq(name, "1") {
            Some(Selection::Row1)
        } else if str_eq(name, "row2") || str_eq(name, "row_2") || str_eq(name, "2") {
            Some(Selection::Row2)
        } else if str_eq(name, "key") {
            Some(Selection::Key)
        } else if str_eq(name, "key-id") || str_eq(name, "id") || str_eq(name, "key_id") || str_eq(
            name,
            "keyid",
        ) {
            Some(Selection::KeyId)
        } else if str_eq(name, "key-fingerprint") || str_eq(name, "fingerprint") || str_eq(
            name,
            "key_fingerprint",
        ) || str_eq(name, "keyfingerprint") || str_eq(name, "fpr") {
            Some(Selection::KeyFingerprint)
        } else if str_eq(name, "key-user-id") || str_eq(name, "user") || str_eq(name, "user_id")
            || str_eq(name, "userid") || str_eq(name, "user-id") || str_eq(name, "key_user_id")
            || str_eq(name, "keyuserid") {
            Some(Selection::KeyUserId)
        } else {
            None
        }
    }

    /// Reads a selection from its name or one of its aliases; with
    /// `ignore_case` the ASCII letters may be in either case.
    pub fn from_str(name: &str, ignore_case: bool) -> (r: Result<Selection, String>)
        ensures
            match selection_of(
                if ignore_case {
                    ascii_lowered(name@)
                } else {
                    name@
                },
            ) {
                Some(selection) => r == Ok::<Selection, String>(selection),
                None => r matches Err(message) && message@ == "invalid variant: "@ + name@,
            },
    {
        let found = if ignore_case {
            let lowered = to_ascii_lowercase(name);
            Selection::from_name(lowered.as_str())
        } else {
            Selection::from_name(name)
        };
        match found {
            Some(selection) => Ok(selection),
            None => {
                let mut message = copy_of("invalid variant: ");
                message.append(name);
                Err(message)
            },
        }
    }

    /// The text that describes the selection.
    pub fn to_string(&self) -> (r: String)
        ensures
            r@ == selection_text(*self),
    {
        match self {
            Selection::Row1 => "table row (1)".to_owned(),
            Selection::Row2 => "table row (2)".to_owned(),
            Selection::Key => "exported key".to_owned(),
            Selection::KeyId => "key ID".to_owned(),
            Selection::KeyFingerprint => "key fingerprint".to_owned(),
            Selection::KeyUserId => "user ID".to_owned(),
        }
    }

    /// The text that describes the selection, in lower case.
    pub fn lowered_text(&self) -> (r: &'static str)
        ensures
            r@ == selection_lowered_text(*self),
    {
        match self {
            Selection::Row1 => "table row (1)",
            Selection::Row2 => "table row (2)",
            Selection::Key => "exported key",
            Selection::KeyId => "key id",
            Selection::KeyFingerprint => "key fingerprint",
            Selection::KeyUserId => "user id",
        }
    }
}

/// The text that describes a selection.
pub open spec fn selection_text(selection: Selection) -> Seq<char> {
    match selection {
        Selection::Row1 => "table row (1)"@,
        Selection::Row2 => "table row (2)"@,
        Selection::Key => "exported key"@,
        Selection::KeyId => "key ID"@,
        Selection::KeyFingerprint => "key fingerprint"@,
        Selection::KeyUserId => "user ID"@,
    }
}

/// The text that describes a selection, in lower case.
pub open spec fn selection_lowered_text(selection: Selection) -> Seq<char> {
    match selection {
        Selection::Row1 => "table row (1)"@,
        Selection::Row2 => "table row (2)"@,
        Selection::Key => "exported key"@,
        Selection::KeyId => "key id"@,
        Selection::KeyFingerprint => "key fingerprint"@,
        Selection::KeyUserId => "user id"@,
    }
}

} // verus!
