//! The kinds of keys, the level of detail at which a key is shown, and the
//! description of a key.

use crate::gpg::handler::{
    get_signature_time, get_subkey_flags, get_subkey_time, signature_time, subkey_flags,
    subkey_time,
};
use crate::text::{
    ascii_lowered, chars_of, concat, copy_of, hexadecimal, hexadecimal_string, lemma_views_push,
    str_eq, string_of_range, to_ascii_lowercase, views,
};
use vstd::prelude::*;

verus! {

/// Type of the key.
#[derive(Clone, Copy, Debug, PartialEq, Eq, Hash, Structural)]
pub enum KeyType {
    /// Public key.
    Public,
    /// Secret (private) key.
    Secret,
}

/// The short name of a kind of key.
pub open spec fn key_type_text(key_type: KeyType) -> Seq<char> {
    match key_type {
        KeyType::Public => "pub"@,
        KeyType::Secret => "sec"@,
    }
}

/// The kind of key that a text denotes: any contiguous part of `pub`,
/// the empty text included, denotes a public key, and any part of `sec` a
/// secret key.
pub open spec fn key_type_of(s: Seq<char>) -> Option<KeyType> {
    if s == ""@ || s == "p"@ || s == "u"@ || s == "b"@ || s == "pu"@ || s == "ub"@ || s == "pub"@ {
        Some(KeyType::Public)
    } else if s == "s"@ || s == "e"@ || s == "c"@ || s == "se"@ || s == "ec"@ || s == "sec"@ {
        Some(KeyType::Secret)
    } else {
        None
    }
}

impl KeyType {
    /// The short name of the kind: `pub` or `sec`.
    pub fn to_string(&self) -> (r: String)
        ensures
            r@ == key_type_text(*self),
    {
        match self {
            KeyType::Public => "pub".to_owned(),
            KeyType::Secret => "sec".to_owned(),
        }
    }

    /// The short name of the kind: `pub` or `sec`.
    pub fn short_name(&self) -> (r: &'static str)
        ensures
            r@ == key_type_text(*self),
    {
        match self {
            KeyType::Public => "pub",
            KeyType::Secret => "sec",
        }
    }

    /// The long name of the kind, in lower case.
    pub fn name(&self) -> (r: &'static str)
        ensures
            r@ == match *self {
                KeyType::Public => "public"@,
                KeyType::Secret => "secret"@,
            },
    {
        match self {
            KeyType::Public => "public",
            KeyType::Secret => "secret",
        }
    }

    /// Reads a kind of key from a part of its short name.
    pub fn from_str(s: &str) -> (r: Result<KeyType, ()>)
        ensures
            match key_type_of(s@) {
                Some(key_type) => r == Ok::<KeyType, ()>(key_type),
                None => r is Err,
            },
    {
        if str_eq(s, "") || str_eq(s, "p") || str_eq(s, "u") || str_eq(s, "b") || str_eq(s, "pu")
            || str_eq(s, "ub") || str_eq(s, "pub") {
            Ok(KeyType::Public)
        } else if str_eq(s, "s") || str_eq(s, "e") || str_eq(s, "c") || str_eq(s, "se") || str_eq(
            s,
            "ec",
        ) || str_eq(s, "sec") {
            Ok(KeyType::Secret)
        } else {
            Err(())
        }
    }
}

/// Level of detail to show for key.
#[derive(Clone, Copy, Debug, PartialEq, Eq, Structural)]
pub enum KeyDetail {
    /// Show only the primary key and user ID.
    Minimum,
    /// Show all subkeys and user IDs.
    Standard,
    /// Show signatures.
    Full,
}

impl Default for KeyDetail {
    fn default() -> (r: Self)
        ensures
            r == KeyDetail::Minimum,
    {
        KeyDetail::Minimum
    }
}

/// The level of detail that a name denotes.
pub open spec fn key_detail_of(name: Seq<char>) -> Option<KeyDetail> {
    if name == "minimum"@ || name == "min"@ || name == "1"@ {
        Some(KeyDetail::Minimum)
    } else if name == "standard"@ || name == "2"@ {
        Some(KeyDetail::Standard)
    } else if name == "full"@ || name == "3"@ {
        Some(KeyDetail::Full)
    } else {
        None
    }
}

/// The level that follows a level of detail; after the highest comes the
/// lowest.
pub open spec fn increased(detail: KeyDetail) -> KeyDetail {
    match detail {
        KeyDetail::Minimum => KeyDetail::Standard,
        KeyDetail::Standard => KeyDetail::Full,
        KeyDetail::Full => KeyDetail::Minimum,
    }
}

impl KeyDetail {
    /// Increases the level of detail.
    pub fn increase(&mut self)
        ensures
            *final(self) == increased(*old(self)),
    {
        *self = match *self {
            KeyDetail::Minimum => KeyDetail::Standard,
            KeyDetail::Standard => KeyDetail::Full,
            KeyDetail::Full => KeyDetail::Minimum,
        }
    }

    /// The lower-case name of the level.
    pub fn name(&self) -> (r: &'static str)
        ensures
            r@ == match *self {
                KeyDetail::Minimum => "minimum"@,
                KeyDetail::Standard => "standard"@,
                KeyDetail::Full => "full"@,
            },
    {
        match self {
            KeyDetail::Minimum => "minimum",
            KeyDetail::Standard => "standard",
            KeyDetail::Full => "full",
        }
    }

    /// The lower-case name of the level.
    pub fn to_string(&self) -> (r: String)
        ensures
            r@ == match *self {
                KeyDetail::Minimum => "minimum"@,
                KeyDetail::Standard => "standard"@,
                KeyDetail::Full => "full"@,
            },
    {
        self.name().to_owned()
    }

    /// Reads a level from its name as it is written.
    pub fn from_name(name: &str) -> (r: Option<KeyDetail>)
        ensures
            r == key_detail_of(name@),
    {
        if str_eq(name, "minimum") || str_eq(name, "min") || str_eq(name, "1") {
            Some(KeyDetail::Minimum)
        } else if str_eq(name, "standard") || str_eq(name, "2") {
            Some(KeyDetail::Standard)
        } else if str_eq(name, "full") || str_eq(name, "3") {
            Some(KeyDetail::Full)
        } else {
            None
        }
    }

    /// Reads a level from its name or one of its aliases; with
    /// `ignore_case` the ASCII letters may be in either case.
    pub fn from_str(name: &str, ignore_case: bool) -> (r: Result<KeyDetail, ()>)
        ensures
            match key_detail_of(
                if ignore_case {
                    ascii_lowered(name@)
                } else {
                    name@
                },
            ) {
                Some(detail) => r == Ok::<KeyDetail, ()>(detail),
                None => r is Err,
            },
    {
        let found = if ignore_case {
            let lowered = to_ascii_lowercase(name);
            KeyDetail::from_name(lowered.as_str())
        } else {
            KeyDetail::from_name(name)
        };
        match found {
            Some(detail) => Ok(detail),
            None => Err(()),
        }
    }
}

/// How far a user id is trusted.
#[derive(Clone, Copy, Debug, PartialEq, Eq, Structural)]
pub enum Validity {
    /// Nothing is known.
    Unknown,
    /// The validity is not defined.
    Undefined,
    /// Never trusted.
    Never,
    /// Marginally trusted.
    Marginal,
    /// Fully trusted.
    Full,
    /// Ultimately trusted.
    Ultimate,
}

/// A text that may be missing, by its characters.
pub open spec fn text_view(text: Option<String>) -> Option<Seq<char>> {
    match text {
        Some(s) => Some(s@),
        None => None,
    }
}

/// A copy of a text that may be missing.
pub fn copy_text(text: &Option<String>) -> (r: Option<String>)
    ensures
        text_view(r) == text_view(*text),
{
    match text {
        Some(s) => Some(s.clone()),
        None => None,
    }
}

/// A notation of a signature.
#[derive(Debug)]
pub struct SignatureNotation {
    /// Name of the notation.
    pub name: Option<String>,
    /// Value of the notation.
    pub value: Option<String>,
    /// Whether the notation is critical.
    pub is_critical: bool,
    /// Whether the notation is meant to be read by people.
    pub is_human_readable: bool,
}

/// What a notation holds.
pub struct SignatureNotationView {
    pub name: Option<Seq<char>>,
    pub value: Option<Seq<char>>,
    pub is_critical: bool,
    pub is_human_readable: bool,
}

impl View for SignatureNotation {
    type V = SignatureNotationView;

    open spec fn view(&self) -> SignatureNotationView {
        SignatureNotationView {
            name: text_view(self.name),
            value: text_view(self.value),
            is_critical: self.is_critical,
            is_human_readable: self.is_human_readable,
        }
    }
}

impl Clone for SignatureNotation {
    fn clone(&self) -> (r: Self)
        ensures
            r@ == self@,
    {
        SignatureNotation {
            name: copy_text(&self.name),
            value: copy_text(&self.value),
            is_critical: self.is_critical,
            is_human_readable: self.is_human_readable,
        }
    }
}

/// A signature on a user id.
#[derive(Debug)]
pub struct UserIdSignature {
    /// Id of the key that signed.
    pub signer_key_id: Option<String>,
    /// User id of the key that signed.
    pub signer_user_id: Option<String>,
    /// Class of the certification.
    pub cert_class: u64,
    /// Time of creation, in seconds since the epoch.
    pub creation_time: Option<i64>,
    /// Time of expiration, in seconds since the epoch.
    pub expiration_time: Option<i64>,
    /// Whether the signature has expired.
    pub is_expired: bool,
    /// Whether the signature revokes.
    pub is_revocation: bool,
    /// Whether the signature is invalid.
    pub is_invalid: bool,
    /// Whether the signature can be exported.
    pub is_exportable: bool,
    /// Notations of the signature.
    pub notations: Vec<SignatureNotation>,
}

/// What a signature holds.
pub struct UserIdSignatureView {
    pub signer_key_id: Option<Seq<char>>,
    pub signer_user_id: Option<Seq<char>>,
    pub cert_class: u64,
    pub creation_time: Option<i64>,
    pub expiration_time: Option<i64>,
    pub is_expired: bool,
    pub is_revocation: bool,
    pub is_invalid: bool,
    pub is_exportable: bool,
    pub notations: Seq<SignatureNotationView>,
}

impl View for UserIdSignature {
    type V = UserIdSignatureView;

    open spec fn view(&self) -> UserIdSignatureView {
        UserIdSignatureView {
            signer_key_id: text_view(self.signer_key_id),
            signer_user_id: text_view(self.signer_user_id),
            cert_class: self.cert_class,
            creation_time: self.creation_time,
            expiration_time: self.expiration_time,
            is_expired: self.is_expired,
            is_revocation: self.is_revocation,
            is_invalid: self.is_invalid,
            is_exportable: self.is_exportable,
            notations: Seq::new(self.notations.len() as nat, |i: int| self.notations[i]@),
        }
    }
}

impl Clone for UserIdSignature {
    fn clone(&self) -> (r: Self)
        ensures
            r@ == self@,
    {
        let mut notations: Vec<SignatureNotation> = Vec::new();
        let mut i: usize = 0;
        while i < self.notations.len()
            invariant
                i <= self.notations.len(),
                notations.len() == i,
                forall|j: int| 0 <= j < i ==> (#[trigger] notations@[j])@ == self.notations@[j]@,
            decreases self.notations.len() - i,
        {
            notations.push(self.notations[i].clone());
            i += 1;
        }
        let r = UserIdSignature {
            signer_key_id: copy_text(&self.signer_key_id),
            signer_user_id: copy_text(&self.signer_user_id),
            cert_class: self.cert_class,
            creation_time: self.creation_time,
            expiration_time: self.expiration_time,
            is_expired: self.is_expired,
            is_revocation: self.is_revocation,
            is_invalid: self.is_invalid,
            is_exportable: self.is_exportable,
            notations,
        };
        assert(r@.notations =~= self@.notations);
        r
    }
}

/// A user id of a key.
#[derive(Debug)]
pub struct UserId {
    /// The whole user id.
    pub id: Option<String>,
    /// The e-mail address of the user id.
    pub email: Option<String>,
    /// How far the user id is trusted.
    pub validity: Validity,
    /// Signatures on the user id.
    pub signatures: Vec<UserIdSignature>,
}

/// What a user id holds.
pub struct UserIdView {
    pub id: Option<Seq<char>>,
    pub email: Option<Seq<char>>,
    pub validity: Validity,
    pub signatures: Seq<UserIdSignatureView>,
}

impl View for UserId {
    type V = UserIdView;

    open spec fn view(&self) -> UserIdView {
        UserIdView {
            id: text_view(self.id),
            email: text_view(self.email),
            validity: self.validity,
            signatures: Seq::new(self.signatures.len() as nat, |i: int| self.signatures[i]@),
        }
    }
}

impl Clone for UserId {
    fn clone(&self) -> (r: Self)
        ensures
            r@ == self@,
    {
        let mut signatures: Vec<UserIdSignature> = Vec::new();
        let mut i: usize = 0;
        while i < self.signatures.len()
            invariant
                i <= self.signatures.len(),
                signatures.len() == i,
                forall|j: int| 0 <= j < i ==> (#[trigger] signatures@[j])@ == self.signatures@[j]@,
            decreases self.signatures.len() - i,
        {
            signatures.push(self.signatures[i].clone());
            i += 1;
        }
        let r = UserId {
            id: copy_text(&self.id),
            email: copy_text(&self.email),
            validity: self.validity,
            signatures,
        };
        assert(r@.signatures =~= self@.signatures);
        r
    }
}

/// A subkey of a key; the first subkey is the primary key.
#[derive(Debug)]
pub struct Subkey {
    /// Id of the subkey.
    pub id: Option<String>,
    /// Fingerprint of the subkey.
    pub fingerprint: Option<String>,
    /// Name of the algorithm, such as `rsa3072`.
    pub algorithm_name: Option<String>,
    /// Whether the subkey can sign.
    pub can_sign: bool,
    /// Whether the subkey can certify.
    pub can_certify: bool,
    /// Whether the subkey can encrypt.
    pub can_encrypt: bool,
    /// Whether the subkey can authenticate.
    pub can_authenticate: bool,
    /// Time of creation, in seconds since the epoch.
    pub creation_time: Option<i64>,
    /// Time of expiration, in seconds since the epoch.
    pub expiration_time: Option<i64>,
    /// Whether the subkey has expired.
    pub is_expired: bool,
    /// Whether the subkey is revoked.
    pub is_revoked: bool,
    /// Whether the subkey is disabled.
    pub is_disabled: bool,
    /// Whether the subkey is invalid.
    pub is_invalid: bool,
    /// Whether the subkey is qualified.
    pub is_qualified: bool,
}

/// What a subkey holds.
pub struct SubkeyView {
    pub id: Option<Seq<char>>,
    pub fingerprint: Option<Seq<char>>,
    pub algorithm_name: Option<Seq<char>>,
    pub can_sign: bool,
    pub can_certify: bool,
    pub can_encrypt: bool,
    pub can_authenticate: bool,
    pub creation_time: Option<i64>,
    pub expiration_time: Option<i64>,
    pub is_expired: bool,
    pub is_revoked: bool,
    pub is_disabled: bool,
    pub is_invalid: bool,
    pub is_qualified: bool,
}

impl View for Subkey {
    type V = SubkeyView;

    open spec fn view(&self) -> SubkeyView {
        SubkeyView {
            id: text_view(self.id),
            fingerprint: text_view(self.fingerprint),
            algorithm_name: text_view(self.algorithm_name),
            can_sign: self.can_sign,
            can_certify: self.can_certify,
            can_encrypt: self.can_encrypt,
            can_authenticate: self.can_authenticate,
            creation_time: self.creation_time,
            expiration_time: self.expiration_time,
            is_expired: self.is_expired,
            is_revoked: self.is_revoked,
            is_disabled: self.is_disabled,
            is_invalid: self.is_invalid,
            is_qualified: self.is_qualified,
        }
    }
}

impl Clone for Subkey {
    fn clone(&self) -> (r: Self)
        ensures
            r@ == self@,
    {
        Subkey {
            id: copy_text(&self.id),
            fingerprint: copy_text(&self.fingerprint),
            algorithm_name: copy_text(&self.algorithm_name),
            can_sign: self.can_sign,
            can_certify: self.can_certify,
            can_encrypt: self.can_encrypt,
            can_authenticate: self.can_authenticate,
            creation_time: self.creation_time,
            expiration_time: self.expiration_time,
            is_expired: self.is_expired,
            is_revoked: self.is_revoked,
            is_disabled: self.is_disabled,
            is_invalid: self.is_invalid,
            is_qualified: self.is_qualified,
        }
    }
}

/// What the keyring tells of a key.
#[derive(Debug)]
pub struct Key {
    /// Id of the key.
    pub id: Option<String>,
    /// Fingerprint of the key.
    pub fingerprint: Option<String>,
    /// Subkeys, the primary key first.
    pub subkeys: Vec<Subkey>,
    /// User ids, the primary user id first.
    pub user_ids: Vec<UserId>,
}

/// What a key holds.
pub struct KeyView {
    pub id: Option<Seq<char>>,
    pub fingerprint: Option<Seq<char>>,
    pub subkeys: Seq<SubkeyView>,
    pub user_ids: Seq<UserIdView>,
}

impl View for Key {
    type V = KeyView;

    open spec fn view(&self) -> KeyView {
        KeyView {
            id: text_view(self.id),
            fingerprint: text_view(self.fingerprint),
            subkeys: Seq::new(self.subkeys.len() as nat, |i: int| self.subkeys[i]@),
            user_ids: Seq::new(self.user_ids.len() as nat, |i: int| self.user_ids[i]@),
        }
    }
}

impl Clone for Key {
    fn clone(&self) -> (r: Self)
        ensures
            r@ == self@,
    {
        let mut subkeys: Vec<Subkey> = Vec::new();
        let mut i: usize = 0;
        while i < self.subkeys.len()
            invariant
                i <= self.subkeys.len(),
                subkeys.len() == i,
                forall|j: int| 0 <= j < i ==> (#[trigger] subkeys@[j])@ == self.subkeys@[j]@,
            decreases self.subkeys.len() - i,
        {
            subkeys.push(self.subkeys[i].clone());
            i += 1;
        }
        let mut user_ids: Vec<UserId> = Vec::new();
        let mut k: usize = 0;
        while k < self.user_ids.len()
            invariant
                k <= self.user_ids.len(),
                user_ids.len() == k,
                forall|j: int| 0 <= j < k ==> (#[trigger] user_ids@[j])@ == self.user_ids@[j]@,
            decreases self.user_ids.len() - k,
        {
            user_ids.push(self.user_ids[k].clone());
            k += 1;
        }
        let r = Key {
            id: copy_text(&self.id),
            fingerprint: copy_text(&self.fingerprint),
            subkeys,
            user_ids,
        };
        assert(r@.subkeys =~= self@.subkeys);
        assert(r@.user_ids =~= self@.user_ids);
        r
    }
}

/// Representation of a key.
#[derive(Debug)]
pub struct GpgKey {
    /// What the keyring tells of the key.
    pub inner: Key,
    /// Level of detail to show about key information.
    pub detail: KeyDetail,
}

/// What the representation of a key holds.
pub struct GpgKeyView {
    pub inner: KeyView,
    pub detail: KeyDetail,
}

impl View for GpgKey {
    type V = GpgKeyView;

    open spec fn view(&self) -> GpgKeyView {
        GpgKeyView { inner: self.inner@, detail: self.detail }
    }
}

impl Clone for GpgKey {
    fn clone(&self) -> (r: Self)
        ensures
            r@ == self@,
    {
        GpgKey { inner: self.inner.clone(), detail: self.detail }
    }
}

/// The views of a sequence of keys.
pub open spec fn key_views(keys: Seq<GpgKey>) -> Seq<GpgKeyView> {
    Seq::new(keys.len(), |i: int| keys[i]@)
}

/// Copies of the keys of `keys`.
pub fn copy_keys(keys: &Vec<GpgKey>) -> (r: Vec<GpgKey>)
    ensures
        key_views(r@) == key_views(keys@),
{
    let mut out: Vec<GpgKey> = Vec::new();
    let mut i: usize = 0;
    while i < keys.len()
        invariant
            i <= keys.len(),
            out.len() == i,
            forall|j: int| 0 <= j < i ==> (#[trigger] out@[j])@ == keys@[j]@,
        decreases keys.len() - i,
    {
        out.push(keys[i].clone());
        i += 1;
    }
    assert(key_views(out@) =~= key_views(keys@));
    out
}

/// The text shown where a value cannot be read.
pub open spec fn text_or_unknown(text: Option<Seq<char>>) -> Seq<char> {
    match text {
        Some(s) => s,
        None => "[?]"@,
    }
}

impl KeyView {
    /// The key id with `0x` before it.
    pub open spec fn id_text(self) -> Seq<char> {
        match self.id {
            Some(id) => "0x"@ + id,
            None => "[?]"@,
        }
    }

    /// The fingerprint of the key.
    pub open spec fn fingerprint_text(self) -> Seq<char> {
        text_or_unknown(self.fingerprint)
    }

    /// The primary user id of the key.
    pub open spec fn user_id_text(self) -> Seq<char> {
        if self.user_ids.len() > 0 {
            text_or_unknown(self.user_ids[0].id)
        } else {
            "[?]"@
        }
    }
}

fn text_or_unknown_string(text: &Option<String>) -> (r: String)
    ensures
        r@ == text_or_unknown(text_view(*text)),
{
    match text {
        Some(s) => s.clone(),
        None => copy_of("[?]"),
    }
}

impl GpgKey {
    /// Constructs a new instance of `GpgKey`.
    pub fn new(key: Key, detail: KeyDetail) -> (r: Self)
        ensures
            r.inner == key,
            r.detail == detail,
    {
        Self { inner: key, detail }
    }

    /// Returns the key ID with '0x' prefix.
    pub fn get_id(&self) -> (r: String)
        ensures
            r@ == self@.inner.id_text(),
    {
        match &self.inner.id {
            Some(id) => concat("0x", id.as_str()),
            None => copy_of("[?]"),
        }
    }

    /// Returns the key fingerprint.
    pub fn get_fingerprint(&self) -> (r: String)
        ensures
            r@ == self@.inner.fingerprint_text(),
    {
        text_or_unknown_string(&self.inner.fingerprint)
    }

    /// Returns the primary user of the key.
    pub fn get_user_id(&self) -> (r: String)
        ensures
            r@ == self@.inner.user_id_text(),
    {
        if self.inner.user_ids.len() > 0 {
            text_or_unknown_string(&self.inner.user_ids[0].id)
        } else {
            copy_of("[?]")
        }
    }
}

/// The letter that stands for a validity.
pub open spec fn validity_text(validity: Validity) -> Seq<char> {
    match validity {
        Validity::Undefined => "q"@,
        Validity::Never => "n"@,
        Validity::Marginal => "m"@,
        Validity::Full => "f"@,
        Validity::Ultimate => "u"@,
        Validity::Unknown => "?"@,
    }
}

impl Validity {
    /// The letter that stands for the validity.
    pub fn to_str(&self) -> (r: &'static str)
        ensures
            r@ == validity_text(*self),
    {
        match self {
            Validity::Undefined => "q",
            Validity::Never => "n",
            Validity::Marginal => "m",
            Validity::Full => "f",
            Validity::Ultimate => "u",
            Validity::Unknown => "?",
        }
    }
}

/// A key id without any `0x` at its start.
pub open spec fn without_hex_prefix(id: Seq<char>) -> Seq<char>
    decreases id.len(),
{
    if id.len() >= 2 && id[0] == '0' && id[1] == 'x' {
        without_hex_prefix(id.skip(2))
    } else {
        id
    }
}

/// The format in which times are written: the year alone where the table
/// is short of room.
pub open spec fn time_format(truncate: bool) -> Seq<char> {
    if truncate {
        "%Y"@
    } else {
        "%F"@
    }
}

/// The name of an algorithm as the table shows it: names of seven
/// characters as they are.
pub open spec fn algorithm_text(name: Option<Seq<char>>) -> Seq<char> {
    match name {
        Some(name) => if name.len() == 7 {
            name
        } else {
            "unrecog"@
        },
        None => "unknown"@,
    }
}

/// Whether a subkey is the default key for signing.
pub open spec fn is_default_key(subkey: SubkeyView, default_key: Option<Seq<char>>) -> bool {
    (match default_key {
        Some(id) => Some(without_hex_prefix(id)),
        None => None,
    }) == subkey.id
}

/// The line of a subkey: its flags, a star for the default key, its
/// algorithm and its id or fingerprint.
pub open spec fn subkey_line(subkey: SubkeyView, default_key: Option<Seq<char>>, truncate: bool)
    -> Seq<char> {
    "["@ + subkey_flags(subkey) + "]"@ + (if is_default_key(subkey, default_key) {
        "*"@
    } else {
        " "@
    }) + algorithm_text(subkey.algorithm_name) + "/"@ + text_or_unknown(
        if truncate {
            subkey.id
        } else {
            subkey.fingerprint
        },
    )
}

/// The line of the times of a subkey, below the line of the subkey.
pub open spec fn subkey_time_line(subkey: SubkeyView, last: bool, truncate: bool) -> Seq<char> {
    (if last {
        " "@
    } else {
        "|"@
    }) + "      └─"@ + subkey_time(subkey, time_format(truncate))
}

/// The lines of the first `count` subkeys, two for each.
pub open spec fn subkey_lines(
    subkeys: Seq<SubkeyView>,
    count: nat,
    default_key: Option<Seq<char>>,
    truncate: bool,
) -> Seq<Seq<char>>
    decreases count,
{
    if count == 0 {
        Seq::empty()
    } else {
        let i = count - 1;
        subkey_lines(subkeys, i as nat, default_key, truncate) + seq![
            subkey_line(subkeys[i], default_key, truncate),
            subkey_time_line(subkeys[i], i == subkeys.len() - 1, truncate),
        ]
    }
}

/// The lines that describe the subkeys of a key: at the lowest level of
/// detail the line of the primary key alone.
pub open spec fn subkey_info(key: GpgKeyView, default_key: Option<Seq<char>>, truncate: bool)
    -> Seq<Seq<char>> {
    let subkeys = key.inner.subkeys;
    if key.detail == KeyDetail::Minimum {
        if subkeys.len() > 0 {
            seq![subkey_line(subkeys[0], default_key, truncate)]
        } else {
            Seq::empty()
        }
    } else {
        subkey_lines(subkeys, subkeys.len(), default_key, truncate)
    }
}

/// The line of a notation of a signature.
pub open spec fn notation_line(
    notation: SignatureNotationView,
    padding: Seq<char>,
    last_signature: bool,
    last: bool,
) -> Seq<char> {
    padding + (if last_signature {
        " "@
    } else {
        "│"@
    }) + "  "@ + (if last {
        "└─"@
    } else {
        "├─"@
    }) + "["@ + (if notation.is_critical {
        "!"@
    } else if notation.is_human_readable {
        "h"@
    } else {
        "?"@
    }) + "] "@ + (match notation.name {
        Some(name) => name,
        None => "?"@,
    }) + "="@ + (match notation.value {
        Some(value) => value,
        None => "?"@,
    })
}

/// The lines of the first `count` notations of a signature.
pub open spec fn notation_lines(
    notations: Seq<SignatureNotationView>,
    count: nat,
    padding: Seq<char>,
    last_signature: bool,
) -> Seq<Seq<char>>
    decreases count,
{
    if count == 0 {
        Seq::empty()
    } else {
        let i = count - 1;
        notation_lines(notations, i as nat, padding, last_signature).push(
            notation_line(notations[i], padding, last_signature, i == notations.len() - 1),
        )
    }
}

/// The padding before the signatures of a user id, by the place of the
/// user id among the user ids.
pub open spec fn signature_padding(user_count: nat, user_index: nat) -> Seq<char> {
    if user_count == 1 {
        " "@
    } else if user_index == user_count - 1 {
        "    "@
    } else if user_index == 0 {
        "│"@
    } else {
        "│   "@
    }
}

/// Who made a signature: the key itself, or the id of the signer, with
/// the signer's user id where there is room.
pub open spec fn signer_text(signature: UserIdSignatureView, key_id: Option<Seq<char>>, truncate: bool)
    -> Seq<char> {
    if signature.signer_key_id == key_id {
        "selfsig"@
    } else if truncate {
        text_or_unknown(signature.signer_key_id)
    } else {
        text_or_unknown(signature.signer_key_id) + " "@ + (match signature.signer_user_id {
            Some(user) => if user.len() == 0 {
                "[?]"@
            } else {
                user
            },
            None => "[-]"@,
        })
    }
}

/// The line of a signature on a user id.
pub open spec fn signature_line(
    signature: UserIdSignatureView,
    padding: Seq<char>,
    last: bool,
    key_id: Option<Seq<char>>,
    truncate: bool,
) -> Seq<char> {
    " "@ + padding + "  "@ + (if last {
        "└─"@
    } else {
        "├─"@
    }) + "["@ + hexadecimal(signature.cert_class as nat) + "] "@ + signer_text(
        signature,
        key_id,
        truncate,
    ) + " "@ + signature_time(signature, time_format(truncate))
}

/// The lines of the first `count` signatures of a user id, each with its
/// notations below.
pub open spec fn signature_lines(
    signatures: Seq<UserIdSignatureView>,
    count: nat,
    padding: Seq<char>,
    key_id: Option<Seq<char>>,
    truncate: bool,
) -> Seq<Seq<char>>
    decreases count,
{
    if count == 0 {
        Seq::empty()
    } else {
        let i = count - 1;
        let last = i == signatures.len() - 1;
        signature_lines(signatures, i as nat, padding, key_id, truncate).push(
            signature_line(signatures[i], padding, last, key_id, truncate),
        ) + notation_lines(
            signatures[i].notations,
            signatures[i].notations.len(),
            " "@ + padding + "  "@,
            last,
        )
    }
}

/// The line of a user id: its place among the user ids, its validity and
/// the user id or its e-mail address.
pub open spec fn user_line(user: UserIdView, index: nat, count: nat, truncate: bool) -> Seq<char> {
    (if index == 0 {
        ""@
    } else if index == count - 1 {
        " └─"@
    } else {
        " ├─"@
    }) + "["@ + validity_text(user.validity) + "] "@ + text_or_unknown(
        if truncate {
            user.email
        } else {
            user.id
        },
    )
}

/// The lines of the first `count` user ids; at the highest level of
/// detail each with its signatures below.
pub open spec fn user_lines(key: GpgKeyView, count: nat, truncate: bool) -> Seq<Seq<char>>
    decreases count,
{
    if count == 0 {
        Seq::empty()
    } else {
        let i = (count - 1) as nat;
        let users = key.inner.user_ids;
        user_lines(key, i, truncate).push(user_line(users[i as int], i, users.len(), truncate))
            + (if key.detail == KeyDetail::Full {
            signature_lines(
                users[i as int].signatures,
                users[i as int].signatures.len(),
                signature_padding(users.len(), i),
                key.inner.id,
                truncate,
            )
        } else {
            Seq::empty()
        })
    }
}

/// The lines that describe the user ids of a key: at the lowest level of
/// detail the line of the primary user id alone.
pub open spec fn user_info(key: GpgKeyView, truncate: bool) -> Seq<Seq<char>> {
    let users = key.inner.user_ids;
    if key.detail == KeyDetail::Minimum {
        if users.len() > 0 {
            seq![user_line(users[0], 0, users.len(), truncate)]
        } else {
            Seq::empty()
        }
    } else {
        user_lines(key, users.len(), truncate)
    }
}

/// Takes every `0x` at the start of a key id away.
fn strip_hex_prefix(id: &str) -> (r: String)
    ensures
        r@ == without_hex_prefix(id@),
{
    let chars = chars_of(id);
    let mut from: usize = 0;
    assert(chars@.skip(0) == chars@);
    while from < chars.len() && chars.len() - from >= 2 && chars[from] == '0' && chars[from + 1]
        == 'x'
        invariant
            from <= chars.len(),
            without_hex_prefix(chars@) == without_hex_prefix(chars@.skip(from as int)),
        decreases chars.len() - from,
    {
        assert(chars@.skip(from as int).skip(2) == chars@.skip(from + 2));
        from += 2;
    }
    assert(chars@.subrange(from as int, chars.len() as int) == chars@.skip(from as int));
    string_of_range(&chars, from, chars.len())
}

/// Whether two texts that may be missing are the same.
fn same_text(a: &Option<String>, b: &Option<String>) -> (r: bool)
    ensures
        r == (text_view(*a) == text_view(*b)),
{
    match (a, b) {
        (Some(x), Some(y)) => str_eq(x.as_str(), y.as_str()),
        (None, None) => true,
        _ => false,
    }
}

fn time_format_of(truncate: bool) -> (r: &'static str)
    ensures
        r@ == time_format(truncate),
        crate::gpg::handler::is_time_format(r@),
{
    if truncate {
        "%Y"
    } else {
        "%F"
    }
}

impl GpgKey {
    /// The line of the subkey at `index`.
    fn subkey_line_at(&self, index: usize, default_key: &Option<String>, truncate: bool) -> (r:
        String)
        requires
            index < self.inner.subkeys.len(),
        ensures
            r@ == subkey_line(self@.inner.subkeys[index as int], text_view(*default_key), truncate),
    {
        let subkey = &self.inner.subkeys[index];
        let stripped = match default_key {
            Some(id) => Some(strip_hex_prefix(id.as_str())),
            None => None,
        };
        let flags = get_subkey_flags(subkey);
        let mut out = concat("[", flags.as_str());
        out.append("]");
        out.append(
            if same_text(&stripped, &subkey.id) {
                "*"
            } else {
                " "
            },
        );
        match &subkey.algorithm_name {
            Some(name) => {
                if name.as_str().unicode_len() == 7 {
                    out.append(name.as_str());
                } else {
                    out.append("unrecog");
                }
            },
            None => {
                out.append("unknown");
            },
        }
        out.append("/");
        let shown = if truncate {
            text_or_unknown_string(&subkey.id)
        } else {
            text_or_unknown_string(&subkey.fingerprint)
        };
        out.append(shown.as_str());
        assert(out@ =~= subkey_line(
            self@.inner.subkeys[index as int],
            text_view(*default_key),
            truncate,
        ));
        out
    }

    /// Returns information about the subkeys.
    pub fn get_subkey_info(&self, default_key: &Option<String>, truncate: bool) -> (r: Vec<String>)
        ensures
            views(r@) == subkey_info(self@, text_view(*default_key), truncate),
    {
        let mut key_info: Vec<String> = Vec::new();
        let count: usize = self.inner.subkeys.len();
        assert(self@.inner.subkeys.len() == count);
        assert(views(key_info@) =~= Seq::<Seq<char>>::empty());
        if count == 0 {
            return key_info;
        }
        match self.detail {
            KeyDetail::Minimum => {
                let line = self.subkey_line_at(0, default_key, truncate);
                key_info.push(line);
                assert(views(key_info@) =~= subkey_info(self@, text_view(*default_key), truncate));
                return key_info;
            },
            _ => {},
        }
        let mut i: usize = 0;
        while i < count
            invariant
                i <= count,
                count == self.inner.subkeys.len(),
                views(key_info@) == subkey_lines(
                    self@.inner.subkeys,
                    i as nat,
                    text_view(*default_key),
                    truncate,
                ),
            decreases count - i,
        {
            let ghost before = views(key_info@);
            let line = self.subkey_line_at(i, default_key, truncate);
            let mut times = copy_of(
                if i != count - 1 {
                    "|"
                } else {
                    " "
                },
            );
            times.append("      └─");
            let time = get_subkey_time(&self.inner.subkeys[i], time_format_of(truncate));
            times.append(time.as_str());
            assert(times@ =~= subkey_time_line(
                self@.inner.subkeys[i as int],
                i == count - 1,
                truncate,
            ));
            key_info.push(line);
            key_info.push(times);
            assert(views(key_info@) =~= before + seq![line@, times@]);
            i += 1;
        }
        key_info
    }

    /// Appends the lines of the notations of a signature.
    fn push_signature_notations(
        out: &mut Vec<String>,
        notations: &Vec<SignatureNotation>,
        padding: &str,
        last_signature: bool,
    )
        ensures
            views(final(out)@) == views(old(out)@) + notation_lines(
                Seq::new(notations.len() as nat, |i: int| notations[i]@),
                notations.len() as nat,
                padding@,
                last_signature,
            ),
    {
        let ghost all = Seq::new(notations.len() as nat, |i: int| notations[i]@);
        let ghost start = views(out@);
        let mut i: usize = 0;
        assert(views(out@) =~= start + notation_lines(all, 0, padding@, last_signature));
        while i < notations.len()
            invariant
                i <= notations.len(),
                all == Seq::new(notations.len() as nat, |i: int| notations[i]@),
                views(out@) == start + notation_lines(all, i as nat, padding@, last_signature),
            decreases notations.len() - i,
        {
            let ghost before = views(out@);
            let notation = &notations[i];
            let mut line = concat(
                padding,
                if last_signature {
                    " "
                } else {
                    "│"
                },
            );
            line.append("  ");
            line.append(
                if i == notations.len() - 1 {
                    "└─"
                } else {
                    "├─"
                },
            );
            line.append("[");
            line.append(
                if notation.is_critical {
                    "!"
                } else if notation.is_human_readable {
                    "h"
                } else {
                    "?"
                },
            );
            line.append("] ");
            match &notation.name {
                Some(name) => line.append(name.as_str()),
                None => line.append("?"),
            }
            line.append("=");
            match &notation.value {
                Some(value) => line.append(value.as_str()),
                None => line.append("?"),
            }
            assert(line@ =~= notation_line(
                all[i as int],
                padding@,
                last_signature,
                i == notations.len() - 1,
            ));
            proof {
                lemma_views_push(out@, line);
            }
            out.push(line);
            assert(views(out@) =~= start + notation_lines(
                all,
                (i + 1) as nat,
                padding@,
                last_signature,
            ));
            i += 1;
        }
    }

    /// Appends the lines of the signatures of the user id at `user_index`.
    fn push_user_signatures(&self, out: &mut Vec<String>, user_index: usize, truncate: bool)
        requires
            user_index < self.inner.user_ids.len(),
        ensures
            views(final(out)@) == views(old(out)@) + signature_lines(
                self@.inner.user_ids[user_index as int].signatures,
                self@.inner.user_ids[user_index as int].signatures.len(),
                signature_padding(self@.inner.user_ids.len(), user_index as nat),
                self@.inner.id,
                truncate,
            ),
    {
        let user = &self.inner.user_ids[user_index];
        let user_count: usize = self.inner.user_ids.len();
        let padding: &str = if user_count == 1 {
            " "
        } else if user_index == user_count - 1 {
            "    "
        } else if user_index == 0 {
            "│"
        } else {
            "│   "
        };
        let ghost all = self@.inner.user_ids[user_index as int].signatures;
        let ghost start = views(out@);
        let count: usize = user.signatures.len();
        assert(all.len() == count);
        let mut i: usize = 0;
        assert(views(out@) =~= start + signature_lines(
            all,
            0,
            padding@,
            self@.inner.id,
            truncate,
        ));
        while i < count
            invariant
                i <= count,
                count == user.signatures.len(),
                user_index < self.inner.user_ids.len(),
                *user == self.inner.user_ids[user_index as int],
                all == self@.inner.user_ids[user_index as int].signatures,
                padding@ == signature_padding(self@.inner.user_ids.len(), user_index as nat),
                views(out@) == start + signature_lines(
                    all,
                    i as nat,
                    padding@,
                    self@.inner.id,
                    truncate,
                ),
            decreases count - i,
        {
            let ghost before = views(out@);
            let signature = &user.signatures[i];
            assert(all[i as int] == signature@);
            let last = i == count - 1;
            let mut line = concat(" ", padding);
            line.append("  ");
            line.append(
                if last {
                    "└─"
                } else {
                    "├─"
                },
            );
            line.append("[");
            let class = hexadecimal_string(signature.cert_class);
            line.append(class.as_str());
            line.append("] ");
            if same_text(&signature.signer_key_id, &self.inner.id) {
                line.append("selfsig");
            } else if truncate {
                let signer = text_or_unknown_string(&signature.signer_key_id);
                line.append(signer.as_str());
            } else {
                let signer = text_or_unknown_string(&signature.signer_key_id);
                line.append(signer.as_str());
                line.append(" ");
                match &signature.signer_user_id {
                    Some(name) => {
                        if name.as_str().unicode_len() == 0 {
                            line.append("[?]");
                        } else {
                            line.append(name.as_str());
                        }
                    },
                    None => {
                        line.append("[-]");
                    },
                }
            }
            line.append(" ");
            let time = get_signature_time(signature, time_format_of(truncate));
            line.append(time.as_str());
            assert(line@ =~= signature_line(
                all[i as int],
                padding@,
                last,
                self@.inner.id,
                truncate,
            ));
            proof {
                lemma_views_push(out@, line);
            }
            out.push(line);
            let mut inner_padding = concat(" ", padding);
            inner_padding.append("  ");
            Self::push_signature_notations(out, &signature.notations, inner_padding.as_str(), last);
            assert(Seq::new(
                signature.notations.len() as nat,
                |k: int| signature.notations[k]@,
            ) == all[i as int].notations);
            assert(views(out@) =~= start + signature_lines(
                all,
                (i + 1) as nat,
                padding@,
                self@.inner.id,
                truncate,
            ));
            i += 1;
        }
    }

    /// The line of the user id at `index`.
    fn user_line_at(&self, index: usize, truncate: bool) -> (r: String)
        requires
            index < self.inner.user_ids.len(),
        ensures
            r@ == user_line(
                self@.inner.user_ids[index as int],
                index as nat,
                self@.inner.user_ids.len(),
                truncate,
            ),
    {
        let user = &self.inner.user_ids[index];
        let count: usize = self.inner.user_ids.len();
        let mut line = copy_of(
            if index == 0 {
                ""
            } else if index == count - 1 {
                " └─"
            } else {
                " ├─"
            },
        );
        line.append("[");
        line.append(user.validity.to_str());
        line.append("] ");
        let shown = if truncate {
            text_or_unknown_string(&user.email)
        } else {
            text_or_unknown_string(&user.id)
        };
        line.append(shown.as_str());
        assert(line@ =~= user_line(
            self@.inner.user_ids[index as int],
            index as nat,
            self@.inner.user_ids.len(),
            truncate,
        ));
        line
    }

    /// Returns information about the users of the key.
    pub fn get_user_info(&self, truncate: bool) -> (r: Vec<String>)
        ensures
            views(r@) == user_info(self@, truncate),
    {
        let mut user_info_lines: Vec<String> = Vec::new();
        let count: usize = self.inner.user_ids.len();
        assert(self@.inner.user_ids.len() == count);
        assert(views(user_info_lines@) =~= Seq::<Seq<char>>::empty());
        if count == 0 {
            return user_info_lines;
        }
        match self.detail {
            KeyDetail::Minimum => {
                let line = self.user_line_at(0, truncate);
                user_info_lines.push(line);
                assert(views(user_info_lines@) =~= user_info(self@, truncate));
                return user_info_lines;
            },
            _ => {},
        }
        let full = match self.detail {
            KeyDetail::Full => true,
            _ => false,
        };
        let mut i: usize = 0;
        while i < count
            invariant
                i <= count,
                count == self.inner.user_ids.len(),
                full == (self.detail == KeyDetail::Full),
                views(user_info_lines@) == user_lines(self@, i as nat, truncate),
            decreases count - i,
        {
            let ghost before = views(user_info_lines@);
            let line = self.user_line_at(i, truncate);
            proof {
                lemma_views_push(user_info_lines@, line);
            }
            user_info_lines.push(line);
            if full {
                self.push_user_signatures(&mut user_info_lines, i, truncate);
            }
            assert(views(user_info_lines@) =~= user_lines(self@, (i + 1) as nat, truncate));
            i += 1;
        }
        user_info_lines
    }
}

} // verus!
