//! How the flags and the times of subkeys and signatures are written.

use crate::gpg::key::{text_view, Subkey, SubkeyView, UserIdSignature, UserIdSignatureView};
use crate::text::copy_of;
use vstd::prelude::*;

verus! {

/// A time in UTC, given in seconds since the epoch, written in a format
/// of `chrono`; `None` where the time is out of the range of its
/// calendar.
pub uninterp spec fn utc_format(seconds: i64, format: Seq<char>) -> Option<Seq<char>>;

/// Whether a format is one of the two that the key tables use: the year
/// alone, or the date as year, month and day.
pub open spec fn is_time_format(format: Seq<char>) -> bool {
    format == "%Y"@ || format == "%F"@
}

/// Writes a time with `chrono`: `DateTime::<Utc>::from_timestamp` makes
/// the time of the seconds, which fails where they are out of range, and
/// `format` with `to_string` writes it. The result is a function of the
/// seconds and the format alone and known only under the name
/// [`utc_format`]. Only the two formats of the key tables are admitted,
/// which `chrono` always accepts.
#[verifier::external_body]
fn format_utc(seconds: i64, format: &str) -> (r: Option<String>)
    requires
        is_time_format(format@),
    ensures
        text_view(r) == utc_format(seconds, format@),
{
    match chrono::DateTime::<chrono::Utc>::from_timestamp(seconds, 0) {
        Some(date) => Some(date.format(format).to_string()),
        None => None,
    }
}

/// A time as the tables show it; `[?]` where there is none or it cannot
/// be written.
pub open spec fn time_text(time: Option<i64>, format: Seq<char>) -> Seq<char> {
    match time {
        Some(seconds) => match utc_format(seconds, format) {
            Some(text) => text,
            None => "[?]"@,
        },
        None => "[?]"@,
    }
}

/// A time of expiration as the tables show it: nothing where there is
/// none.
pub open spec fn expiration_text(time: Option<i64>, format: Seq<char>) -> Seq<char> {
    match time {
        Some(_) => " ─> ("@ + time_text(time, format) + ")"@,
        None => Seq::empty(),
    }
}

/// A mark that is shown where a flag is set.
pub open spec fn mark(flag: bool, text: Seq<char>) -> Seq<char> {
    if flag {
        text
    } else {
        Seq::empty()
    }
}

/// The four flags of a subkey: sign, certify, encrypt, authenticate; a
/// dash stands for what the subkey cannot do.
pub open spec fn subkey_flags(subkey: SubkeyView) -> Seq<char> {
    seq![
        if subkey.can_sign {
            's'
        } else {
            '-'
        },
        if subkey.can_certify {
            'c'
        } else {
            '-'
        },
        if subkey.can_encrypt {
            'e'
        } else {
            '-'
        },
        if subkey.can_authenticate {
            'a'
        } else {
            '-'
        },
    ]
}

/// The times of a subkey and what has become of it.
pub open spec fn subkey_time(subkey: SubkeyView, format: Seq<char>) -> Seq<char> {
    "("@ + time_text(subkey.creation_time, format) + ")"@ + expiration_text(
        subkey.expiration_time,
        format,
    ) + mark(subkey.is_expired, " [exp]"@) + mark(subkey.is_revoked, " [rev]"@) + mark(
        subkey.is_disabled,
        " [d]"@,
    ) + mark(subkey.is_invalid, " [i]"@) + mark(subkey.is_qualified, " [q]"@)
}

/// The times of a signature and what has become of it.
pub open spec fn signature_time(signature: UserIdSignatureView, format: Seq<char>) -> Seq<char> {
    "("@ + time_text(signature.creation_time, format) + ")"@ + expiration_text(
        signature.expiration_time,
        format,
    ) + mark(signature.is_expired, " [exp]"@) + mark(signature.is_revocation, " [rev]"@) + mark(
        signature.is_invalid,
        " [i]"@,
    ) + mark(!signature.is_exportable, " [!x]"@)
}

fn time_string(time: Option<i64>, format: &str) -> (r: String)
    requires
        is_time_format(format@),
    ensures
        r@ == time_text(time, format@),
{
    match time {
        Some(seconds) => match format_utc(seconds, format) {
            Some(text) => text,
            None => copy_of("[?]"),
        },
        None => copy_of("[?]"),
    }
}

/// Appends the creation and expiration times.
fn push_times(out: &mut String, creation: Option<i64>, expiration: Option<i64>, format: &str)
    requires
        is_time_format(format@),
    ensures
        final(out)@ == old(out)@ + "("@ + time_text(creation, format@) + ")"@ + expiration_text(
            expiration,
            format@,
        ),
{
    let created = time_string(creation, format);
    out.append("(");
    out.append(created.as_str());
    out.append(")");
    if expiration.is_some() {
        let expires = time_string(expiration, format);
        out.append(" ─> (");
        out.append(expires.as_str());
        out.append(")");
        assert(out@ =~= old(out)@ + "("@ + time_text(creation, format@) + ")"@ + expiration_text(
            expiration,
            format@,
        ));
    } else {
        assert(out@ =~= old(out)@ + "("@ + time_text(creation, format@) + ")"@ + expiration_text(
            expiration,
            format@,
        ));
    }
}

/// Appends a mark where its flag is set.
fn push_mark(out: &mut String, flag: bool, text: &str)
    ensures
        final(out)@ == old(out)@ + mark(flag, text@),
{
    if flag {
        out.append(text);
    } else {
        assert(out@ =~= old(out)@ + mark(flag, text@));
    }
}

/// Returns the flags of the given subkey.
///
/// * `S`: sign
/// * `C`: certify
/// * `E`: encrypt
/// * `A`: authenticate
pub fn get_subkey_flags(subkey: &Subkey) -> (r: String)
    ensures
        r@ == subkey_flags(subkey@),
{
    let mut out = String::new();
    out.push(
        if subkey.can_sign {
            's'
        } else {
            '-'
        },
    );
    out.push(
        if subkey.can_certify {
            'c'
        } else {
            '-'
        },
    );
    out.push(
        if subkey.can_encrypt {
            'e'
        } else {
            '-'
        },
    );
    out.push(
        if subkey.can_authenticate {
            'a'
        } else {
            '-'
        },
    );
    assert(out@ =~= subkey_flags(subkey@));
    out
}

/// Returns time information about the given subkey.
///
/// * creation time
/// * expiration time
/// * is the key expired/revoked/disabled/invalid/qualified?
pub fn get_subkey_time(subkey: &Subkey, format: &str) -> (r: String)
    requires
        is_time_format(format@),
    ensures
        r@ == subkey_time(subkey@, format@),
{
    let mut out = String::new();
    push_times(&mut out, subkey.creation_time, subkey.expiration_time, format);
    push_mark(&mut out, subkey.is_expired, " [exp]");
    push_mark(&mut out, subkey.is_revoked, " [rev]");
    push_mark(&mut out, subkey.is_disabled, " [d]");
    push_mark(&mut out, subkey.is_invalid, " [i]");
    push_mark(&mut out, subkey.is_qualified, " [q]");
    assert(out@ =~= subkey_time(subkey@, format@));
    out
}

/// Returns time information about the given signature.
///
/// * creation time
/// * expiration time
/// * is the signature expired/revoked/invalid/non-exportable?
pub fn get_signature_time(signature: &UserIdSignature, format: &str) -> (r: String)
    requires
        is_time_format(format@),
    ensures
        r@ == signature_time(signature@, format@),
{
    let mut out = String::new();
    push_times(&mut out, signature.creation_time, signature.expiration_time, format);
    push_mark(&mut out, signature.is_expired, " [exp]");
    push_mark(&mut out, signature.is_revocation, " [rev]");
    push_mark(&mut out, signature.is_invalid, " [i]");
    push_mark(&mut out, !signature.is_exportable, " [!x]");
    assert(out@ =~= signature_time(signature@, format@));
    out
}

} // verus!
