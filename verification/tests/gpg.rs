use gpg_tui::gpg::handler::{get_signature_time, get_subkey_flags, get_subkey_time};
use gpg_tui::gpg::key::{
    GpgKey, Key, KeyDetail, KeyType, SignatureNotation, Subkey, UserId, UserIdSignature, Validity,
};
use gpg_tui::widget::style::{Color, TuiColor};

fn subkey(id: &str) -> Subkey {
    Subkey {
        id: Some(id.to_string()),
        fingerprint: Some(format!("FPR{}", id)),
        algorithm_name: Some(String::from("rsa3072")),
        can_sign: true,
        can_certify: true,
        can_encrypt: false,
        can_authenticate: false,
        creation_time: Some(1_596_000_000),
        expiration_time: None,
        is_expired: false,
        is_revoked: false,
        is_disabled: false,
        is_invalid: false,
        is_qualified: false,
    }
}

fn signature(signer: &str) -> UserIdSignature {
    UserIdSignature {
        signer_key_id: Some(signer.to_string()),
        signer_user_id: Some(String::from("signer <s@example.org>")),
        cert_class: 19,
        creation_time: Some(1_596_000_000),
        expiration_time: None,
        is_expired: false,
        is_revocation: false,
        is_invalid: false,
        is_exportable: true,
        notations: Vec::new(),
    }
}

fn user(name: &str) -> UserId {
    UserId {
        id: Some(format!("{} <{}@example.org>", name, name)),
        email: Some(format!("{}@example.org", name)),
        validity: Validity::Ultimate,
        signatures: Vec::new(),
    }
}

fn key() -> GpgKey {
    let mut second = subkey("BBBB");
    second.can_sign = false;
    second.can_certify = false;
    second.can_encrypt = true;
    second.expiration_time = Some(1_700_000_000);
    second.is_expired = true;
    second.algorithm_name = Some(String::from("ed25519x"));
    let mut first_user = user("alice");
    let mut own = signature("AAAA");
    own.notations = vec![
        SignatureNotation {
            name: Some(String::from("n")),
            value: Some(String::from("v")),
            is_critical: true,
            is_human_readable: true,
        },
        SignatureNotation { name: None, value: None, is_critical: false, is_human_readable: false },
    ];
    let mut other = signature("CCCC");
    other.cert_class = 16;
    other.signer_user_id = Some(String::new());
    other.is_exportable = false;
    other.is_revocation = true;
    first_user.signatures = vec![own, other];
    let mut second_user = user("bob");
    second_user.validity = Validity::Unknown;
    second_user.signatures = vec![signature("DDDD")];
    GpgKey::new(
        Key {
            id: Some(String::from("AAAA")),
            fingerprint: Some(String::from("FPRAAAA")),
            subkeys: vec![subkey("AAAA"), second],
            user_ids: vec![first_user, second_user],
        },
        KeyDetail::Minimum,
    )
}

#[test]
fn test_gpg_key() {
    let mut key = key();
    key.detail.increase();
    assert_eq!(KeyDetail::Standard, key.detail);
    assert_eq!(Ok(key.detail), KeyDetail::from_str("standard", false));
    key.detail.increase();
    assert_eq!(KeyDetail::Full, key.detail);
    assert_eq!("full", key.detail.to_string());
    assert!(key
        .get_subkey_info(&Some(String::new()), true)
        .join("\n")
        .contains(&key.get_id().replace("0x", "")));
    assert!(key
        .get_subkey_info(&Some(String::new()), false)
        .join("\n")
        .contains(&key.get_fingerprint()));
    assert!(key.get_user_info(false).join("\n").contains(&key.get_user_id()));
}

#[test]
fn test_key_texts() {
    let key = key();
    assert_eq!("0xAAAA", key.get_id());
    assert_eq!("FPRAAAA", key.get_fingerprint());
    assert_eq!("alice <alice@example.org>", key.get_user_id());
    let empty = GpgKey::new(
        Key { id: None, fingerprint: None, subkeys: Vec::new(), user_ids: Vec::new() },
        KeyDetail::Full,
    );
    assert_eq!("[?]", empty.get_id());
    assert_eq!("[?]", empty.get_fingerprint());
    assert_eq!("[?]", empty.get_user_id());
    assert!(empty.get_subkey_info(&None, false).is_empty());
    assert!(empty.get_user_info(true).is_empty());
    let copy = key.clone();
    assert_eq!(key.get_user_info(false), copy.get_user_info(false));
    assert_eq!(KeyDetail::Minimum, KeyDetail::default());
    let mut detail = KeyDetail::Full;
    detail.increase();
    assert_eq!(KeyDetail::Minimum, detail);
    assert_eq!(Ok(KeyDetail::Minimum), KeyDetail::from_str("MIN", true));
    assert_eq!(Err(()), KeyDetail::from_str("MIN", false));
    assert_eq!(Some(KeyDetail::Full), KeyDetail::from_name("3"));
    assert_eq!("pub", KeyType::Public.to_string());
    assert_eq!("secret", KeyType::Secret.name());
    assert_eq!(Ok(KeyType::Public), KeyType::from_str(""));
    assert_eq!(Ok(KeyType::Secret), KeyType::from_str("ec"));
    assert_eq!(Err(()), KeyType::from_str("pb"));
    assert_eq!(Err(()), KeyType::from_str("PUB"));
}

#[test]
fn test_subkey_info() {
    let mut key = key();
    assert_eq!(
        vec!["[sc--] rsa3072/FPRAAAA"],
        key.get_subkey_info(&None, false)
    );
    assert_eq!(
        vec!["[sc--]*rsa3072/AAAA"],
        key.get_subkey_info(&Some(String::from("0x0xAAAA")), true)
    );
    key.detail = KeyDetail::Standard;
    assert_eq!(
        vec![
            "[sc--] rsa3072/FPRAAAA",
            "|      └─(2020-07-29)",
            "[--e-]*unrecog/FPRBBBB",
            "       └─(2020-07-29) ─> (2023-11-14) [exp]",
        ],
        key.get_subkey_info(&Some(String::from("BBBB")), false)
    );
    assert_eq!(
        vec![
            "[sc--] rsa3072/AAAA",
            "|      └─(2020)",
            "[--e-] unrecog/BBBB",
            "       └─(2020) ─> (2023) [exp]",
        ],
        key.get_subkey_info(&Some(String::from("xBBBB")), true)
    );
    key.inner.subkeys[0].id = None;
    key.inner.subkeys[0].algorithm_name = None;
    // a missing default key is the same as a missing id
    assert_eq!("[sc--]*unknown/[?]", key.get_subkey_info(&None, true)[0]);
}

#[test]
fn test_user_info() {
    let mut key = key();
    assert_eq!(vec!["[u] alice <alice@example.org>"], key.get_user_info(false));
    assert_eq!(vec!["[u] alice@example.org"], key.get_user_info(true));
    key.detail = KeyDetail::Standard;
    assert_eq!(
        vec!["[u] alice@example.org", " └─[?] bob@example.org"],
        key.get_user_info(true)
    );
    key.detail = KeyDetail::Full;
    assert_eq!(
        vec![
            "[u] alice <alice@example.org>",
            " │  ├─[13] selfsig (2020-07-29)",
            " │  │  ├─[!] n=v",
            " │  │  └─[?] ?=?",
            " │  └─[10] CCCC [?] (2020-07-29) [rev] [!x]",
            " └─[?] bob <bob@example.org>",
            "       └─[13] DDDD signer <s@example.org> (2020-07-29)",
        ],
        key.get_user_info(false)
    );
    assert_eq!(
        vec![
            "[u] alice@example.org",
            " │  ├─[13] selfsig (2020)",
            " │  │  ├─[!] n=v",
            " │  │  └─[?] ?=?",
            " │  └─[10] CCCC (2020) [rev] [!x]",
            " └─[?] bob@example.org",
            "       └─[13] DDDD (2020)",
        ],
        key.get_user_info(true)
    );
    key.inner.user_ids.truncate(1);
    key.inner.user_ids[0].signatures.truncate(1);
    key.inner.user_ids[0].signatures[0].notations.truncate(1);
    key.inner.user_ids[0].signatures[0].notations[0].is_critical = false;
    assert_eq!(
        vec![
            "[u] alice <alice@example.org>",
            "    └─[13] selfsig (2020-07-29)",
            "       └─[h] n=v",
        ],
        key.get_user_info(false)
    );
    key.inner.user_ids.push(user("carol"));
    key.inner.user_ids.push(user("dave"));
    key.inner.user_ids[1].validity = Validity::Marginal;
    key.inner.user_ids[1].signatures = vec![signature("EEEE")];
    key.inner.user_ids[1].signatures[0].signer_user_id = None;
    key.inner.user_ids[1].signatures[0].signer_key_id = None;
    key.inner.user_ids[1].signatures[0].cert_class = 255;
    let lines = key.get_user_info(false);
    assert_eq!(" ├─[m] carol <carol@example.org>", lines[3]);
    assert_eq!(" │     └─[ff] [?] [-] (2020-07-29)", lines[4]);
    assert_eq!(" └─[u] dave <dave@example.org>", lines[5]);
}

#[test]
fn test_times_and_flags() {
    let mut subkey = subkey("A");
    assert_eq!("sc--", get_subkey_flags(&subkey));
    subkey.can_sign = false;
    subkey.can_authenticate = true;
    subkey.can_encrypt = true;
    assert_eq!("-cea", get_subkey_flags(&subkey));
    subkey.creation_time = Some(0);
    subkey.expiration_time = Some(86_400 * 365);
    subkey.is_revoked = true;
    subkey.is_disabled = true;
    subkey.is_invalid = true;
    subkey.is_qualified = true;
    assert_eq!(
        "(1970-01-01) ─> (1971-01-01) [rev] [d] [i] [q]",
        get_subkey_time(&subkey, "%F")
    );
    subkey.creation_time = None;
    subkey.expiration_time = Some(i64::MAX);
    assert_eq!("([?]) ─> ([?]) [rev] [d] [i] [q]", get_subkey_time(&subkey, "%Y"));
    let mut signature = signature("A");
    signature.creation_time = Some(-1);
    signature.is_expired = true;
    signature.is_invalid = true;
    assert_eq!("(1969) [exp] [i]", get_signature_time(&signature, "%Y"));
    assert_eq!("q", Validity::Undefined.to_str());
    assert_eq!("n", Validity::Never.to_str());
    assert_eq!("f", Validity::Full.to_str());
}

#[test]
fn test_widget_style() {
    assert_eq!(TuiColor::Gray, Color::from("gray").get());
    assert_eq!(TuiColor::Black, Color::from("black").get());
    assert_eq!(TuiColor::Green, Color::from("green").get());
    assert_eq!(TuiColor::Gray, Color::from("xyz").get());
    assert_eq!(TuiColor::Rgb(152, 157, 69), Color::from("989D45").get());
    assert_eq!(TuiColor::Rgb(18, 49, 47), Color::from("12312F").get());
    assert_eq!(TuiColor::Rgb(255, 242, 255), Color::from("FFF2FF").get());
    assert_eq!(TuiColor::Gray, Color::from("FF00FX").get());
}

#[test]
fn test_colors() {
    assert_eq!(TuiColor::Gray, Color::default().get());
    assert_eq!(TuiColor::LightMagenta, Color::from("LightMagenta").get());
    assert_eq!(TuiColor::DarkGray, Color::from("DARKGRAY").get());
    assert_eq!(TuiColor::Rgb(255, 0, 170), Color::from("f0a").get());
    assert_eq!(TuiColor::Rgb(18, 49, 35), Color::from("#123123").get());
    assert_eq!(TuiColor::Gray, Color::from("").get());
    assert_eq!(TuiColor::Gray, Color::from("1234").get());
    assert_eq!(Ok(Color { inner: TuiColor::White }), Color::from_str("white"));
    assert_eq!(TuiColor::Red, Color::from_parts("red", Some((1, 2, 3))).get());
    assert_eq!(TuiColor::Rgb(1, 2, 3), Color::from_parts("Red", Some((1, 2, 3))).get());
    assert_eq!(TuiColor::Gray, Color::from_parts("Red", None).get());
    assert_eq!("#0a10ff", TuiColor::Rgb(10, 16, 255).to_text());
    assert_eq!("#000000", TuiColor::Rgb(0, 0, 0).to_text());
    assert_eq!("lightyellow", TuiColor::LightYellow.to_text());
    assert_eq!("reset", TuiColor::Reset.to_text());
    assert_eq!("indexed(200)", TuiColor::Indexed(200).to_text());
}
