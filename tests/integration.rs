use typenum_uuid::bits::TypenumUint;
use typenum_uuid::emit::uuid_to_tokenstream;
use typenum_uuid::split::split_off_prefix;
use typenum_uuid::token::{Spacing, Token};
use typenum_uuid::{uuid, uuid_new_v4, UuidError};

fn ident(s: &str) -> Token {
    Token::Ident(String::from(s))
}

fn punct(c: char) -> Token {
    Token::Punct(c, Spacing::Alone)
}

fn colons() -> Vec<Token> {
    vec![Token::Punct(':', Spacing::Joint), punct(':')]
}

/// `prefix :: name`
fn path(prefix: &[Token], name: &str) -> Vec<Token> {
    let mut v: Vec<Token> = prefix.to_vec_tokens();
    v.extend(colons());
    v.push(ident(name));
    v
}

trait ToVecTokens {
    fn to_vec_tokens(&self) -> Vec<Token>;
}

impl ToVecTokens for [Token] {
    fn to_vec_tokens(&self) -> Vec<Token> {
        self.iter().map(|t| t.copy()).collect()
    }
}

fn default_prefix() -> Vec<Token> {
    let mut v = colons();
    v.push(ident("typenum"));
    v
}

/// Reads an emitted expression back as an integer: its bit names come
/// most significant first.
fn decode(tokens: &[Token]) -> u128 {
    let mut x: u128 = 0;
    for t in tokens {
        if let Token::Ident(s) = t {
            if s == "B0" {
                x = x << 1;
            } else if s == "B1" {
                x = (x << 1) | 1;
            }
        }
    }
    x
}

/// The first name that follows a `::`.
fn outer_path(tokens: &[Token]) -> Vec<Token> {
    let mut n = 0;
    while !matches!(&tokens[n], Token::Ident(s) if s == "UInt" || s == "UTerm") {
        n += 1;
    }
    tokens[..n + 1].to_vec_tokens()
}

/// `a65ff38d-b5b2-48d0-b03a-bdf468523d2e` as the compiler hands it over.
fn hyphenated() -> Vec<Token> {
    vec![
        ident("a65ff38d"),
        punct('-'),
        ident("b5b2"),
        punct('-'),
        Token::Literal(String::from("48d0")),
        punct('-'),
        ident("b03a"),
        punct('-'),
        ident("bdf468523d2e"),
    ]
}

const EXPECTED: u128 = 0xa65ff38d_b5b2_48d0_b03a_bdf468523d2e;

#[test]
fn v4() {
    let x1 = uuid_new_v4(vec![]).unwrap();
    let x2 = uuid_new_v4(vec![]).unwrap();
    assert_eq!(outer_path(&x1), path(&default_prefix(), "UInt"));
    assert_ne!(decode(&x1), decode(&x2));
    assert_ne!(x1, x2);
}

#[test]
fn v4_alternate_typenum() {
    let args = vec![
        punct('|'),
        ident("crate"),
        Token::Punct(':', Spacing::Joint),
        punct(':'),
        ident("fake_typenum"),
    ];
    let y = uuid_new_v4(args).unwrap();
    let alt = vec![ident("crate"), Token::Punct(':', Spacing::Joint), punct(':'), ident("fake_typenum")];
    if outer_path(&y) != path(&alt, "UInt") {
        panic!("Proc macro didn't use alternate implementation");
    }
    assert!(!y.iter().any(|t| matches!(t, Token::Ident(s) if s == "typenum")));
}

#[test]
fn literal() {
    let xcmp = ::uuid::Uuid::parse_str("a65ff38d-b5b2-48d0-b03a-bdf468523d2e").unwrap();

    let x0 = uuid(vec![Token::Literal(String::from("a65ff38db5b248d0b03abdf468523d2e"))]).unwrap();
    let mut args1 = hyphenated();
    args1.push(punct('|'));
    args1.push(ident("local_tn"));
    let x1 = uuid(args1).unwrap();
    let mut args2 = vec![ident("urn"), punct(':'), ident("uuid"), punct(':')];
    args2.extend(hyphenated());
    let x2 = uuid(args2).unwrap();

    assert_eq!(xcmp.as_u128(), decode(&x0));
    assert_eq!(xcmp.as_u128(), decode(&x1));
    assert_eq!(xcmp.as_u128(), decode(&x2));
}

#[test]
fn literal_surface_forms_give_one_expression() {
    let a = uuid(hyphenated()).unwrap();
    let b = uuid(hyphenated()).unwrap();
    let c = uuid(vec![Token::Literal(String::from("a65ff38db5b248d0b03abdf468523d2e"))]).unwrap();
    let mut urn = vec![ident("urn"), punct(':'), ident("uuid"), punct(':')];
    urn.extend(hyphenated());
    let d = uuid(urn).unwrap();
    assert_eq!(a, b);
    assert_eq!(a, c);
    assert_eq!(a, d);
    assert_eq!(a, uuid_to_tokenstream(EXPECTED, &default_prefix()));
}

#[test]
fn literal_ignores_whitespace() {
    let spaced = uuid(vec![Token::Group(String::from(" a65ff38d - b5b2-48d0\t-b03a -\nbdf468523d2e "))]).unwrap();
    assert_eq!(decode(&spaced), EXPECTED);
    assert_eq!(spaced, uuid(hyphenated()).unwrap());
}

#[test]
fn literal_with_short_group_is_parse_error() {
    let r = uuid(vec![Token::Literal(String::from("a65ff38d-b5b2-48d0-b03a-bdf468523d2"))]);
    assert!(matches!(r, Err(UuidError::Parse(_))));
    let r = uuid(vec![Token::Literal(String::from("a65ff38-db5b2-48d0-b03a-bdf468523d2e"))]);
    assert!(matches!(r, Err(UuidError::Parse(_))));
}

#[test]
fn literal_with_bad_hex_or_prefix_is_parse_error() {
    let r = uuid(vec![Token::Literal(String::from("g65ff38db5b248d0b03abdf468523d2e"))]);
    assert!(matches!(r, Err(UuidError::Parse(_))));
    let r = uuid(vec![Token::Literal(String::from("urn:uid:a65ff38d-b5b2-48d0-b03a-bdf468523d2e"))]);
    assert!(matches!(r, Err(UuidError::Parse(_))));
    let r = uuid(vec![]);
    assert!(matches!(r, Err(UuidError::Parse(_))));
}

#[test]
fn v4_with_arguments_is_argument_count_error() {
    assert!(matches!(uuid_new_v4(vec![ident("x")]), Err(UuidError::ArgumentCount)));
    let args = vec![ident("x"), punct('|'), ident("tn")];
    assert!(matches!(uuid_new_v4(args), Err(UuidError::ArgumentCount)));
    assert!(matches!(uuid_new_v4(hyphenated()), Err(UuidError::ArgumentCount)));
}

#[test]
fn v4_with_only_namespace_succeeds() {
    assert!(uuid_new_v4(vec![punct('|'), ident("tn")]).is_ok());
    assert!(uuid_new_v4(vec![punct('|')]).is_ok());
}

#[test]
fn v4_sets_version_and_variant() {
    let x = decode(&uuid_new_v4(vec![]).unwrap());
    assert_eq!(x & 0xF000_C000_0000_0000_0000, 0x4000_8000_0000_0000_0000);
}

#[test]
fn encode_zero_is_term() {
    assert!(matches!(TypenumUint::from_u128(0), TypenumUint::Term));
    assert_eq!(uuid_to_tokenstream(0, &default_prefix()), path(&default_prefix(), "UTerm"));
}

#[test]
fn encode_one_is_single_bit() {
    match TypenumUint::from_u128(1) {
        TypenumUint::Lsb(high, true) => assert!(matches!(*high, TypenumUint::Term)),
        _ => panic!("one is a single set bit above the terminator"),
    }
}

#[test]
fn encode_has_one_node_per_binary_digit() {
    fn depth(t: &TypenumUint) -> u32 {
        match t {
            TypenumUint::Term => 0,
            TypenumUint::Lsb(h, _) => 1 + depth(h),
        }
    }
    assert_eq!(depth(&TypenumUint::from_u128(0)), 0);
    assert_eq!(depth(&TypenumUint::from_u128(1)), 1);
    assert_eq!(depth(&TypenumUint::from_u128(2)), 2);
    assert_eq!(depth(&TypenumUint::from_u128(255)), 8);
    assert_eq!(depth(&TypenumUint::from_u128(256)), 9);
    assert_eq!(depth(&TypenumUint::from_u128(u128::MAX)), 128);
}

#[test]
fn emit_two_exact_tokens() {
    // 2 = UInt<UInt<UTerm, B1>, B0>
    let p = default_prefix();
    let mut expected = path(&p, "UInt");
    expected.push(punct('<'));
    expected.extend(path(&p, "UInt"));
    expected.push(punct('<'));
    expected.extend(path(&p, "UTerm"));
    expected.push(punct(','));
    expected.extend(path(&p, "B1"));
    expected.push(punct('>'));
    expected.push(punct(','));
    expected.extend(path(&p, "B0"));
    expected.push(punct('>'));
    assert_eq!(uuid_to_tokenstream(2, &p), expected);
}

#[test]
fn emit_round_trips_integers() {
    for x in [0u128, 1, 2, 3, 5, 1 << 64, EXPECTED, u128::MAX - 1, u128::MAX] {
        assert_eq!(decode(&uuid_to_tokenstream(x, &default_prefix())), x);
    }
}

#[test]
fn namespace_override_changes_only_qualifiers() {
    let alt = vec![ident("local_tn")];
    let with_default = uuid_to_tokenstream(EXPECTED, &default_prefix());
    let with_alt = uuid_to_tokenstream(EXPECTED, &alt);
    // Each qualification point is three tokens by default and one with the override.
    let mut rewritten: Vec<Token> = Vec::new();
    let mut i = 0;
    while i < with_default.len() {
        if with_default[i..].starts_with(&default_prefix()) {
            rewritten.push(ident("local_tn"));
            i += 3;
        } else {
            rewritten.push(with_default[i].copy());
            i += 1;
        }
    }
    assert_eq!(rewritten, with_alt);
    assert_eq!(decode(&with_alt), EXPECTED);
}

#[test]
fn split_without_separator_uses_default_namespace() {
    let (value, prefix) = split_off_prefix(vec![ident("a"), ident("b")]);
    assert_eq!(value, vec![ident("a"), ident("b")]);
    assert_eq!(prefix, default_prefix());
}

#[test]
fn split_at_first_separator() {
    let (value, prefix) = split_off_prefix(vec![ident("a"), punct('|'), ident("tn"), punct('|'), ident("x")]);
    assert_eq!(value, vec![ident("a")]);
    assert_eq!(prefix, vec![ident("tn"), punct('|'), ident("x")]);
}

#[test]
fn split_with_empty_namespace_uses_default() {
    let (value, prefix) = split_off_prefix(vec![ident("a"), punct('|')]);
    assert_eq!(value, vec![ident("a")]);
    assert_eq!(prefix, default_prefix());
    let (value, prefix) = split_off_prefix(vec![]);
    assert!(value.is_empty());
    assert_eq!(prefix, default_prefix());
}

#[test]
fn token_text_of_punct_is_its_char() {
    assert_eq!(punct('|').text(), "|");
    assert_eq!(ident("abc").text(), "abc");
}
