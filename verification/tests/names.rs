use pesde_names::names::{
    ErrorReason, PackageName, PackageNameError, PackageNames, PackageNamesError,
};

fn parse_ok(input: &str) -> PackageName {
    match PackageName::parse(input) {
        Ok(name) => name,
        Err(e) => panic!("expected `{}` to parse, got {:?}", input, e),
    }
}

#[test]
fn no_slash_is_invalid_format() {
    match PackageName::parse("no-slash-here") {
        Err(PackageNameError::InvalidFormat(s)) => assert_eq!(s, "no-slash-here"),
        other => panic!("expected InvalidFormat, got {:?}", other),
    }
}

#[test]
fn empty_string_is_invalid_format() {
    assert!(matches!(
        PackageName::parse(""),
        Err(PackageNameError::InvalidFormat(_))
    ));
}

#[test]
fn escaped_form_is_not_reparsed() {
    assert!(matches!(
        PackageName::parse("my_scope+my_name"),
        Err(PackageNameError::InvalidFormat(_))
    ));
}

#[test]
fn scenario_my_scope_my_name() {
    let name = parse_ok("my_scope/my_name");
    assert_eq!(name.as_str(), ("my_scope", "my_name"));
    assert_eq!(name.escaped(), "my_scope+my_name");
    assert_eq!(name.display(), "my_scope/my_name");
}

#[test]
fn display_parse_round_trip() {
    let name = parse_ok("ab_c/xy_z");
    let again = parse_ok(&name.display());
    assert!(name == again);
    assert_eq!(again.as_str(), ("ab_c", "xy_z"));
}

#[test]
fn escaped_replaces_exactly_the_separator() {
    for input in ["my_scope/my_name", "abc/xyz", "a_1/b_2", "ab_c/xy_z"] {
        let name = parse_ok(input);
        assert_eq!(name.escaped(), name.display().replace('/', "+"));
    }
}

#[test]
fn length_two_is_rejected() {
    match PackageName::parse("ab/xyz") {
        Err(PackageNameError::InvalidLength(ErrorReason::Scope, s)) => assert_eq!(s, "ab"),
        other => panic!("expected InvalidLength on the scope, got {:?}", other),
    }
}

#[test]
fn length_three_is_accepted() {
    let name = parse_ok("abc/xyz");
    assert_eq!(name.as_str(), ("abc", "xyz"));
}

#[test]
fn length_thirty_two_is_accepted() {
    let part = "abcdefghijklmnopqrstuvwxyz012345";
    assert_eq!(part.len(), 32);
    let input = format!("{}/{}", part, part);
    let name = parse_ok(&input);
    assert_eq!(name.as_str(), (part, part));
}

#[test]
fn length_thirty_three_is_rejected() {
    let part = "abcdefghijklmnopqrstuvwxyz0123456";
    assert_eq!(part.len(), 33);
    let input = format!("abc/{}", part);
    match PackageName::parse(&input) {
        Err(PackageNameError::InvalidLength(ErrorReason::Name, s)) => assert_eq!(s, part),
        other => panic!("expected InvalidLength on the name, got {:?}", other),
    }
}

#[test]
fn overlong_name_is_rejected_on_the_name_part() {
    match PackageName::parse("abc/toolongtoolongtoolongtoolongtoolong") {
        Err(PackageNameError::InvalidLength(ErrorReason::Name, s)) => {
            assert_eq!(s, "toolongtoolongtoolongtoolongtoolong");
        }
        other => panic!("expected InvalidLength on the name, got {:?}", other),
    }
}

#[test]
fn scope_is_checked_before_the_name() {
    // Both parts are broken; the scope's fault is the one reported.
    match PackageName::parse("ab/toolongtoolongtoolongtoolongtoolong") {
        Err(PackageNameError::InvalidLength(ErrorReason::Scope, s)) => assert_eq!(s, "ab"),
        other => panic!("expected InvalidLength on the scope, got {:?}", other),
    }
}

#[test]
fn all_digit_scope_is_rejected() {
    match PackageName::parse("123/abc") {
        Err(PackageNameError::OnlyDigits(ErrorReason::Scope, s)) => assert_eq!(s, "123"),
        other => panic!("expected OnlyDigits on the scope, got {:?}", other),
    }
}

#[test]
fn all_digit_name_is_rejected() {
    match PackageName::parse("abc/456") {
        Err(PackageNameError::OnlyDigits(ErrorReason::Name, s)) => assert_eq!(s, "456"),
        other => panic!("expected OnlyDigits on the name, got {:?}", other),
    }
}

#[test]
fn length_is_checked_before_digits() {
    // An all-digit part that is also too short fails on its length first.
    assert!(matches!(
        PackageName::parse("12/abc"),
        Err(PackageNameError::InvalidLength(ErrorReason::Scope, _))
    ));
}

#[test]
fn digit_letter_mix_is_accepted() {
    let name = parse_ok("a12/b34");
    assert_eq!(name.as_str(), ("a12", "b34"));
}

#[test]
fn leading_underscore_is_rejected() {
    match PackageName::parse("_abc/xyz") {
        Err(PackageNameError::PrePostfixUnderscore(ErrorReason::Scope, s)) => {
            assert_eq!(s, "_abc");
        }
        other => panic!("expected PrePostfixUnderscore on the scope, got {:?}", other),
    }
}

#[test]
fn trailing_underscore_is_rejected() {
    match PackageName::parse("abc_/xyz") {
        Err(PackageNameError::PrePostfixUnderscore(ErrorReason::Scope, s)) => {
            assert_eq!(s, "abc_");
        }
        other => panic!("expected PrePostfixUnderscore on the scope, got {:?}", other),
    }
}

#[test]
fn underscore_only_part_is_rejected_for_its_edges() {
    assert!(matches!(
        PackageName::parse("___/abc"),
        Err(PackageNameError::PrePostfixUnderscore(ErrorReason::Scope, _))
    ));
}

#[test]
fn inner_underscores_are_accepted() {
    let name = parse_ok("ab_c/xy_z");
    assert_eq!(name.as_str(), ("ab_c", "xy_z"));
}

#[test]
fn uppercase_scope_is_rejected() {
    match PackageName::parse("ABC/xyz") {
        Err(PackageNameError::InvalidCharacters(ErrorReason::Scope, s)) => assert_eq!(s, "ABC"),
        other => panic!("expected InvalidCharacters on the scope, got {:?}", other),
    }
}

#[test]
fn uppercase_name_is_rejected() {
    assert!(matches!(
        PackageName::parse("abc/XYZ"),
        Err(PackageNameError::InvalidCharacters(ErrorReason::Name, _))
    ));
}

#[test]
fn hyphen_is_rejected() {
    assert!(matches!(
        PackageName::parse("ab-c/xyz"),
        Err(PackageNameError::InvalidCharacters(ErrorReason::Scope, _))
    ));
}

#[test]
fn non_ascii_part_is_rejected_for_its_characters() {
    match PackageName::parse("h\u{e9}llo/xyz") {
        Err(PackageNameError::InvalidCharacters(ErrorReason::Scope, s)) => {
            assert_eq!(s, "h\u{e9}llo");
        }
        other => panic!("expected InvalidCharacters on the scope, got {:?}", other),
    }
}

#[test]
fn length_counts_characters_not_bytes() {
    // Two characters, four bytes: too short before its characters are judged.
    assert!(matches!(
        PackageName::parse("\u{e9}\u{e9}/xyz"),
        Err(PackageNameError::InvalidLength(ErrorReason::Scope, _))
    ));
}

#[test]
fn splits_on_the_first_slash() {
    match PackageName::parse("abc/de/fg") {
        Err(PackageNameError::InvalidCharacters(ErrorReason::Name, s)) => assert_eq!(s, "de/fg"),
        other => panic!("expected InvalidCharacters on the name, got {:?}", other),
    }
    assert!(matches!(
        PackageName::parse("a/b/c"),
        Err(PackageNameError::InvalidLength(ErrorReason::Scope, _))
    ));
}

#[test]
fn from_str_matches_parse() {
    let name: PackageName = "my_scope/my_name".parse().unwrap();
    assert_eq!(name.as_str(), ("my_scope", "my_name"));
    assert!("no-slash-here".parse::<PackageName>().is_err());
}

#[test]
fn equality_is_structural() {
    let a = parse_ok("abc/xyz");
    let b = parse_ok("abc/xyz");
    assert!(a == b);
    assert!(a != parse_ok("abd/xyz"));
    assert!(a != parse_ok("abc/xy_z"));
}

#[test]
fn ordering_is_lexicographic_by_scope_then_name() {
    let a = parse_ok("aaa/zzz");
    let b = parse_ok("aab/aaa");
    let c = parse_ok("aab/aab");
    assert!(a < b);
    assert!(b < c);
}

#[test]
fn error_reason_words() {
    assert_eq!(ErrorReason::Scope.describe(), "scope");
    assert_eq!(ErrorReason::Name.describe(), "name");
}

#[test]
fn invalid_format_message() {
    let e = PackageName::parse("no-slash-here").unwrap_err();
    assert_eq!(
        e.message(),
        "package name `no-slash-here` is not in the format `scope/name`"
    );
}

#[test]
fn invalid_length_message() {
    let e = PackageName::parse("ab/xyz").unwrap_err();
    assert_eq!(e.message(), "package scope `ab` is not within 3-32 characters long");
}

#[test]
fn only_digits_message() {
    let e = PackageName::parse("abc/123").unwrap_err();
    assert_eq!(e.message(), "package name `123` contains only digits");
}

#[test]
fn underscore_message() {
    let e = PackageName::parse("abc/_xyz").unwrap_err();
    assert_eq!(e.message(), "package name `_xyz` starts or ends with an underscore");
}

#[test]
fn invalid_characters_message() {
    let e = PackageName::parse("ABC/xyz").unwrap_err();
    assert_eq!(
        e.message(),
        "package scope `ABC` contains characters outside a-z, 0-9, and _"
    );
}

#[test]
fn scheme_dispatch_accepts_a_scoped_name() {
    match PackageNames::parse("my_scope/my_name") {
        Ok(names) => {
            assert_eq!(names.as_str(), ("my_scope", "my_name"));
            assert_eq!(names.escaped(), "my_scope+my_name");
            assert_eq!(names.display(), "my_scope/my_name");
        }
        Err(e) => panic!("expected a scoped name, got {:?}", e),
    }
}

#[test]
fn scheme_dispatch_surfaces_one_aggregate_error() {
    match PackageNames::parse("no-slash-here") {
        Err(PackageNamesError::InvalidPackageName(s)) => {
            assert_eq!(s, "no-slash-here");
        }
        other => panic!("expected InvalidPackageName, got {:?}", other),
    }
    let e = PackageNames::parse("no-slash-here").unwrap_err();
    assert_eq!(e.message(), "invalid package name no-slash-here");
}

#[test]
fn scheme_union_equality_and_order() {
    let a = PackageNames::parse("abc/xyz").unwrap();
    let b = PackageNames::parse("abc/xyz").unwrap();
    let c = PackageNames::parse("abd/xyz").unwrap();
    assert!(a == b);
    assert!(a != c);
    assert!(a < c);
}
