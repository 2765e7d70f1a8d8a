use rustbasic_cli::utils::{
    browser_launcher, parse_cargo_progress, parse_choice, parse_compiling_crate, to_pascal_case,
    to_snake_case, url_address_of, BrowserLauncher,
};

#[test]
fn snake_case_splits_before_capitals() {
    assert_eq!(to_snake_case("UserProfile"), "user_profile");
    assert_eq!(to_snake_case("HTTPServer"), "h_t_t_p_server");
    assert_eq!(to_snake_case("already_snake"), "already_snake");
    assert_eq!(to_snake_case("Product"), "product");
    assert_eq!(to_snake_case(""), "");
}

#[test]
fn snake_case_keeps_a_leading_capital_without_underscore() {
    assert_eq!(to_snake_case("A"), "a");
    assert_eq!(to_snake_case("aB"), "a_b");
}

#[test]
fn snake_case_leaves_no_ascii_capitals() {
    for input in ["ArticleController", "XMLHttpRequest", "mixed_Case-Name", "ÀB"] {
        let out = to_snake_case(input);
        assert!(!out.chars().any(|c| c.is_ascii_uppercase()), "{}", out);
    }
}

#[test]
fn pascal_case_capitalises_after_separators() {
    assert_eq!(to_pascal_case("user_profile"), "UserProfile");
    assert_eq!(to_pascal_case("my-api_key"), "MyApiKey");
    assert_eq!(to_pascal_case("__a"), "A");
    assert_eq!(to_pascal_case("Hello"), "Hello");
    assert_eq!(to_pascal_case("article"), "Article");
    assert_eq!(to_pascal_case(""), "");
}

#[test]
fn pascal_case_is_idempotent_and_drops_separators() {
    for input in ["user_profile", "my-api_key", "__x__y", "AlreadyPascal", "a-b-c"] {
        let once = to_pascal_case(input);
        assert_eq!(to_pascal_case(&once), once);
        assert!(!once.contains('_') && !once.contains('-'));
    }
}

#[test]
fn cargo_progress_lines_are_read() {
    assert_eq!(
        parse_cargo_progress("    Building [=====>     ] 12/345: serde, tokio"),
        Some((12, 345, "serde, tokio".to_string()))
    );
    assert_eq!(
        parse_cargo_progress("Building [] 0/1:"),
        Some((0, 1, String::new()))
    );
    assert_eq!(
        parse_cargo_progress("Building [==] +3/7: a"),
        Some((3, 7, "a".to_string()))
    );
}

#[test]
fn other_lines_are_not_progress() {
    assert_eq!(parse_cargo_progress("   Compiling serde v1.0.0"), None);
    assert_eq!(parse_cargo_progress("Building [==] x/3: a"), None);
    assert_eq!(parse_cargo_progress("Building [==] 3/7 a"), None);
    assert_eq!(parse_cargo_progress("Building [==] 37: a"), None);
    assert_eq!(parse_cargo_progress("Building no bracket"), None);
    assert_eq!(parse_cargo_progress(""), None);
}

#[test]
fn compiling_lines_name_the_crate() {
    assert_eq!(
        parse_compiling_crate("   Compiling serde v1.0.0"),
        Some(("Compiling".to_string(), "serde".to_string()))
    );
    assert_eq!(
        parse_compiling_crate("Checking foo v0.1.0 (/tmp/foo)"),
        Some(("Checking".to_string(), "foo".to_string()))
    );
    assert_eq!(
        parse_compiling_crate("Documenting bar"),
        Some(("Documenting".to_string(), "bar".to_string()))
    );
    assert_eq!(parse_compiling_crate("   Compiling "), None);
    assert_eq!(parse_compiling_crate("    Finished dev profile"), None);
}

#[test]
fn menu_choices_are_bounded() {
    assert_eq!(parse_choice(" 2 \n", 1, 3), Some(2));
    assert_eq!(parse_choice("+1", 1, 3), Some(1));
    assert_eq!(parse_choice("4", 1, 3), None);
    assert_eq!(parse_choice("0", 1, 3), None);
    assert_eq!(parse_choice("abc", 1, 3), None);
    assert_eq!(parse_choice("", 1, 3), None);
}

#[test]
fn url_addresses_drop_scheme_and_path() {
    assert_eq!(url_address_of("http://localhost:4000/dashboard"), "localhost:4000");
    assert_eq!(url_address_of("https://example.com"), "example.com");
    assert_eq!(url_address_of("127.0.0.1:8080"), "127.0.0.1:8080");
}

#[test]
fn browser_launcher_follows_the_os() {
    assert!(matches!(browser_launcher("macos"), BrowserLauncher::Open));
    assert!(matches!(browser_launcher("windows"), BrowserLauncher::CmdStart));
    assert!(matches!(browser_launcher("linux"), BrowserLauncher::XdgOpen));
}

#[test]
fn snake_case_reads_back_in_pascal_case() {
    for name in ["UserProfile", "HTMLPage", "User2Name", "A", "Post", "2Fast", ""] {
        assert_eq!(to_pascal_case(&to_snake_case(name)), name);
    }
    assert_eq!(to_snake_case("HTMLPage"), "h_t_m_l_page");
    assert_eq!(to_pascal_case("user_profile-page"), "UserProfilePage");
    // a name that starts in lower case comes back capitalised
    assert_eq!(to_pascal_case(&to_snake_case("userName")), "UserName");
}

#[test]
fn only_ascii_capitals_split_ascii_names() {
    assert_eq!(to_snake_case("a1B!c"), "a1_b!c");
    // capitals beyond ASCII split too, but keep their case
    assert_eq!(to_snake_case("aÉb"), "a_Éb");
}
