use jwtest::masked_token::MaskedToken;

#[test]
fn mask_shows_five_characters_and_stars_the_rest() {
    let token = MaskedToken::new(String::from("abcdefghij"));
    assert_eq!(token.mask(), "abcde*****");
}

#[test]
fn mask_of_a_prefix_length_secret_has_no_stars() {
    let token = MaskedToken::new(String::from("abcde"));
    assert_eq!(token.mask(), "abcde");
}

#[test]
fn raw_secret_is_handed_out_in_full() {
    let token = MaskedToken::new(String::from("super-secret-value"));
    assert_eq!(token.as_str(), "super-secret-value");
}

#[test]
fn too_short_a_secret_is_rejected_at_construction() {
    assert!(MaskedToken::try_new(String::from("abcd")).is_none());
    let ok = MaskedToken::try_new(String::from("abcde")).expect("five characters suffice");
    assert_eq!(ok.mask(), "abcde");
}
