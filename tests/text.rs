use linear_algebra::utils::Pad;

#[test]
fn pad_appends_spaces() {
    assert_eq!(String::from("ab").pad(5), "ab   ");
    assert_eq!(String::from("abc").pad(3), "abc");
    assert_eq!(String::new().pad(2), "  ");
}

#[test]
fn pad_c_centres_with_the_extra_space_after() {
    assert_eq!(String::from("ab").pad_c(7), "  ab   ");
    assert_eq!(String::from("ab").pad_c(6), "  ab  ");
    assert_eq!(String::from("-12").pad_c(3), "-12");
}
