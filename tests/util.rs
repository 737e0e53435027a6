use rydl::util::split_string_every;

#[test]
fn split_string_every_test() {
    let s = "abc123abc123abc123abc123abc12";
    let n = 3;

    let res = split_string_every(s, n);

    let res_expected = vec![
        String::from("abc"),
        String::from("123"),
        String::from("abc"),
        String::from("123"),
        String::from("abc"),
        String::from("123"),
        String::from("abc"),
        String::from("123"),
        String::from("abc"),
        String::from("12"),
    ];

    assert_eq!(res_expected, res);
}

#[test]
fn split_string_every_edges() {
    assert_eq!(split_string_every("", 3), Vec::<String>::new());
    assert_eq!(split_string_every("abcdef", 3), vec!["abc", "def"]);
    assert_eq!(split_string_every("héllo", 2), vec!["hé", "ll", "o"]);
    assert_eq!(split_string_every("ab", 5), vec!["ab"]);
}
