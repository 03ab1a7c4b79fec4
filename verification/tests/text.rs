use logview::text::split_lines;

fn std_lines(text: &str) -> Vec<String> {
    text.lines().map(|s| s.to_string()).collect()
}

#[test]
fn empty_text_has_no_lines() {
    assert_eq!(split_lines(""), Vec::<String>::new());
}

#[test]
fn a_text_without_line_feed_is_one_line() {
    assert_eq!(split_lines("hello"), vec!["hello".to_string()]);
}

#[test]
fn a_final_line_feed_adds_no_line() {
    assert_eq!(split_lines("a\nb\n"), vec!["a".to_string(), "b".to_string()]);
    assert_eq!(split_lines("a\nb"), vec!["a".to_string(), "b".to_string()]);
}

#[test]
fn a_lone_line_feed_is_one_empty_line() {
    assert_eq!(split_lines("\n"), vec![String::new()]);
}

#[test]
fn empty_lines_are_kept() {
    assert_eq!(
        split_lines("a\n\nb\n\n"),
        vec!["a".to_string(), String::new(), "b".to_string(), String::new()]
    );
}

#[test]
fn carriage_return_before_line_feed_is_dropped() {
    assert_eq!(split_lines("a\r\nb\r\n"), vec!["a".to_string(), "b".to_string()]);
    assert_eq!(split_lines("\r\n"), vec![String::new()]);
}

#[test]
fn only_one_carriage_return_is_dropped() {
    assert_eq!(split_lines("a\r\r\nb"), vec!["a\r".to_string(), "b".to_string()]);
}

#[test]
fn a_bare_carriage_return_stays() {
    assert_eq!(split_lines("a\rb\nc\r"), vec!["a\rb".to_string(), "c\r".to_string()]);
    assert_eq!(split_lines("\r"), vec!["\r".to_string()]);
}

#[test]
fn lines_keep_their_characters() {
    assert_eq!(
        split_lines("2024-01-01 INFO  started: ünïcödé ✓\n\ttabbed  \n"),
        vec!["2024-01-01 INFO  started: ünïcödé ✓".to_string(), "\ttabbed  ".to_string()]
    );
}

#[test]
fn lines_agree_with_the_standard_library() {
    let samples = [
        "",
        "\n",
        "\r",
        "\r\n",
        "\n\n",
        "\n\r",
        "\r\r",
        "\r\n\r\n",
        "a",
        "a\n",
        "a\r",
        "a\r\n",
        "a\nb",
        "a\r\nb",
        "a\n\rb",
        "a\r\r\nb\r",
        "\na",
        "\r\na\n\n\nb\r\n\r",
        "one\ntwo\nthree",
        "one\ntwo\nthree\n",
        "é\r\n✓\n",
    ];
    for text in samples {
        assert_eq!(split_lines(text), std_lines(text), "{text:?}");
    }
}

#[test]
fn lines_agree_with_the_standard_library_on_all_short_texts() {
    let alphabet = ['a', '\n', '\r'];
    let mut texts: Vec<String> = vec![String::new()];
    for _ in 0..6 {
        let mut longer: Vec<String> = Vec::new();
        for text in &texts {
            for c in alphabet {
                let mut next = text.clone();
                next.push(c);
                longer.push(next);
            }
        }
        for text in &longer {
            assert_eq!(split_lines(text), std_lines(text), "{text:?}");
        }
        texts = longer;
    }
}
