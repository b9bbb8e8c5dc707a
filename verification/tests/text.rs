use canary_watcher::text::{contains, split_ranges, to_chars};

fn chars(s: &str) -> Vec<char> {
    s.chars().collect()
}

fn pieces(text: &str, sep: char) -> Vec<String> {
    let text = chars(text);
    split_ranges(&text, 0, text.len(), sep)
        .into_iter()
        .map(|(from, to)| text[from..to].iter().collect())
        .collect()
}

#[test]
fn characters_come_in_order() {
    assert_eq!(to_chars("a-é\t"), vec!['a', '-', 'é', '\t']);
    assert_eq!(to_chars(""), Vec::<char>::new());
}

#[test]
fn pattern_is_found_at_every_place() {
    assert!(contains(&chars("luks-abc"), &chars("luks-")));
    assert!(contains(&chars("abc-luks-"), &chars("luks-")));
    assert!(contains(&chars("a-luks-b"), &chars("luks-")));
    assert!(contains(&chars("luks-"), &chars("luks-")));
    assert!(contains(&chars("lluks-"), &chars("luks-")));
}

#[test]
fn pattern_is_missed_where_it_is_not() {
    assert!(!contains(&chars("luks"), &chars("luks-")));
    assert!(!contains(&chars("luk-s"), &chars("luks-")));
    assert!(!contains(&chars(""), &chars("luks-")));
    assert!(!contains(&chars("uks-l"), &chars("luks-")));
}

#[test]
fn empty_pattern_is_in_every_text() {
    assert!(contains(&chars(""), &chars("")));
    assert!(contains(&chars("abc"), &chars("")));
}

#[test]
fn text_is_cut_at_each_separator() {
    assert_eq!(pieces("a\tb", '\t'), vec!["a", "b"]);
    assert_eq!(pieces("a\tb\tc", '\t'), vec!["a", "b", "c"]);
    assert_eq!(pieces("abc", '\t'), vec!["abc"]);
}

#[test]
fn separators_at_the_ends_leave_empty_pieces() {
    assert_eq!(pieces("", '\n'), vec![""]);
    assert_eq!(pieces("\n", '\n'), vec!["", ""]);
    assert_eq!(pieces("a\n", '\n'), vec!["a", ""]);
    assert_eq!(pieces("\na", '\n'), vec!["", "a"]);
    assert_eq!(pieces("a\n\nb", '\n'), vec!["a", "", "b"]);
}

#[test]
fn part_of_a_text_is_cut_by_its_own_indices() {
    let text = chars("x\ty\nab\tcd\nz");
    assert_eq!(split_ranges(&text, 4, 9, '\t'), vec![(4, 6), (7, 9)]);
    assert_eq!(split_ranges(&text, 4, 4, '\t'), vec![(4, 4)]);
    assert_eq!(split_ranges(&text, 0, text.len(), '\n'), vec![(0, 3), (4, 9), (10, 11)]);
}

#[test]
fn cutting_agrees_with_the_standard_split() {
    for text in ["", "a", "\t", "a\tb", "\ta\t\tb\t", "no tab here", "é\tü"] {
        let expected: Vec<String> = text.split('\t').map(|piece| piece.to_string()).collect();
        assert_eq!(pieces(text, '\t'), expected);
    }
}
