use fsaudit::sniff::{candidate_at, candidate_index, first_highest, sniff, tally, UNDETERMINED};

#[test]
fn comma_separated_content_gives_comma() {
    assert_eq!(sniff("a,b,c\n1,2,3\n"), ',');
}

#[test]
fn semicolon_separated_content_gives_semicolon() {
    assert_eq!(sniff("a;b;c\n1;2;3\n"), ';');
    assert_eq!(sniff("x;y;z\n1;2;3\n"), ';');
}

#[test]
fn empty_content_is_undetermined() {
    assert_eq!(sniff(""), '\0');
    assert_eq!(UNDETERMINED, '\0');
}

#[test]
fn content_without_delimiters_is_undetermined() {
    assert_eq!(sniff("abcdef\n123456\n"), '\0');
}

#[test]
fn one_delimiter_does_not_beat_the_head_start() {
    assert_eq!(sniff(","), '\0');
    assert_eq!(sniff(",,"), ',');
    assert_eq!(sniff("a b"), '\0');
    assert_eq!(sniff("a b c"), ' ');
}

#[test]
fn equal_counts_go_to_the_earlier_candidate() {
    assert_eq!(sniff("a,b,c;d;e"), ',');
    assert_eq!(sniff("a;b;c,d,e"), ',');
    assert_eq!(sniff("a\tb\tc:d:e"), '\t');
    assert_eq!(sniff("a:b:c;d;e"), ':');
    assert_eq!(sniff("a;b;c|d|e"), ';');
    assert_eq!(sniff("a|b|c d e"), '|');
}

#[test]
fn the_most_frequent_candidate_wins() {
    assert_eq!(sniff("a,b;c;d;e"), ';');
    assert_eq!(sniff("a b c d|e|f"), ' ');
    assert_eq!(sniff("a|b|c|d e,f"), '|');
    assert_eq!(sniff("a\tb\tc\td,e"), '\t');
    assert_eq!(sniff("12:30:45,x"), ':');
}

#[test]
fn nul_characters_count_for_undetermined() {
    assert_eq!(sniff("\0\0,,,"), '\0');
    assert_eq!(sniff("\0\0,,,,"), ',');
}

#[test]
fn only_the_first_fifty_thousand_characters_count() {
    let mut late = "x".repeat(50_000);
    late.push_str(",,,");
    assert_eq!(sniff(&late), '\0');

    let mut straddling = "x".repeat(49_998);
    straddling.push_str(",,,");
    assert_eq!(sniff(&straddling), ',');

    let mut one_in = "x".repeat(49_999);
    one_in.push_str(",,,");
    assert_eq!(sniff(&one_in), '\0');
}

#[test]
fn the_bound_counts_characters_not_bytes() {
    let mut text = "é".repeat(49_998);
    text.push_str(";;;");
    assert_eq!(sniff(&text), ';');
}

#[test]
fn tally_counts_each_candidate() {
    assert_eq!(tally(""), vec![1, 0, 0, 0, 0, 0, 0]);
    assert_eq!(tally("a,b,\tc::: ;|| \0"), vec![2, 2, 1, 3, 1, 2, 2]);
}

#[test]
fn first_highest_prefers_the_front() {
    assert_eq!(first_highest(&vec![1, 0, 0, 0, 0, 0, 0]), 0);
    assert_eq!(first_highest(&vec![1, 1, 1, 1, 1, 1, 1]), 0);
    assert_eq!(first_highest(&vec![1, 2, 0, 2, 0, 0, 0]), 1);
    assert_eq!(first_highest(&vec![1, 2, 0, 2, 0, 0, 3]), 6);
}

#[test]
fn candidates_keep_their_order() {
    let expected = ['\0', ',', '\t', ':', ';', '|', ' '];
    for k in 0..7 {
        assert_eq!(candidate_at(k), expected[k]);
        assert_eq!(candidate_index(expected[k]), Some(k));
    }
    assert_eq!(candidate_index('x'), None);
}
