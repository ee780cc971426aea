use chat_bar::text::{
    chars_of, is_blank, split_into_chunks, split_lines, split_str, split_strings_in_vec,
};

fn strings(v: &[&str]) -> Vec<String> {
    v.iter().map(|s| s.to_string()).collect()
}

#[test]
fn lines_follow_std_rules() {
    assert_eq!(split_lines("a\nb\r\nc"), strings(&["a", "b", "c"]));
    assert_eq!(split_lines("a\n"), strings(&["a"]));
    assert_eq!(split_lines("\n"), strings(&[""]));
    assert!(split_lines("").is_empty());
    assert_eq!(split_lines("a\r"), strings(&["a\r"]));
    let text = "one\r\ntwo\n\nthree\r\n";
    let ours = split_lines(text);
    let std_lines: Vec<String> = text.lines().map(|l| l.to_string()).collect();
    assert_eq!(ours, std_lines);
}

#[test]
fn split_keeps_empty_pieces() {
    assert_eq!(split_str("a,,b", ','), strings(&["a", "", "b"]));
    assert_eq!(split_str("", ','), strings(&[""]));
    assert_eq!(split_str(",", ','), strings(&["", ""]));
}

#[test]
fn split_strings_in_vec_splits_each() {
    let r = split_strings_in_vec(strings(&["a\nb", "c", ""]), '\n');
    assert_eq!(r, vec![strings(&["a", "b"]), strings(&["c"]), strings(&[""])]);
}

#[test]
fn split_into_chunks_groups_in_order() {
    let r = split_into_chunks(strings(&["a", "b", "c", "d", "e"]), 2);
    assert_eq!(r, vec![strings(&["a", "b"]), strings(&["c", "d"]), strings(&["e"])]);
    assert!(split_into_chunks(Vec::new(), 3).is_empty());
    let r = split_into_chunks(strings(&["a", "b"]), 5);
    assert_eq!(r, vec![strings(&["a", "b"])]);
}

#[test]
fn blank_means_white_space_only() {
    assert!(is_blank(""));
    assert!(is_blank(" \t\n\u{a0}\u{3000}"));
    assert!(!is_blank(" a "));
    assert!(!is_blank("x"));
}

#[test]
fn chars_of_keeps_order() {
    assert_eq!(chars_of("hé!"), vec!['h', 'é', '!']);
}
