use spark_shortcuts::buffer::{KeystrokeBuffer, BACKSPACE_CHAR, BUFFER_SIZE};
use spark_shortcuts::matcher::trailing_token;

#[test]
fn buffer_starts_empty() {
    let b = KeystrokeBuffer::new();
    assert_eq!(b.len(), 0);
}

#[test]
fn buffer_never_exceeds_bound() {
    let mut b = KeystrokeBuffer::new();
    for i in 0..250usize {
        b.insert((b'a' + (i % 26) as u8) as char);
        assert!(b.len() <= BUFFER_SIZE);
    }
    assert_eq!(b.len(), BUFFER_SIZE);
}

#[test]
fn buffer_trims_oldest_first() {
    let mut b = KeystrokeBuffer::new();
    for _ in 0..BUFFER_SIZE {
        b.insert('x');
    }
    b.insert('y');
    assert_eq!(b.len(), BUFFER_SIZE);
    let contents = b.contents();
    assert_eq!(*contents.last().unwrap(), 'y');
    assert!(contents.iter().take(BUFFER_SIZE - 1).all(|c| *c == 'x'));
}

#[test]
fn backspace_on_empty_is_noop() {
    let mut b = KeystrokeBuffer::new();
    b.backspace();
    assert_eq!(b.len(), 0);
    b.insert('a');
    b.backspace();
    b.backspace();
    assert_eq!(b.len(), 0);
}

#[test]
fn backspace_removes_most_recent() {
    let mut b = KeystrokeBuffer::new();
    b.insert('a');
    b.insert('b');
    b.backspace();
    assert_eq!(b.contents().as_slice(), &['a']);
}

#[test]
fn backspace_char_is_recognized() {
    assert_eq!(BACKSPACE_CHAR, '\u{8}');
}

fn chars(s: &str) -> Vec<char> {
    s.chars().collect()
}

#[test]
fn trailing_token_on_simple_tail() {
    assert_eq!(trailing_token(&chars("hello /green")), Some("/green".to_string()));
}

#[test]
fn trailing_token_takes_most_recent_slash() {
    assert_eq!(trailing_token(&chars("a/b /cd")), Some("/cd".to_string()));
}

#[test]
fn trailing_token_allows_punctuation_class() {
    assert_eq!(trailing_token(&chars("x /a_b-c.9")), Some("/a_b-c.9".to_string()));
}

#[test]
fn trailing_token_requires_tail_anchor() {
    assert_eq!(trailing_token(&chars("/green ")), None);
}

#[test]
fn trailing_token_requires_nonempty_name() {
    assert_eq!(trailing_token(&chars("abc/")), None);
    assert_eq!(trailing_token(&chars("")), None);
    assert_eq!(trailing_token(&chars("plain")), None);
}

#[test]
fn trailing_token_whole_buffer() {
    assert_eq!(trailing_token(&chars("/x")), Some("/x".to_string()));
}

#[test]
fn full_buffer_still_matches_tail_token() {
    let mut window = vec!['x'; BUFFER_SIZE - 6];
    window.extend("/green".chars());
    assert_eq!(window.len(), BUFFER_SIZE);
    assert_eq!(trailing_token(&window), Some("/green".to_string()));
}
