use tantivy_search::stream::IcuTokenStream;

#[test]
fn stream_reproduces_segments_with_exact_offsets() {
    let source = b"brown fox jumps".to_vec();
    let segments = vec![(0usize, 5usize), (6, 9), (10, 15)];
    let mut stream = IcuTokenStream::new(source.clone(), segments);

    let expected = [(0usize, 5usize, b"brown".to_vec()), (6, 9, b"fox".to_vec()), (
        10,
        15,
        b"jumps".to_vec(),
    )];
    for (position, (from, to, text)) in expected.iter().enumerate() {
        assert!(stream.advance());
        let token = stream.token();
        assert_eq!(token.offset_from, *from);
        assert_eq!(token.offset_to, *to);
        assert_eq!(token.position, position);
        assert_eq!(token.position_length, 1);
        assert_eq!(&token.text, text);
        assert_eq!(&source[token.offset_from..token.offset_to], &token.text[..]);
    }
    assert!(!stream.advance());
    assert!(!stream.advance());
}

#[test]
fn empty_stream_is_terminal_at_once() {
    let mut stream = IcuTokenStream::new(b"anything".to_vec(), Vec::new());
    assert!(!stream.advance());
}

#[test]
fn token_mut_allows_rewriting_the_current_token() {
    let mut stream = IcuTokenStream::new(b"ab cd".to_vec(), vec![(0usize, 2usize), (3, 5)]);
    assert!(stream.advance());
    stream.token_mut().text = b"rewritten".to_vec();
    assert_eq!(stream.token().text, b"rewritten".to_vec());
    assert!(stream.advance());
    assert_eq!(stream.token().text, b"cd".to_vec());
}
