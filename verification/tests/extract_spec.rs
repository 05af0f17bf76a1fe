use katex::extract::{extract_braced_block, BlockError};

#[test]
fn extracts_a_nested_block() {
    let text = "export default { a: 1, b: { c: 2 } } trailing";
    let block = extract_braced_block(text, 0).expect("block is closed");
    assert_eq!(block, "{ a: 1, b: { c: 2 } }");
}

#[test]
fn braces_inside_string_literals_are_stepped_over() {
    let text = "{ a: '}', b: \"{\" }";
    let block = extract_braced_block(text, 0).expect("block is closed");
    assert_eq!(block, text);
}

#[test]
fn escaped_quotes_do_not_end_the_literal() {
    let text = "{ s: \"a\\\"}\" } rest";
    let block = extract_braced_block(text, 0).expect("block is closed");
    assert_eq!(block, "{ s: \"a\\\"}\" }");
}

#[test]
fn scanning_starts_at_the_given_position() {
    let text = "{skip} {take}";
    let block = extract_braced_block(text, 6).expect("block is closed");
    assert_eq!(block, "{take}");
}

#[test]
fn stray_closing_brace_is_rejected() {
    assert_eq!(extract_braced_block("} {x}", 0), Err(BlockError::UnmatchedClosingBrace));
}

#[test]
fn unterminated_block_is_rejected() {
    assert_eq!(extract_braced_block("{ abc", 0), Err(BlockError::Unterminated));
    assert_eq!(extract_braced_block("no braces at all", 0), Err(BlockError::Unterminated));
}
