use minion::actions::markdown::{count_fence_lines, strip_wrapping_markdown_code_fences};

#[test]
fn test_strip_wrapped_code_fence() {
    let input = "```python\nprint(\"Hello World\")\n```";
    let expected = "print(\"Hello World\")\n";
    assert_eq!(strip_wrapping_markdown_code_fences(input), expected);
}

#[test]
fn test_strip_with_inner_code_fence() {
    let input = "Some text\n\n```python\nprint(\"Hello World\")\n```\n\nSome more text";
    let expected = input;
    assert_eq!(strip_wrapping_markdown_code_fences(input), expected);
}

#[test]
fn test_no_code_fence() {
    let input = "This is some text without code fences.";
    let expected = input;
    assert_eq!(strip_wrapping_markdown_code_fences(input), expected);
}

#[test]
fn test_only_start_fence() {
    let input = "```\nSome code without ending fence";
    let expected = "Some code without ending fence";
    assert_eq!(strip_wrapping_markdown_code_fences(input), expected);
}

#[test]
fn test_only_end_fence() {
    let input = "Some code without starting fence\n```";
    let expected = "Some code without starting fence\n";
    assert_eq!(strip_wrapping_markdown_code_fences(input), expected);
}

#[test]
fn test_wrapped_with_extra_spaces() {
    let input = "   ```\n   code\n```   ";
    let expected = "   code\n";
    assert_eq!(strip_wrapping_markdown_code_fences(input), expected);
}

#[test]
fn test_empty_input() {
    let input = "";
    let expected = "";
    assert_eq!(strip_wrapping_markdown_code_fences(input), expected);
}

#[test]
fn test_only_two_code_fences() {
    let input = "```\n```";
    let expected = "";
    assert_eq!(strip_wrapping_markdown_code_fences(input), expected);
}

#[test]
fn test_only_one_code_fence() {
    let input = "```";
    let expected = "";
    assert_eq!(strip_wrapping_markdown_code_fences(input), expected);
}

#[test]
fn test_proper_markdown() {
    let input = r#"
# Hello

```rust
fn foo() {}
```
"#;
    let expected = input;
    assert_eq!(strip_wrapping_markdown_code_fences(input), expected);
}

#[test]
fn test_markdown_wrapped_in_code_fences() {
    let input = r#"
```

# Hello

```rust
fn foo() {}
```

```
"#;
    let expected = r#"
# Hello

```rust
fn foo() {}
```

"#;
    assert_eq!(strip_wrapping_markdown_code_fences(input), expected);
}

#[test]
fn untrimmed_text_without_fences_keeps_its_whitespace() {
    let input = "  \n plain text \t\n";
    assert_eq!(strip_wrapping_markdown_code_fences(input), input);
}

#[test]
fn stripping_twice_on_the_same_input_gives_the_same_text() {
    let input = "```sh\necho hi\n```";
    let once = strip_wrapping_markdown_code_fences(input);
    let again = strip_wrapping_markdown_code_fences(input);
    assert_eq!(once, again);
    assert_eq!(once, "echo hi\n");
}

#[test]
fn carriage_return_before_the_first_line_feed_is_not_counted() {
    // The first line ends before "\r\n", so the cut lands on the line feed.
    let input = "```\r\ncode\r\n```";
    assert_eq!(strip_wrapping_markdown_code_fences(input), "\ncode\r\n");
}

#[test]
fn text_beyond_ascii_is_cut_at_characters() {
    let input = "```\nprintln!(\"héllo ✓\");\n```";
    assert_eq!(strip_wrapping_markdown_code_fences(input), "println!(\"héllo ✓\");\n");
}

#[test]
fn unicode_whitespace_is_trimmed_before_the_fences_are_sought() {
    let input = "\u{a0}\u{2003}```\ncode\n```\u{3000}";
    assert_eq!(strip_wrapping_markdown_code_fences(input), "code\n");
}

#[test]
fn odd_number_of_fences_drops_a_trailing_fence() {
    let input = "text\n```a\nx\n```\nmore\n```";
    assert_eq!(count_fence_lines(input), 3);
    assert_eq!(strip_wrapping_markdown_code_fences(input), "text\n```a\nx\n```\nmore\n");
}

#[test]
fn fence_lines_are_counted_at_line_starts_only() {
    assert_eq!(count_fence_lines(""), 0);
    assert_eq!(count_fence_lines("a ``` b"), 0);
    assert_eq!(count_fence_lines("```"), 1);
    assert_eq!(count_fence_lines("``\n```rust\n ```\n````"), 2);
}

#[test]
fn fence_count_agrees_with_the_line_pattern() {
    let pattern = regex::Regex::new(r"(?m)^```.*$").unwrap();
    let samples = [
        "",
        "```",
        "```\n```",
        "a\n```\nb\n```\n",
        "``\n```\r\n```` x\n\n```",
        " ```\n\t```\n```",
        "```\u{e9}\n`\u{2003}``\n```",
        "x```\n``` ```\n",
    ];
    for sample in samples {
        assert_eq!(count_fence_lines(sample), pattern.find_iter(sample).count(), "{:?}", sample);
    }
}
