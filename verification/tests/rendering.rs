use controller::markdown::render_markdown;

#[test]
fn render_test() {
    let input = "# This is a title line";
    let output = render_markdown(input);
    let expected_str = "<h1>This is a title line</h1>\n";
    assert_eq!(output, expected_str)
}

#[test]
fn render_transforms_emphasis() {
    let output = render_markdown("some *markdown* body");
    assert_eq!(output, "<p>some <em>markdown</em> body</p>\n");
}

#[test]
fn render_empty_input() {
    assert_eq!(render_markdown(""), "");
}
