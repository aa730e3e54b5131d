use stream_recorder::template::{
    assemble_rendered, is_standalone_block, template_lines, template_message,
};

fn lines(v: &[&str]) -> Vec<String> {
    v.iter().map(|s| s.to_string()).collect()
}

#[test]
fn template_lines_follow_str_lines() {
    assert_eq!(template_lines("a\r\nb\n\nc\n"), lines(&["a", "b", "", "c"]));
    assert!(template_lines("").is_empty());
    assert_eq!(template_lines("line1\n   \n{{title}}"), lines(&["line1", "   ", "{{title}}"]));
}

#[test]
fn standalone_blocks_open_and_close_on_one_line() {
    assert!(is_standalone_block("  {{#if urls}}[CENTER]x[/CENTER]{{/if}} "));
    assert!(is_standalone_block("{{#each a}}{{this}}{{/each}}"));
    assert!(!is_standalone_block("{{#if cond}}"));
    assert!(!is_standalone_block("text {{#if a}}x{{/if}}"));
}

#[test]
fn empty_block_lines_are_dropped_other_lines_kept() {
    let template = lines(&[
        "[HR][/HR]",
        "{{#if bunkr_urls}}[CENTER]bunkr[/CENTER]{{/if}}",
        "{{#if fileditch_urls}}[CENTER]fileditch[/CENTER]{{/if}}",
        "{{maybe}}",
    ]);
    let rendered = lines(&["[HR][/HR]", "  ", "[CENTER]fileditch[/CENTER]", ""]);
    assert_eq!(
        assemble_rendered(&template, &rendered),
        "[HR][/HR]\n[CENTER]fileditch[/CENTER]\n"
    );
}

#[test]
fn template_message_is_a_code_block() {
    assert_eq!(template_message("hi"), "```\nhi\n```");
}
