use ownership_basics::demo::{demonstration, program_text, render};

#[test]
fn lines_in_order() {
    let lines = demonstration();
    assert_eq!(
        lines,
        vec![
            "Hello, world!".to_string(),
            "Printing s1 is impossible, because it's out of scope.".to_string(),
            "Printing s3 = \", world, but different!\" is fine, because it's taken ownership of s1."
                .to_string(),
            "Hello and Hello".to_string(),
        ]
    );
}

#[test]
fn output_text_exact() {
    assert_eq!(
        program_text(),
        "Hello, world!\n\
         Printing s1 is impossible, because it's out of scope.\n\
         Printing s3 = \", world, but different!\" is fine, because it's taken ownership of s1.\n\
         Hello and Hello\n"
    );
}

#[test]
fn output_repeats_across_runs() {
    assert_eq!(program_text(), program_text());
}

#[test]
fn render_empty() {
    assert_eq!(render(&Vec::new()), "");
}

#[test]
fn render_terminates_each_line() {
    let lines = vec!["a".to_string(), String::new(), "bc".to_string()];
    assert_eq!(render(&lines), "a\n\nbc\n");
}
