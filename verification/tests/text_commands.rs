use catbash::text::{catbash_command, post_process_command, too_many_files_text, trim_end_text};

#[test]
fn catbash_command_pipes_the_file_into_the_interpreter() {
    assert_eq!(catbash_command("run.sh"), "cat \"run.sh\" | bash");
    assert_eq!(catbash_command(""), "cat \"\" | bash");
    assert_eq!(
        catbash_command("dir with space/run.sh"),
        "cat \"dir with space/run.sh\" | bash"
    );
}

#[test]
fn trim_end_removes_trailing_whitespace_only() {
    assert_eq!(trim_end_text("hi\n"), "hi");
    assert_eq!(trim_end_text("hi \t\r\n"), "hi");
    assert_eq!(trim_end_text("  hi"), "  hi");
    assert_eq!(trim_end_text("a b"), "a b");
    assert_eq!(trim_end_text(""), "");
    assert_eq!(trim_end_text(" \n\t"), "");
    assert_eq!(trim_end_text("line1\nline2\n\n"), "line1\nline2");
    assert_eq!(trim_end_text("hi\u{a0}\u{2028}\u{3000}"), "hi");
    assert_eq!(trim_end_text("hi\n"), "hi\n".trim_end());
}

#[test]
fn post_process_echoes_the_trimmed_capture_before_the_expression() {
    assert_eq!(
        post_process_command("hi\n", "| grep hi"),
        "echo \"hi\" | grep hi"
    );
    assert_eq!(
        post_process_command("line1\nhi there\n", "| grep hi"),
        "echo \"line1\nhi there\" | grep hi"
    );
    assert_eq!(post_process_command("", ""), "echo \"\" ");
}

#[test]
fn too_many_files_message_names_every_file() {
    assert_eq!(
        too_many_files_text(&vec!["file1".to_string(), "file2".to_string()]),
        "Too many files for default behavior: [\"file1\", \"file2\"]. \
         Please use flags or provide only one file."
    );
    assert_eq!(
        too_many_files_text(&vec!["a".to_string(), "b".to_string(), "c".to_string()]),
        "Too many files for default behavior: [\"a\", \"b\", \"c\"]. \
         Please use flags or provide only one file."
    );
}
