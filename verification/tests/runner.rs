use aichat_nvim::config::AichatConfig;
use aichat_nvim::error::AichatError;
use aichat_nvim::job_runner::{
    build_aichat_args, compose_prompt, extract_first_code_block, join_lines,
    process_command_output, split_for_splice,
};

#[test]
fn extract_takes_first_fenced_block() {
    let out = "pre\n```rust\nfn main(){}\n```\npost";
    assert_eq!(extract_first_code_block(out), Some("fn main(){}\n".to_string()));
}

#[test]
fn extract_without_backticks_finds_nothing() {
    assert_eq!(extract_first_code_block("plain prose only"), None);
    assert_eq!(extract_first_code_block(""), None);
}

#[test]
fn extract_unterminated_block_keeps_content() {
    assert_eq!(extract_first_code_block("```py\nprint(1)"), Some("print(1)\n".to_string()));
}

#[test]
fn extract_unterminated_empty_block_finds_nothing() {
    assert_eq!(extract_first_code_block("text\n```rust"), None);
}

#[test]
fn extract_closed_empty_block_is_empty() {
    assert_eq!(extract_first_code_block("```\n```"), Some(String::new()));
}

#[test]
fn extract_keeps_blank_lines_and_stops_at_close() {
    let out = "```\na\n\nb\n```\n```\nsecond\n```";
    assert_eq!(extract_first_code_block(out), Some("a\n\nb\n".to_string()));
}

#[test]
fn extract_accepts_indented_fences_and_crlf() {
    let out = "intro\r\n  ```rs\r\nlet x = 1;\r\n  ```\r\n";
    assert_eq!(extract_first_code_block(out), Some("let x = 1;\n".to_string()));
}

#[test]
fn args_for_mode_and_session_only() {
    let config = AichatConfig {
        mode_flag: Some(aichat_nvim::config::Mode::Role),
        mode_arg: Some("coder".to_string()),
        rag: None,
        session: Some("s1".to_string()),
    };
    assert_eq!(build_aichat_args(&config), vec![
        "--role".to_string(),
        "coder".to_string(),
        "--session".to_string(),
        "s1".to_string(),
    ]);
}

#[test]
fn args_in_full_order() {
    let config = AichatConfig {
        mode_flag: Some(aichat_nvim::config::Mode::Macro),
        mode_arg: Some("m1".to_string()),
        rag: Some("docs".to_string()),
        session: Some("s1".to_string()),
    };
    assert_eq!(build_aichat_args(&config), vec![
        "--macro".to_string(),
        "m1".to_string(),
        "--rag".to_string(),
        "docs".to_string(),
        "--session".to_string(),
        "s1".to_string(),
    ]);
}

#[test]
fn args_empty_without_any_setting() {
    let config = AichatConfig::default();
    assert!(build_aichat_args(&config).is_empty());
}

#[test]
fn args_agent_flag() {
    let config = AichatConfig {
        mode_flag: Some(aichat_nvim::config::Mode::Agent),
        mode_arg: Some("a1".to_string()),
        rag: None,
        session: None,
    };
    assert_eq!(build_aichat_args(&config), vec!["--agent".to_string(), "a1".to_string()]);
}

#[test]
fn nonzero_exit_carries_stderr_and_discards_stdout() {
    let r = process_command_output(
        false,
        Some(1),
        "```\nignored\n```".to_string(),
        "boom".to_string(),
    );
    assert_eq!(
        r,
        Err(AichatError::CommandFailed { status_code: Some(1), stderr: "boom".to_string() })
    );
}

#[test]
fn successful_run_yields_extracted_block() {
    let r = process_command_output(
        true,
        Some(0),
        "noise\n```sh\necho hi\n```\n".to_string(),
        String::new(),
    );
    assert_eq!(r, Ok("echo hi\n".to_string()));
}

#[test]
fn successful_run_without_block_is_an_error() {
    let r = process_command_output(true, Some(0), "no fences here".to_string(), String::new());
    assert_eq!(r, Err(AichatError::NoCodeBlock));
}

#[test]
fn command_failed_message_includes_status_and_stderr() {
    let e = AichatError::command_failed(Some(1), "boom".to_string());
    assert_eq!(e.message(), "Aichat command failed with exit status: 1. stderr: boom");
}

#[test]
fn command_failed_message_renders_codes() {
    let e = AichatError::command_failed(Some(-37), "x".to_string());
    assert_eq!(e.message(), "Aichat command failed with exit status: -37. stderr: x");
    let e = AichatError::command_failed(Some(0), String::new());
    assert_eq!(e.message(), "Aichat command failed with exit status: 0. stderr: ");
    let e = AichatError::command_failed(None, "killed".to_string());
    assert_eq!(
        e.message(),
        "Aichat command failed with exit status: terminated by signal. stderr: killed"
    );
}

#[test]
fn error_messages_name_their_variant() {
    assert_eq!(AichatError::NoCodeBlock.message(), "No code block found in aichat output");
    assert_eq!(
        AichatError::NoLines.message(),
        "No lines found in the current buffer selection"
    );
    assert_eq!(AichatError::config("bad").message(), "Configuration error: bad");
    assert_eq!(
        AichatError::invalid_option_type("widgets").message(),
        "Invalid option type: widgets"
    );
    assert_eq!(AichatError::missing_value("a mode").message(), "Missing required value: a mode");
    assert_eq!(AichatError::application("oops").message(), "Application error: oops");
    assert_eq!(
        AichatError::string_conversion("bad bytes").message(),
        "String conversion error: bad bytes"
    );
}

#[test]
fn boundary_error_messages_name_their_variant() {
    assert_eq!(
        AichatError::NvimApi("bad call".to_string()).message(),
        "Neovim API error: bad call"
    );
    assert_eq!(
        AichatError::SpawnFailed("not found".to_string()).message(),
        "Failed to spawn aichat command: not found"
    );
    assert_eq!(
        AichatError::StdinWriteFailed("broken pipe".to_string()).message(),
        "Failed to write to aichat stdin: broken pipe"
    );
    assert_eq!(
        AichatError::Utf8Conversion("bad byte".to_string()).message(),
        "UTF-8 conversion error: bad byte"
    );
}

#[test]
fn join_lines_with_single_newlines() {
    assert_eq!(join_lines(&Vec::new()), "");
    assert_eq!(join_lines(&vec!["a".to_string()]), "a");
    assert_eq!(join_lines(&vec!["a".to_string(), "".to_string(), "b".to_string()]), "a\n\nb");
}

#[test]
fn prompt_wraps_selection_in_fence() {
    assert_eq!(
        compose_prompt("fix this", "rs", "let x;"),
        "fix this\n```rs\nlet x;```"
    );
}

#[test]
fn prompt_without_selection_has_no_fence() {
    assert_eq!(compose_prompt("explain", "rs", ""), "explain\n");
}

#[test]
fn splice_splits_on_newlines_without_trailing_empty() {
    assert_eq!(split_for_splice(""), Vec::<String>::new());
    assert_eq!(split_for_splice("a\nb\n"), vec!["a".to_string(), "b".to_string()]);
    assert_eq!(
        split_for_splice("a\n\nb"),
        vec!["a".to_string(), "".to_string(), "b".to_string()]
    );
}
