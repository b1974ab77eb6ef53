use slash_command::{
    CompletionAction, IconName, PromptId, PromptMetadata, PromptSlashCommand, RunAction,
    SlashCommand, SlashCommandError, SlashCommandOutput,
};

fn finish_ok(action: RunAction) -> SlashCommandOutput {
    match action {
        RunAction::Finish(Ok(output)) => output,
        other => panic!("expected output, got {:?}", other),
    }
}

fn finish_err(action: RunAction) -> SlashCommandError {
    match action {
        RunAction::Finish(Err(error)) => error,
        other => panic!("expected an error, got {:?}", other),
    }
}

fn loaded(body: &str) -> SlashCommandOutput {
    finish_ok(PromptSlashCommand.on_body_loaded("Title".to_string(), Ok(body.to_string())))
}

fn metadata(id: u128, title: Option<&str>) -> PromptMetadata {
    PromptMetadata { id: PromptId(id), title: title.map(|t| t.to_string()) }
}

#[test]
fn identity_of_prompt_command() {
    let command = PromptSlashCommand;
    assert_eq!(command.name(), "prompt");
    assert_eq!(command.description(), "insert prompt from library");
    assert_eq!(command.menu_text(), "Insert Prompt from Library");
    assert!(command.requires_argument());
    let label = command.label();
    assert_eq!(label.text, "prompt");
    assert_eq!(label.filter_range, 0..6);
}

#[test]
fn empty_body_becomes_single_newline() {
    let output = loaded("");
    assert_eq!(output.text, "\n");
    assert_eq!(output.sections.len(), 1);
    assert_eq!(output.sections[0].range, 0..1);
    assert!(output.has_valid_sections());
}

#[test]
fn body_starting_with_trigger_gets_newline_in_front() {
    let output = loaded("/file main.rs");
    assert_eq!(output.text, "\n/file main.rs");
    assert_eq!(output.sections[0].range, 0..14);
    assert!(output.has_valid_sections());
}

#[test]
fn plain_body_is_kept() {
    let output = loaded("Be brief.");
    assert_eq!(output.text, "Be brief.");
    assert_eq!(output.sections.len(), 1);
    assert_eq!(output.sections[0].range, 0..9);
    assert_eq!(output.sections[0].icon, IconName::Library);
    assert_eq!(output.sections[0].label, "Title");
    assert!(output.run_commands_in_text);
}

#[test]
fn trigger_later_in_body_is_kept() {
    let output = loaded("a /b");
    assert_eq!(output.text, "a /b");
    assert_eq!(output.sections[0].range, 0..4);
}

#[test]
fn section_range_counts_bytes() {
    let output = loaded("héllo");
    assert_eq!(output.text, "héllo");
    assert_eq!(output.sections[0].range, 0..6);
    assert!(output.has_valid_sections());
}

#[test]
fn section_outside_text_is_invalid() {
    let mut output = loaded("abc");
    output.sections[0].range = 1..4;
    assert!(!output.has_valid_sections());
    output.sections[0].range = 2..1;
    assert!(!output.has_valid_sections());
    output.sections.clear();
    assert!(output.has_valid_sections());
}

#[test]
fn run_without_argument_is_refused_before_any_lookup() {
    let action = PromptSlashCommand.begin_run(&vec![]);
    let error = finish_err(action);
    assert!(matches!(error, SlashCommandError::MissingArgument { .. }));
    assert_eq!(error.message(), "missing prompt name");
}

#[test]
fn run_looks_up_first_argument() {
    let arguments = vec!["Review".to_string(), "extra".to_string()];
    match PromptSlashCommand.begin_run(&arguments) {
        RunAction::LookUpId { title } => assert_eq!(title, "Review"),
        other => panic!("expected a lookup, got {:?}", other),
    }
}

#[test]
fn unknown_title_names_the_key() {
    let action = PromptSlashCommand.on_id_resolved("Foo".to_string(), None);
    let error = finish_err(action);
    let message = error.message();
    assert!(message.contains("Foo"));
    assert_eq!(message, "no prompt found with title \"Foo\"");
}

#[test]
fn known_title_loads_its_body() {
    match PromptSlashCommand.on_id_resolved("Foo".to_string(), Some(PromptId(7))) {
        RunAction::LoadBody { id, title } => {
            assert_eq!(id, PromptId(7));
            assert_eq!(title, "Foo");
        }
        other => panic!("expected a load, got {:?}", other),
    }
}

#[test]
fn store_failure_is_passed_on_with_context() {
    let action = PromptSlashCommand.on_body_loaded("Foo".to_string(), Err("disk full".to_string()));
    let error = finish_err(action);
    assert_eq!(error.message(), "loading prompt: disk full");
}

#[test]
fn completion_keeps_titled_prompts_only() {
    let results = vec![metadata(1, Some("A")), metadata(2, None), metadata(3, Some("B"))];
    let completions = PromptSlashCommand.on_search_results(&results, false);
    assert_eq!(completions.len(), 2);
    assert_eq!(completions[0].new_text, "A");
    assert_eq!(completions[0].label.text, "A");
    assert!(completions[0].run_command);
    assert_eq!(completions[1].new_text, "B");
    assert_eq!(completions[1].label.text, "B");
    assert!(completions[1].run_command);
}

#[test]
fn completion_of_no_results_is_empty() {
    assert!(PromptSlashCommand.on_search_results(&vec![], false).is_empty());
    let untitled = vec![metadata(1, None)];
    assert!(PromptSlashCommand.on_search_results(&untitled, false).is_empty());
}

#[test]
fn cancelled_completion_stops_early() {
    let arguments = vec!["Re".to_string()];
    match PromptSlashCommand.begin_completion(&arguments, true) {
        CompletionAction::Finish(completions) => assert!(completions.is_empty()),
        other => panic!("expected no search, got {:?}", other),
    }
    let results = vec![metadata(1, Some("Review"))];
    assert!(PromptSlashCommand.on_search_results(&results, true).is_empty());
}

#[test]
fn completion_searches_for_last_argument() {
    let arguments = vec!["first".to_string(), "Re".to_string()];
    match PromptSlashCommand.begin_completion(&arguments, false) {
        CompletionAction::Search { query } => assert_eq!(query, "Re"),
        other => panic!("expected a search, got {:?}", other),
    }
    match PromptSlashCommand.begin_completion(&vec![], false) {
        CompletionAction::Search { query } => assert_eq!(query, ""),
        other => panic!("expected a search, got {:?}", other),
    }
}
