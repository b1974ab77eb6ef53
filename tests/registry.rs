use slash_command::{PromptSlashCommand, SlashCommand, SlashCommandRegistry};

#[test]
fn registered_command_is_found_by_name() {
    let mut registry = SlashCommandRegistry::new();
    registry.register(PromptSlashCommand);
    let command = registry.get("prompt").expect("registered");
    assert_eq!(command.name(), "prompt");
    assert!(registry.get("unknown").is_none());
    assert!(registry.get("promp").is_none());
}

#[test]
fn empty_registry_finds_nothing() {
    let registry: SlashCommandRegistry<PromptSlashCommand> = SlashCommandRegistry::new();
    assert!(registry.get("prompt").is_none());
    assert!(registry.list().is_empty());
}

#[test]
fn reregistering_replaces_without_growing() {
    let mut registry = SlashCommandRegistry::new();
    registry.register(PromptSlashCommand);
    assert_eq!(registry.list().len(), 1);
    registry.register(PromptSlashCommand);
    assert_eq!(registry.list().len(), 1);
    assert_eq!(registry.list()[0].name(), "prompt");
}

#[test]
fn init_gives_empty_registry() {
    let mut registry = slash_command::init::<PromptSlashCommand>();
    assert!(registry.list().is_empty());
    registry.register(PromptSlashCommand);
    assert_eq!(registry.list().len(), 1);
    assert!(registry.get("prompt").is_some());
}
