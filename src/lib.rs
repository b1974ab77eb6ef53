//! Named slash commands for a text-insertion assistant: the command contract,
//! a registry that dispatches by name, and the output model whose sections
//! annotate byte ranges of the generated text.

mod command;
mod output;
mod prompt_command;
mod registry;

pub use command::{
    lemma_not_found_message_names_key, ArgumentCompletion, CodeLabel, SlashCommand,
    SlashCommandError,
};
pub use output::{byte_len, IconName, SlashCommandOutput, SlashCommandOutputSection};
pub use prompt_command::{
    inserted_text, suggests, titles_of, CompletionAction, PromptId, PromptMetadata,
    PromptSlashCommand, RunAction, TRIGGER,
};
pub use registry::{
    has_name, init, lemma_register_then_get, lemma_reregister_keeps_length, lookup, names_unique,
    position, registered, SlashCommandRegistry,
};
