use crate::output::byte_len;
use vstd::prelude::*;
use vstd::string::*;

verus! {

/// A display label: its text, and the byte range of it that filtering matches.
#[derive(Debug)]
pub struct CodeLabel {
    pub text: String,
    pub filter_range: core::ops::Range<usize>,
}

impl CodeLabel {
    /// A label that shows `text` as it is, all of it matched by filtering.
    pub fn plain(text: String) -> (r: CodeLabel)
        ensures
            r.text@ == text@,
            r.filter_range.start == 0,
            r.filter_range.end == byte_len(text@),
    {
        let len = text.as_str().len();
        CodeLabel { text, filter_range: 0..len }
    }
}

/// One suggestion for the argument being typed.
#[derive(Debug)]
pub struct ArgumentCompletion {
    /// The label to display for this completion.
    pub label: CodeLabel,
    /// The text that replaces the argument when this completion is accepted.
    pub new_text: String,
    /// Whether accepting this completion runs the command at once.
    pub run_command: bool,
}

/// Why a command could not produce its output.
#[derive(Debug)]
pub enum SlashCommandError {
    /// A required argument was not given; `requirement` names it.
    MissingArgument { requirement: String },
    /// No resource of kind `what` has the title `key`.
    NotFound { what: String, key: String },
    /// The backing store failed while doing `context`.
    Store { context: String, message: String },
}

impl SlashCommandError {
    /// The message shown to the user.
    pub open spec fn spec_message(&self) -> Seq<char> {
        match self {
            SlashCommandError::MissingArgument { requirement } => "missing "@ + requirement@,
            SlashCommandError::NotFound { what, key } => "no "@ + what@ + " found with title \""@
                + key@ + "\""@,
            SlashCommandError::Store { context, message } => context@ + ": "@ + message@,
        }
    }

    /// The message shown to the user.
    pub fn message(&self) -> (r: String)
        ensures
            r@ == self.spec_message(),
    {
        match self {
            SlashCommandError::MissingArgument { requirement } => {
                let mut m = String::from_str("missing ");
                m.append(requirement.as_str());
                m
            },
            SlashCommandError::NotFound { what, key } => {
                let mut m = String::from_str("no ");
                m.append(what.as_str());
                m.append(" found with title \"");
                m.append(key.as_str());
                m.append("\"");
                m
            },
            SlashCommandError::Store { context, message } => {
                let mut m = String::from_str(context.as_str());
                m.append(": ");
                m.append(message.as_str());
                m
            },
        }
    }
}

/// The message of a failed lookup holds the key that was looked up.
pub proof fn lemma_not_found_message_names_key(what: String, key: String)
    ensures
        ({
            let msg = (SlashCommandError::NotFound { what, key }).spec_message();
            exists|i: int|
                0 <= i && i + key@.len() <= msg.len() && #[trigger] msg.subrange(i, i + key@.len())
                    == key@
        }),
{
    let msg = (SlashCommandError::NotFound { what, key }).spec_message();
    let head = "no "@ + what@ + " found with title \""@;
    assert(msg == head + key@ + "\""@);
    assert(msg.subrange(head.len() as int, head.len() + key@.len() as int) =~= key@);
}

/// A named command that can complete its argument and run.
pub trait SlashCommand {
    /// The name by which the command is invoked and registered.
    spec fn spec_name(&self) -> Seq<char>;

    /// A short description of what the command does.
    spec fn spec_description(&self) -> Seq<char>;

    /// The text of the command's menu entry.
    spec fn spec_menu_text(&self) -> Seq<char>;

    /// Whether the command refuses to run without an argument.
    spec fn spec_requires_argument(&self) -> bool;

    fn name(&self) -> (r: String)
        ensures
            r@ == self.spec_name(),
    ;

    /// The label shown for the command: its name, plainly.
    fn label(&self) -> (r: CodeLabel)
        ensures
            r.text@ == self.spec_name(),
    {
        CodeLabel::plain(self.name())
    }

    fn description(&self) -> (r: String)
        ensures
            r@ == self.spec_description(),
    ;

    fn menu_text(&self) -> (r: String)
        ensures
            r@ == self.spec_menu_text(),
    ;

    fn requires_argument(&self) -> (r: bool)
        ensures
            r == self.spec_requires_argument(),
    ;
}

} // verus!
