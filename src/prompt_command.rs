use crate::command::{ArgumentCompletion, CodeLabel, SlashCommand, SlashCommandError};
use crate::output::{byte_len, IconName, SlashCommandOutput, SlashCommandOutputSection};
use vstd::prelude::*;
use vstd::string::*;
use vstd::utf8::{encode_scalar, encode_utf8};

verus! {

/// The command that inserts a prompt from the prompt library.
///
/// Running it and completing its argument both consult the prompt store,
/// which the caller owns. Each step below takes what the store answered and
/// says what to do next, so the caller only performs the store calls: the
/// lookups and loads in the background, and the last step, which builds the
/// output, in the foreground.
#[derive(Clone, Copy, Debug)]
pub struct PromptSlashCommand;

/// Identifies a prompt in the store.
#[derive(Clone, Copy, Debug, PartialEq, Eq, Structural)]
pub struct PromptId(pub u128);

/// What a store search reports of one prompt.
#[derive(Debug)]
pub struct PromptMetadata {
    pub id: PromptId,
    pub title: Option<String>,
}

/// The next step of running the prompt command.
#[derive(Debug)]
pub enum RunAction {
    /// Ask the store for the id of the prompt titled `title`.
    LookUpId { title: String },
    /// Load the body of prompt `id`, whose title is `title`.
    LoadBody { id: PromptId, title: String },
    /// The run is over, with this result.
    Finish(Result<SlashCommandOutput, SlashCommandError>),
}

/// The next step of completing the prompt command's argument.
#[derive(Debug)]
pub enum CompletionAction {
    /// Search the store for prompts matching `query`.
    Search { query: String },
    /// The completion is over, with these suggestions.
    Finish(Vec<ArgumentCompletion>),
}

/// The character that starts a command invocation in text.
pub const TRIGGER: char = '/';

/// The text inserted for a prompt body: a body that starts with the trigger
/// gets a newline in front, so it is not read as a command; an empty body
/// becomes a single newline, so nothing inserted is empty.
pub open spec fn inserted_text(body: Seq<char>) -> Seq<char> {
    let guarded = if body.len() > 0 && body[0] == TRIGGER {
        seq!['\n'] + body
    } else {
        body
    };
    if guarded.len() == 0 {
        seq!['\n']
    } else {
        guarded
    }
}

/// The titles of the prompts in `results` that have one, in order.
pub open spec fn titles_of(results: Seq<PromptMetadata>) -> Seq<Seq<char>>
    decreases results.len(),
{
    if results.len() == 0 {
        seq![]
    } else {
        let rest = titles_of(results.drop_last());
        match results.last().title {
            Some(t) => rest.push(t@),
            None => rest,
        }
    }
}

/// `out` suggests exactly `titles`, each inserting its title and running the
/// command when accepted.
pub open spec fn suggests(out: Seq<ArgumentCompletion>, titles: Seq<Seq<char>>) -> bool {
    &&& out.len() == titles.len()
    &&& forall|j: int|
        0 <= j < out.len() ==> {
            &&& (#[trigger] out[j]).new_text@ == titles[j]
            &&& out[j].label.text@ == titles[j]
            &&& out[j].run_command
        }
}

impl SlashCommand for PromptSlashCommand {
    open spec fn spec_name(&self) -> Seq<char> {
        "prompt"@
    }

    open spec fn spec_description(&self) -> Seq<char> {
        "insert prompt from library"@
    }

    open spec fn spec_menu_text(&self) -> Seq<char> {
        "Insert Prompt from Library"@
    }

    open spec fn spec_requires_argument(&self) -> bool {
        true
    }

    fn name(&self) -> (r: String) {
        String::from_str("prompt")
    }

    fn description(&self) -> (r: String) {
        String::from_str("insert prompt from library")
    }

    fn menu_text(&self) -> (r: String) {
        String::from_str("Insert Prompt from Library")
    }

    fn requires_argument(&self) -> (r: bool) {
        true
    }
}

impl PromptSlashCommand {
    /// Builds the output for a loaded prompt `body` titled `title`: the
    /// inserted text, and one section over all of it labelled with the title.
    pub fn prompt_output(body: String, title: String) -> (r: SlashCommandOutput)
        ensures
            r.text@ == inserted_text(body@),
            body@.len() == 0 ==> r.text@ == seq!['\n'] && r.sections@[0].range.end == 1,
            body@.len() > 0 && body@[0] == TRIGGER ==> r.text@ == seq!['\n'] + body@,
            body@.len() > 0 && body@[0] != TRIGGER ==> r.text@ == body@,
            r.sections@.len() == 1,
            r.sections@[0].range.start == 0,
            r.sections@[0].range.end == byte_len(r.text@),
            r.sections@[0].icon == IconName::Library,
            r.sections@[0].label@ == title@,
            r.run_commands_in_text,
            r.wf(),
    {
        let ghost body_was_empty = body@.len() == 0;
        let mut text = body;
        if !text.as_str().is_empty() && text.as_str().get_char(0) == TRIGGER {
            let mut guarded = String::from_str("\n");
            guarded.append(text.as_str());
            text = guarded;
        }
        if text.as_str().is_empty() {
            text = String::from_str("\n");
        }
        proof {
            reveal_strlit("\n");
        }
        let len = text.as_str().len();
        proof {
            if body_was_empty {
                assert(text@ =~= seq!['\n']);
                assert(encode_utf8(text@) =~= encode_scalar('\n' as u32)) by {
                    reveal_with_fuel(encode_utf8, 2);
                }
            }
        }
        let section = SlashCommandOutputSection { range: 0..len, icon: IconName::Library, label: title };
        let sections = vec![section];
        let r = SlashCommandOutput { text, sections, run_commands_in_text: true };
        assert(r.sections@[0].within(byte_len(r.text@)));
        r
    }

    /// The first step of a run: refuse when no argument was given, else look
    /// up the prompt whose title is the first argument.
    pub fn begin_run(&self, arguments: &Vec<String>) -> (r: RunAction)
        ensures
            arguments@.len() == 0 <==> r is Finish,
            arguments@.len() == 0 ==> match r {
                RunAction::Finish(Err(SlashCommandError::MissingArgument { requirement })) => {
                    requirement@ == "prompt name"@
                },
                _ => false,
            },
            arguments@.len() > 0 ==> match r {
                RunAction::LookUpId { title } => title@ == arguments@[0]@,
                _ => false,
            },
    {
        if arguments.len() == 0 {
            RunAction::Finish(
                Err(SlashCommandError::MissingArgument { requirement: String::from_str("prompt name") }),
            )
        } else {
            RunAction::LookUpId { title: arguments[0].clone() }
        }
    }

    /// The step after the store answered the lookup of `title` with `id`:
    /// fail when no prompt has that title, else load its body.
    pub fn on_id_resolved(&self, title: String, id: Option<PromptId>) -> (r: RunAction)
        ensures
            match id {
                None => match r {
                    RunAction::Finish(Err(SlashCommandError::NotFound { what, key })) => {
                        what@ == "prompt"@ && key@ == title@
                    },
                    _ => false,
                },
                Some(found) => match r {
                    RunAction::LoadBody { id, title: t } => id == found && t@ == title@,
                    _ => false,
                },
            },
    {
        match id {
            None => RunAction::Finish(
                Err(SlashCommandError::NotFound { what: String::from_str("prompt"), key: title }),
            ),
            Some(found) => RunAction::LoadBody { id: found, title },
        }
    }

    /// The last step, after the store answered the load of the prompt titled
    /// `title` with `body`: pass a store failure on, else build the output.
    pub fn on_body_loaded(&self, title: String, body: Result<String, String>) -> (r: RunAction)
        ensures
            match body {
                Err(e) => match r {
                    RunAction::Finish(Err(SlashCommandError::Store { context, message })) => {
                        context@ == "loading prompt"@ && message@ == e@
                    },
                    _ => false,
                },
                Ok(b) => match r {
                    RunAction::Finish(Ok(out)) => {
                        &&& out.text@ == inserted_text(b@)
                        &&& out.sections@.len() == 1
                        &&& out.sections@[0].range.start == 0
                        &&& out.sections@[0].range.end == byte_len(out.text@)
                        &&& out.sections@[0].icon == IconName::Library
                        &&& out.sections@[0].label@ == title@
                        &&& out.run_commands_in_text
                        &&& out.wf()
                    },
                    _ => false,
                },
            },
    {
        match body {
            Err(e) => RunAction::Finish(
                Err(SlashCommandError::Store { context: String::from_str("loading prompt"), message: e }),
            ),
            Ok(b) => RunAction::Finish(Ok(Self::prompt_output(b, title))),
        }
    }
    /// The first step of a completion: stop with no suggestions if the
    /// request was cancelled, else search the store for the argument being
    /// typed, which is the last one (empty when there is none).
    pub fn begin_completion(&self, arguments: &Vec<String>, cancelled: bool) -> (r: CompletionAction)
        ensures
            cancelled ==> match r {
                CompletionAction::Finish(out) => out@.len() == 0,
                _ => false,
            },
            !cancelled ==> match r {
                CompletionAction::Search { query } => if arguments@.len() == 0 {
                    query@ == Seq::<char>::empty()
                } else {
                    query@ == arguments@.last()@
                },
                _ => false,
            },
    {
        if cancelled {
            CompletionAction::Finish(Vec::new())
        } else if arguments.len() == 0 {
            CompletionAction::Search { query: String::new() }
        } else {
            CompletionAction::Search { query: arguments[arguments.len() - 1].clone() }
        }
    }

    /// The step after the store's search answered `results`: one suggestion
    /// for each prompt that has a title, in the order found, or none if the
    /// request was cancelled meanwhile.
    pub fn on_search_results(&self, results: &Vec<PromptMetadata>, cancelled: bool) -> (r: Vec<
        ArgumentCompletion,
    >)
        ensures
            cancelled ==> r@.len() == 0,
            !cancelled ==> suggests(r@, titles_of(results@)),
    {
        let mut out: Vec<ArgumentCompletion> = Vec::new();
        if cancelled {
            return out;
        }
        let mut i: usize = 0;
        while i < results.len()
            invariant
                0 <= i <= results@.len(),
                suggests(out@, titles_of(results@.subrange(0, i as int))),
            decreases results@.len() - i,
        {
            assert(results@.subrange(0, i as int + 1).drop_last() =~= results@.subrange(0, i as int));
            match &results[i].title {
                Some(title) => {
                    let completion = ArgumentCompletion {
                        label: CodeLabel::plain(title.clone()),
                        new_text: title.clone(),
                        run_command: true,
                    };
                    out.push(completion);
                },
                None => {},
            }
            i += 1;
        }
        assert(results@.subrange(0, results@.len() as int) =~= results@);
        out
    }
}

} // verus!
