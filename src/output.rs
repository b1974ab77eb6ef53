use vstd::prelude::*;
use vstd::utf8::encode_utf8;

verus! {

/// Number of bytes in the UTF-8 encoding of `s`, as `str::len` reports it:
/// the unit in which section ranges are measured.
pub open spec fn byte_len(s: Seq<char>) -> usize {
    encode_utf8(s).len() as usize
}

/// The icon shown beside a section of command output.
#[derive(Clone, Copy, Debug, PartialEq, Eq, Structural)]
pub enum IconName {
    Library,
}

/// An annotated slice `range` of an output's text, with display metadata.
#[derive(Debug)]
pub struct SlashCommandOutputSection<T> {
    pub range: core::ops::Range<T>,
    pub icon: IconName,
    pub label: String,
}

/// What a command produced: the text to insert and its annotated sections.
#[derive(Debug)]
pub struct SlashCommandOutput {
    pub text: String,
    pub sections: Vec<SlashCommandOutputSection<usize>>,
    /// Whether command invocations inside `text` may themselves be run.
    pub run_commands_in_text: bool,
}

impl SlashCommandOutputSection<usize> {
    /// The range lies within a text of `len` bytes.
    pub open spec fn within(&self, len: usize) -> bool {
        self.range.start <= self.range.end && self.range.end <= len
    }
}

impl SlashCommandOutput {
    /// Every section's range is a sub-range of `text`.
    pub open spec fn wf(&self) -> bool {
        forall|i: int|
            0 <= i < self.sections@.len() ==> #[trigger] self.sections@[i].within(
                byte_len(self.text@),
            )
    }

    /// Checks that every section's range is a sub-range of `text`.
    pub fn has_valid_sections(&self) -> (r: bool)
        ensures
            r == self.wf(),
    {
        let len = self.text.as_str().len();
        let mut i: usize = 0;
        while i < self.sections.len()
            invariant
                0 <= i <= self.sections@.len(),
                len == byte_len(self.text@),
                forall|j: int| 0 <= j < i ==> #[trigger] self.sections@[j].within(byte_len(self.text@)),
            decreases self.sections@.len() - i,
        {
            let range = &self.sections[i].range;
            if !(range.start <= range.end && range.end <= len) {
                assert(!self.sections@[i as int].within(byte_len(self.text@)));
                return false;
            }
            i += 1;
        }
        true
    }
}

} // verus!
