use vstd::prelude::*;
use vstd::string::StrSliceExecFns;

use crate::constraints::clamp;
use crate::constraints::Constraints;
use crate::geometry::Size;

verus! {

/// A single-line text widget: one row of glyphs, one cell per character.
#[derive(Debug)]
pub struct Text {
    pub text: String,
}

/// The size a text widget reports: its character count and one row, each
/// clamped into the envelope.
pub open spec fn spec_text_size(text: Seq<char>, c: Constraints) -> Size {
    Size {
        width: clamp(text.len() as int, c.min_width as int, c.max_width as int) as usize,
        height: clamp(1, c.min_height as int, c.max_height as int) as usize,
    }
}

impl Text {
    pub fn new(text: &str) -> (t: Text)
        ensures
            t.text@ == text@,
    {
        Text { text: text.to_owned() }
    }

    /// The widget's size under an envelope.
    pub fn layout(&self, constraints: Constraints) -> (s: Size)
        requires
            constraints.wf(),
        ensures
            s == spec_text_size(self.text@, constraints),
            constraints.spec_contains(s),
    {
        let len = self.text.as_str().unicode_len();
        Size {
            width: crate::constraints::clamp_usize(
                len,
                constraints.min_width,
                constraints.max_width,
            ),
            height: crate::constraints::clamp_usize(
                1,
                constraints.min_height,
                constraints.max_height,
            ),
        }
    }
}

} // verus!
