//! Redraw accounting: how many terminal lines the last draws took, so that
//! a redraw can erase exactly those first.
use vstd::prelude::*;

verus! {

/// How many line breaks `s` holds.
pub open spec fn newlines(s: Seq<char>) -> nat
    decreases s.len(),
{
    if s.len() == 0 {
        0
    } else {
        newlines(s.drop_last()) + if s.last() == '\n' { 1nat } else { 0nat }
    }
}

/// Counts the line breaks in `s`.
pub fn count_newlines(s: &str) -> (r: usize)
    ensures
        r == newlines(s@),
{
    let n = s.unicode_len();
    let mut k: usize = 0;
    let mut i: usize = 0;
    while i < n
        invariant
            n == s@.len(),
            i <= n,
            k == newlines(s@.subrange(0, i as int)),
            k <= i,
        decreases n - i,
    {
        assert(s@.subrange(0, i as int + 1).drop_last() =~= s@.subrange(0, i as int));
        if s.get_char(i) == '\n' {
            k = k + 1;
        }
        i = i + 1;
    }
    assert(s@.subrange(0, n as int) =~= s@);
    k
}

/// The line accounting of one renderer.
///
/// `height` counts the lines drawn since the last clear; `prompt_height`
/// counts the lines of the prompt above them, which a clear erases too.
#[derive(Clone, Copy, Debug, PartialEq, Eq, Structural)]
pub struct LineCounter {
    pub height: usize,
    pub prompt_height: usize,
    pub prompts_reset_height: bool,
}

impl LineCounter {
    /// Nothing drawn yet; each prompt starts a new count.
    pub fn new() -> (r: LineCounter)
        ensures
            r == (LineCounter { height: 0, prompt_height: 0, prompts_reset_height: true }),
    {
        LineCounter { height: 0, prompt_height: 0, prompts_reset_height: true }
    }

    /// Whether drawing a prompt moves the count into the prompt's height.
    pub fn set_prompts_reset_height(&mut self, val: bool)
        ensures
            *final(self) == (LineCounter { prompts_reset_height: val, ..*old(self) }),
    {
        self.prompts_reset_height = val;
    }

    /// Fixes the prompt's height.
    pub fn set_prompt_height(&mut self, val: usize)
        ensures
            *final(self) == (LineCounter { prompt_height: val, ..*old(self) }),
    {
        self.prompt_height = val;
    }

    /// Counts one more line, such as the line of input that the user typed.
    pub fn add_line(&mut self)
        ensures
            *final(self) == (LineCounter {
                height: if old(self).height < usize::MAX { (old(self).height + 1) as usize } else { usize::MAX },
                ..*old(self)
            }),
    {
        self.height = self.height.saturating_add(1);
    }

    /// Counts text written without a line end.
    pub fn wrote_str(&mut self, s: &str)
        ensures
            final(self).height == if old(self).height + newlines(s@) <= usize::MAX {
                (old(self).height + newlines(s@)) as int
            } else {
                usize::MAX as int
            },
            final(self).prompt_height == old(self).prompt_height,
            final(self).prompts_reset_height == old(self).prompts_reset_height,
    {
        let k = count_newlines(s);
        self.height = self.height.saturating_add(k);
    }

    /// Counts text written as a whole line.
    pub fn wrote_line(&mut self, s: &str)
        ensures
            final(self).height == if old(self).height + newlines(s@) + 1 <= usize::MAX {
                (old(self).height + newlines(s@) + 1) as int
            } else {
                usize::MAX as int
            },
            final(self).prompt_height == old(self).prompt_height,
            final(self).prompts_reset_height == old(self).prompts_reset_height,
    {
        let k = count_newlines(s);
        self.height = self.height.saturating_add(k).saturating_add(1);
    }

    /// Counts a prompt written as a whole line. Where prompts reset the
    /// height, the count so far becomes the prompt's height and starts anew.
    pub fn wrote_prompt(&mut self, s: &str)
        ensures
            ({
                let h = if old(self).height + newlines(s@) + 1 <= usize::MAX {
                    (old(self).height + newlines(s@) + 1) as int
                } else {
                    usize::MAX as int
                };
                if old(self).prompts_reset_height {
                    final(self).prompt_height == h && final(self).height == 0
                } else {
                    final(self).prompt_height == old(self).prompt_height && final(self).height == h
                }
            }),
            final(self).prompts_reset_height == old(self).prompts_reset_height,
    {
        self.wrote_line(s);
        if self.prompts_reset_height {
            self.prompt_height = self.height;
            self.height = 0;
        }
    }

    /// Starts a redraw: returns how many lines to erase, the drawn lines
    /// and the prompt's, and counts nothing drawn since.
    pub fn clear(&mut self) -> (r: usize)
        ensures
            r == if old(self).height + old(self).prompt_height <= usize::MAX {
                (old(self).height + old(self).prompt_height) as int
            } else {
                usize::MAX as int
            },
            *final(self) == (LineCounter { height: 0, ..*old(self) }),
    {
        let r = self.height.saturating_add(self.prompt_height);
        self.height = 0;
        r
    }
}

} // verus!
