//! The prompt variants: their configuration and the decisions that drive
//! their read, check and redraw loops. Reading keys and lines and drawing
//! on a terminal is left to the caller, which hands each input in and acts
//! on what comes back.
use vstd::prelude::*;
use crate::text::{is_sorted_texts, owned, push_char, sort_strings, texts};

verus! {

/// The look that the prompts are drawn with.
#[derive(Clone, Copy, Debug, PartialEq, Eq, Structural)]
pub enum Theme {
    /// Plain text.
    Simple,
    /// Colored text.
    Colorful,
}

/// What a yes/no prompt returns for one typed character, if anything.
pub open spec fn confirm_answer(c: char, default: bool) -> Option<bool> {
    if c == 'y' || c == 'Y' {
        Some(true)
    } else if c == 'n' || c == 'N' {
        Some(false)
    } else if c == '\n' || c == '\r' {
        Some(default)
    } else {
        None
    }
}

/// A yes/no confirmation prompt, read one character at a time.
pub struct Confirmation {
    pub text: String,
    pub default: bool,
    pub show_default: bool,
    pub theme: Theme,
}

impl Confirmation {
    /// A prompt with no text, default yes, shown, in the simple look.
    pub fn new() -> (r: Confirmation)
        ensures
            r.text@.len() == 0,
            r.default,
            r.show_default,
            r.theme == Theme::Simple,
    {
        Confirmation::with_theme(Theme::Simple)
    }

    /// A prompt with no text, default yes, shown, in the given look.
    pub fn with_theme(theme: Theme) -> (r: Confirmation)
        ensures
            r.text@.len() == 0,
            r.default,
            r.show_default,
            r.theme == theme,
    {
        Confirmation { text: String::new(), default: true, show_default: true, theme }
    }

    /// Sets the question.
    pub fn with_text(&mut self, text: &str) -> (r: &mut Confirmation)
        ensures
            r.text@ == text@,
            r.default == old(self).default,
            r.show_default == old(self).show_default,
            r.theme == old(self).theme,
            *final(self) == *final(r),
    {
        self.text = owned(text);
        self
    }

    /// Sets the answer that Enter gives.
    pub fn default(&mut self, val: bool) -> (r: &mut Confirmation)
        ensures
            r.text == old(self).text,
            r.default == val,
            r.show_default == old(self).show_default,
            r.theme == old(self).theme,
            *final(self) == *final(r),
    {
        self.default = val;
        self
    }

    /// Whether the prompt shows which answer Enter gives.
    pub fn show_default(&mut self, val: bool) -> (r: &mut Confirmation)
        ensures
            r.text == old(self).text,
            r.default == old(self).default,
            r.show_default == val,
            r.theme == old(self).theme,
            *final(self) == *final(r),
    {
        self.show_default = val;
        self
    }

    /// The default to show beside the question, if it is shown.
    pub fn shown_default(&self) -> (r: Option<bool>)
        ensures
            r == (if self.show_default { Some(self.default) } else { None }),
    {
        if self.show_default {
            Some(self.default)
        } else {
            None
        }
    }

    /// The answer for one typed character: yes for `y`, no for `n` (either
    /// case), the default for Enter; nothing for any other character, which
    /// the prompt then ignores and reads the next.
    pub fn answer(&self, c: char) -> (r: Option<bool>)
        ensures
            r == confirm_answer(c, self.default),
    {
        if c == 'y' || c == 'Y' {
            Some(true)
        } else if c == 'n' || c == 'N' {
            Some(false)
        } else if c == '\n' || c == '\r' {
            Some(self.default)
        } else {
            None
        }
    }
}


/// A check on typed input, registered on a prompt.
pub trait Validator {
    /// The reason this check refuses `input`, or `None` where it accepts it.
    spec fn refusal(&self, input: Seq<char>) -> Option<Seq<char>>;

    /// Accepts `input`, or refuses it with a reason to show.
    fn validate(&self, input: &str) -> (r: Result<(), String>)
        ensures
            match r {
                Ok(()) => self.refusal(input@) is None,
                Err(e) => self.refusal(input@) == Some(e@),
            },
    ;
}

/// Whether every check of `vs` accepts `input`.
pub open spec fn all_accept<V: Validator>(vs: Seq<V>, input: Seq<char>) -> bool {
    forall|j: int| 0 <= j < vs.len() ==> (#[trigger] vs[j]).refusal(input) is None
}

/// Whether check `i` of `vs` is the first to refuse `input`, with `reason`.
pub open spec fn first_refusal_at<V: Validator>(vs: Seq<V>, input: Seq<char>, i: int, reason: Seq<char>) -> bool {
    &&& 0 <= i < vs.len()
    &&& all_accept(vs.subrange(0, i), input)
    &&& vs[i].refusal(input) == Some(reason)
}

/// The first refusal of a chain of checks taken in order, or `None` where
/// they all accept.
pub open spec fn first_refusal<V: Validator>(vs: Seq<V>, input: Seq<char>) -> Option<Seq<char>>
    decreases vs.len(),
{
    if vs.len() == 0 {
        None
    } else {
        match vs[0].refusal(input) {
            Some(e) => Some(e),
            None => first_refusal(vs.drop_first(), input),
        }
    }
}

proof fn lemma_first_refusal_after<V: Validator>(vs: Seq<V>, input: Seq<char>, i: int)
    requires
        0 <= i <= vs.len(),
        all_accept(vs.subrange(0, i), input),
    ensures
        first_refusal(vs, input) == first_refusal(vs.subrange(i, vs.len() as int), input),
    decreases i,
{
    if i == 0 {
        assert(vs.subrange(0, vs.len() as int) =~= vs);
    } else {
        assert(vs.subrange(0, i)[0] == vs[0]);
        let rest = vs.drop_first();
        assert forall|j: int| 0 <= j < i - 1 implies (#[trigger] rest.subrange(0, i - 1)[j]).refusal(
            input,
        ) is None by {
            assert(rest.subrange(0, i - 1)[j] == vs.subrange(0, i)[j + 1]);
        }
        lemma_first_refusal_after(rest, input, i - 1);
        assert(rest.subrange(i - 1, rest.len() as int) =~= vs.subrange(i, vs.len() as int));
    }
}

/// Runs a chain of checks in order and returns the first refusal, with the
/// position of the check that gave it; the checks after it are not run.
/// `None` comes exactly when every check accepts.
pub fn run_validators<V: Validator>(vs: &Vec<V>, input: &str) -> (r: Option<(usize, String)>)
    ensures
        match r {
            Some((i, e)) => first_refusal_at(vs@, input@, i as int, e@),
            None => all_accept(vs@, input@),
        },
        opt_reason(r) == first_refusal(vs@, input@),
{
    let mut i: usize = 0;
    while i < vs.len()
        invariant
            i <= vs@.len(),
            all_accept(vs@.subrange(0, i as int), input@),
        decreases vs@.len() - i,
    {
        let ghost before = vs@.subrange(0, i as int);
        match vs[i].validate(input) {
            Ok(()) => {
                assert forall|j: int| 0 <= j < i + 1 implies (#[trigger] vs@.subrange(
                    0,
                    i + 1,
                )[j]).refusal(input@) is None by {
                    if j < i {
                        assert(vs@.subrange(0, i + 1)[j] == before[j]);
                    }
                }
            },
            Err(e) => {
                proof {
                    lemma_first_refusal_after(vs@, input@, i as int);
                    assert(vs@.subrange(i as int, vs@.len() as int)[0] == vs@[i as int]);
                }
                return Some((i, e));
            },
        }
        i = i + 1;
    }
    proof {
        assert(vs@.subrange(0, vs@.len() as int) =~= vs@);
        lemma_first_refusal_after(vs@, input@, vs@.len() as int);
    }
    None
}

/// The reason of a refusal found by a run of checks.
pub open spec fn opt_reason(r: Option<(usize, String)>) -> Option<Seq<char>> {
    match r {
        Some((_, e)) => Some(e@),
        None => None,
    }
}

/// What a line prompt does with one line of input.
pub enum LineStep {
    /// Return the default value.
    UseDefault,
    /// Ask again, with no message.
    Retry,
    /// Run the checks on the line.
    Check,
    /// Show this reason and ask again.
    Reject(String),
    /// The checks passed: parse the line into the value to return.
    Parse,
}

/// A prompt for one line of text, parsed into a `T`.
pub struct Input<T, V> {
    pub prompt: String,
    pub default: Option<T>,
    pub show_default: bool,
    pub theme: Theme,
    pub permit_empty: bool,
    pub validators: Vec<V>,
}

impl<T, V> Input<T, V> {
    /// A prompt with no text, no default, no checks, in the simple look.
    pub fn new() -> (r: Input<T, V>)
        ensures
            r.prompt@.len() == 0,
            r.default is None,
            r.show_default,
            r.theme == Theme::Simple,
            !r.permit_empty,
            r.validators@.len() == 0,
    {
        Input::with_theme(Theme::Simple)
    }

    /// A prompt with no text, no default, no checks, in the given look.
    pub fn with_theme(theme: Theme) -> (r: Input<T, V>)
        ensures
            r.prompt@.len() == 0,
            r.default is None,
            r.show_default,
            r.theme == theme,
            !r.permit_empty,
            r.validators@.len() == 0,
    {
        Input {
            prompt: String::new(),
            default: None,
            show_default: true,
            theme,
            permit_empty: false,
            validators: Vec::new(),
        }
    }

    /// Sets the prompt text.
    pub fn with_prompt(&mut self, prompt: &str) -> (r: &mut Input<T, V>)
        ensures
            r.prompt@ == prompt@,
            r.default == old(self).default,
            r.show_default == old(self).show_default,
            r.theme == old(self).theme,
            r.permit_empty == old(self).permit_empty,
            r.validators == old(self).validators,
            *final(self) == *final(r),
    {
        self.prompt = owned(prompt);
        self
    }

    /// Sets the value that an empty line gives.
    pub fn default(&mut self, value: T) -> (r: &mut Input<T, V>)
        ensures
            r.prompt == old(self).prompt,
            r.default == Some(value),
            r.show_default == old(self).show_default,
            r.theme == old(self).theme,
            r.permit_empty == old(self).permit_empty,
            r.validators == old(self).validators,
            *final(self) == *final(r),
    {
        self.default = Some(value);
        self
    }

    /// Whether an empty line goes on to the checks where there is no default.
    pub fn allow_empty(&mut self, val: bool) -> (r: &mut Input<T, V>)
        ensures
            r.prompt == old(self).prompt,
            r.default == old(self).default,
            r.show_default == old(self).show_default,
            r.theme == old(self).theme,
            r.permit_empty == val,
            r.validators == old(self).validators,
            *final(self) == *final(r),
    {
        self.permit_empty = val;
        self
    }

    /// Whether the prompt shows its default.
    pub fn show_default(&mut self, val: bool) -> (r: &mut Input<T, V>)
        ensures
            r.prompt == old(self).prompt,
            r.default == old(self).default,
            r.show_default == val,
            r.theme == old(self).theme,
            r.permit_empty == old(self).permit_empty,
            r.validators == old(self).validators,
            *final(self) == *final(r),
    {
        self.show_default = val;
        self
    }

    /// Adds a check after those already registered.
    pub fn validate_with(&mut self, validator: V) -> (r: &mut Input<T, V>)
        ensures
            r.prompt == old(self).prompt,
            r.default == old(self).default,
            r.show_default == old(self).show_default,
            r.theme == old(self).theme,
            r.permit_empty == old(self).permit_empty,
            r.validators@ == old(self).validators@.push(validator),
            *final(self) == *final(r),
    {
        self.validators.push(validator);
        self
    }

    /// What to do with one typed line before any check runs. An empty line
    /// gives the default where there is one, and is asked again where there
    /// is none and empty input is not permitted; any other line goes on to
    /// the checks.
    pub fn on_line(&self, line: &str) -> (r: LineStep)
        ensures
            line@.len() == 0 && self.default is Some ==> r is UseDefault,
            line@.len() == 0 && self.default is None && !self.permit_empty ==> r is Retry,
            !(line@.len() == 0 && (self.default is Some || !self.permit_empty)) ==> r is Check,
    {
        if line.is_empty() {
            if self.default.is_some() {
                return LineStep::UseDefault;
            } else if !self.permit_empty {
                return LineStep::Retry;
            }
        }
        LineStep::Check
    }

    /// What a chain of checks that gave `rejection` means for the line:
    /// show the reason and ask again, or parse the line.
    pub fn on_checked(&self, rejection: Option<String>) -> (r: LineStep)
        ensures
            match rejection {
                Some(e) => r == LineStep::Reject(e),
                None => r is Parse,
            },
    {
        match rejection {
            Some(e) => LineStep::Reject(e),
            None => LineStep::Parse,
        }
    }
}

impl<T, V: Validator> Input<T, V> {
    /// Runs the checks on a line, in the order they were registered, and
    /// decides as `on_checked` does: the first refusal is to be shown (the
    /// checks after it are not run), and a line that every check accepts is
    /// to be parsed.
    pub fn check_line(&self, line: &str) -> (r: LineStep)
        ensures
            match first_refusal(self.validators@, line@) {
                Some(e) => r matches LineStep::Reject(m) && m@ == e,
                None => r is Parse,
            },
            r is Parse <==> all_accept(self.validators@, line@),
    {
        let found = run_validators(&self.validators, line);
        let rejection = match found {
            Some((_, e)) => Some(e),
            None => None,
        };
        self.on_checked(rejection)
    }
}

/// Where a password prompt stands.
pub enum PasswordState {
    /// Waiting for the password.
    First,
    /// Waiting for the password again; this is the first entry.
    Confirming(String),
}

/// What a password prompt does with one entry.
pub enum PasswordStep {
    /// Ask again for the same entry, with no message.
    Retry,
    /// Ask for the password again under the confirmation prompt.
    Confirm(String),
    /// Return this password.
    Done(String),
    /// Show the mismatch message and start over from the first entry.
    Mismatch(String),
}

/// The message shown when the two entries differ.
pub open spec fn mismatch_message(c: Option<(String, String)>) -> Seq<char> {
    match c {
        Some((_, e)) => e@,
        None => Seq::<char>::empty(),
    }
}

/// A prompt for a password, read without echo.
pub struct PasswordInput {
    pub prompt: String,
    pub theme: Theme,
    pub allow_empty_password: bool,
    /// The confirmation prompt and the message for a mismatch.
    pub confirmation_prompt: Option<(String, String)>,
}

impl PasswordInput {
    /// A prompt with no text, no confirmation, refusing an empty password.
    pub fn new() -> (r: PasswordInput)
        ensures
            r.prompt@.len() == 0,
            r.theme == Theme::Simple,
            !r.allow_empty_password,
            r.confirmation_prompt is None,
    {
        PasswordInput::with_theme(Theme::Simple)
    }

    /// The same, in the given look.
    pub fn with_theme(theme: Theme) -> (r: PasswordInput)
        ensures
            r.prompt@.len() == 0,
            r.theme == theme,
            !r.allow_empty_password,
            r.confirmation_prompt is None,
    {
        PasswordInput {
            prompt: String::new(),
            theme,
            allow_empty_password: false,
            confirmation_prompt: None,
        }
    }

    /// Sets the prompt text.
    pub fn with_prompt(&mut self, prompt: &str) -> (r: &mut PasswordInput)
        ensures
            r.prompt@ == prompt@,
            r.theme == old(self).theme,
            r.allow_empty_password == old(self).allow_empty_password,
            r.confirmation_prompt == old(self).confirmation_prompt,
            *final(self) == *final(r),
    {
        self.prompt = owned(prompt);
        self
    }

    /// Asks for the password twice, with `prompt` the second time, and
    /// shows `mismatch_err` where the two differ.
    pub fn with_confirmation(&mut self, prompt: &str, mismatch_err: &str) -> (r: &mut PasswordInput)
        ensures
            r.prompt == old(self).prompt,
            r.theme == old(self).theme,
            r.allow_empty_password == old(self).allow_empty_password,
            r.confirmation_prompt matches Some((p, e)) && p@ == prompt@ && e@ == mismatch_err@,
            *final(self) == *final(r),
    {
        self.confirmation_prompt = Some((owned(prompt), owned(mismatch_err)));
        self
    }

    /// Whether an empty password is accepted.
    pub fn allow_empty_password(&mut self, allow_empty_password: bool) -> (r: &mut PasswordInput)
        ensures
            r.prompt == old(self).prompt,
            r.theme == old(self).theme,
            r.allow_empty_password == allow_empty_password,
            r.confirmation_prompt == old(self).confirmation_prompt,
            *final(self) == *final(r),
    {
        self.allow_empty_password = allow_empty_password;
        self
    }

    /// Whether one entry is taken: any non-empty one, and an empty one
    /// where that is allowed.
    pub fn accepts(&self, input: &str) -> (r: bool)
        ensures
            r == (input@.len() > 0 || self.allow_empty_password),
    {
        !input.is_empty() || self.allow_empty_password
    }

    /// The prompt to show in `state`: the confirmation prompt while the
    /// password is asked again, else the prompt text.
    pub fn prompt_for(&self, state: &PasswordState) -> (r: String)
        ensures
            r@ == (match *state {
                PasswordState::Confirming(_) => match self.confirmation_prompt {
                    Some((p, _)) => p@,
                    None => self.prompt@,
                },
                PasswordState::First => self.prompt@,
            }),
    {
        match state {
            PasswordState::Confirming(_) => match &self.confirmation_prompt {
                Some((p, _)) => owned(p.as_str()),
                None => owned(self.prompt.as_str()),
            },
            PasswordState::First => owned(self.prompt.as_str()),
        }
    }

    /// Where the prompt stands after a step: the same place after an entry
    /// that was not taken, waiting for the confirmation after the first
    /// entry, and back at the first entry after a mismatch or at the end.
    pub fn next_state(&self, state: PasswordState, step: &PasswordStep) -> (r: PasswordState)
        ensures
            match *step {
                PasswordStep::Retry => r == state,
                PasswordStep::Confirm(p) => r matches PasswordState::Confirming(f) && f@ == p@,
                PasswordStep::Done(_) => r is First,
                PasswordStep::Mismatch(_) => r is First,
            },
    {
        match step {
            PasswordStep::Retry => state,
            PasswordStep::Confirm(p) => PasswordState::Confirming(owned(p.as_str())),
            PasswordStep::Done(_) => PasswordState::First,
            PasswordStep::Mismatch(_) => PasswordState::First,
        }
    }

    /// What to do with one entry, read in `state`. An entry that is not
    /// taken is asked again. Without confirmation the first entry is
    /// returned; with it, the second entry is asked for, and the password is
    /// returned if both agree, else the mismatch message is shown and the
    /// prompt starts over.
    pub fn on_entry(&self, state: &PasswordState, input: String) -> (r: PasswordStep)
        ensures
            !(input@.len() > 0 || self.allow_empty_password) ==> r is Retry,
            (input@.len() > 0 || self.allow_empty_password) ==> match *state {
                PasswordState::First => match self.confirmation_prompt {
                    Some(_) => r matches PasswordStep::Confirm(p) && p@ == input@,
                    None => r matches PasswordStep::Done(p) && p@ == input@,
                },
                PasswordState::Confirming(first) => if first@ == input@ {
                    r matches PasswordStep::Done(p) && p@ == first@
                } else {
                    r matches PasswordStep::Mismatch(m) && m@ == mismatch_message(self.confirmation_prompt)
                },
            },
    {
        if !self.accepts(input.as_str()) {
            return PasswordStep::Retry;
        }
        match state {
            PasswordState::First => match &self.confirmation_prompt {
                Some(_) => PasswordStep::Confirm(input),
                None => PasswordStep::Done(input),
            },
            PasswordState::Confirming(first) => {
                if *first == input {
                    PasswordStep::Done(input)
                } else {
                    match &self.confirmation_prompt {
                        Some((_, e)) => PasswordStep::Mismatch(e.clone()),
                        None => PasswordStep::Mismatch(String::new()),
                    }
                }
            },
        }
    }
}


/// A key, as the file browser tells keys apart.
#[derive(Clone, Copy, Debug, PartialEq, Eq, Structural)]
pub enum Key {
    Enter,
    ArrowUp,
    ArrowDown,
    Tab,
    Escape,
    Char(char),
    /// Any other key.
    Other,
}

/// Whether a key moves the selection back.
pub open spec fn is_back_key(k: Key) -> bool {
    k == Key::ArrowUp || k == Key::Escape || k == Key::Char('\u{1b}')
}

/// Whether a key moves the selection forward.
pub open spec fn is_forward_key(k: Key) -> bool {
    k == Key::ArrowDown || k == Key::Tab || k == Key::Char('\t')
}

/// How an entry line of the browser is drawn.
#[derive(Clone, Copy, Debug, PartialEq, Eq, Structural)]
pub enum SelectionStyle {
    MenuSelected,
    MenuUnselected,
}

/// One entry line of a browser frame.
pub struct FrameLine {
    pub text: String,
    pub style: SelectionStyle,
}

/// What the browser draws: the prompt line, then one line per entry.
pub struct Frame {
    pub prompt: String,
    pub lines: Vec<FrameLine>,
}

/// Where the file browser stands: a directory, its entries as drawn, and
/// the highlighted entry.
pub struct BrowserState {
    pub path: String,
    pub entries: Vec<String>,
    pub selected: Option<i32>,
}

/// What the file browser does after a key.
pub enum BrowserAction {
    /// Return this path.
    Finish(String),
    /// Resolve the entry of this name under the current directory: descend
    /// into it if it is a directory, else return it.
    Open(String),
    /// List the current directory again and move the selection, forward or
    /// back.
    Move(bool),
}

/// Whether entry `i` is the highlighted one.
pub open spec fn is_selected(selected: Option<i32>, i: int) -> bool {
    selected matches Some(s) && s as int == i
}

/// The current-directory entry.
pub open spec fn dot() -> Seq<char> {
    seq!['.']
}

/// The parent-directory entry.
pub open spec fn dot_dot() -> Seq<char> {
    seq!['.', '.']
}

/// Whether `entries` is a browser listing of `names`: the current and the
/// parent directory first, then the names in lexicographic order.
pub open spec fn is_listing_of(entries: Seq<String>, names: Seq<String>) -> bool {
    &&& entries.len() == names.len() + 2
    &&& entries[0]@ == dot()
    &&& entries[1]@ == dot_dot()
    &&& is_sorted_texts(entries.subrange(2, entries.len() as int))
    &&& texts(entries.subrange(2, entries.len() as int)).to_multiset() == texts(names).to_multiset()
}

/// The index after moving one step, forward or back, among `len` entries.
/// From an index in range the step wraps around: forward from the last
/// entry to the first, back from the first to the last. With nothing
/// highlighted it is the first; from an index past the end (the listing
/// shrank) it is the last for a step back from just past the end, else the
/// first.
pub open spec fn bumped(selected: Option<i32>, len: int, forwards: bool) -> int {
    match selected {
        Some(i) => if 0 <= i < len {
            if forwards {
                (i + 1) % len
            } else {
                (i + len - 1) % len
            }
        } else if i == len && !forwards {
            len - 1
        } else {
            0
        },
        None => 0,
    }
}

/// A prompt that browses directories and returns the path chosen.
pub struct FileInput<V> {
    pub prompt: String,
    /// The directory the browser starts in.
    pub default: Option<String>,
    pub show_default: bool,
    pub theme: Theme,
    pub permit_empty: bool,
    pub validators: Vec<V>,
}

impl<V> FileInput<V> {
    /// A prompt with no text, no start directory, no checks.
    pub fn new() -> (r: FileInput<V>)
        ensures
            r.prompt@.len() == 0,
            r.default is None,
            r.show_default,
            r.theme == Theme::Simple,
            !r.permit_empty,
            r.validators@.len() == 0,
    {
        FileInput::with_theme(Theme::Simple)
    }

    /// The same, in the given look.
    pub fn with_theme(theme: Theme) -> (r: FileInput<V>)
        ensures
            r.prompt@.len() == 0,
            r.default is None,
            r.show_default,
            r.theme == theme,
            !r.permit_empty,
            r.validators@.len() == 0,
    {
        FileInput {
            prompt: String::new(),
            default: None,
            show_default: true,
            theme,
            permit_empty: false,
            validators: Vec::new(),
        }
    }

    /// Sets the prompt text.
    pub fn with_prompt(&mut self, prompt: &str) -> (r: &mut FileInput<V>)
        ensures
            r.prompt@ == prompt@,
            r.default == old(self).default,
            r.show_default == old(self).show_default,
            r.theme == old(self).theme,
            r.permit_empty == old(self).permit_empty,
            r.validators == old(self).validators,
            *final(self) == *final(r),
    {
        self.prompt = owned(prompt);
        self
    }

    /// Sets the directory the browser starts in.
    pub fn default(&mut self, value: String) -> (r: &mut FileInput<V>)
        ensures
            r.prompt == old(self).prompt,
            r.default == Some(value),
            r.show_default == old(self).show_default,
            r.theme == old(self).theme,
            r.permit_empty == old(self).permit_empty,
            r.validators == old(self).validators,
            *final(self) == *final(r),
    {
        self.default = Some(value);
        self
    }

    /// Whether empty input is permitted.
    pub fn allow_empty(&mut self, val: bool) -> (r: &mut FileInput<V>)
        ensures
            r.prompt == old(self).prompt,
            r.default == old(self).default,
            r.show_default == old(self).show_default,
            r.theme == old(self).theme,
            r.permit_empty == val,
            r.validators == old(self).validators,
            *final(self) == *final(r),
    {
        self.permit_empty = val;
        self
    }

    /// Whether the prompt shows its default.
    pub fn show_default(&mut self, val: bool) -> (r: &mut FileInput<V>)
        ensures
            r.prompt == old(self).prompt,
            r.default == old(self).default,
            r.show_default == val,
            r.theme == old(self).theme,
            r.permit_empty == old(self).permit_empty,
            r.validators == old(self).validators,
            *final(self) == *final(r),
    {
        self.show_default = val;
        self
    }

    /// Adds a check after those already registered.
    pub fn validate_with(&mut self, validator: V) -> (r: &mut FileInput<V>)
        ensures
            r.prompt == old(self).prompt,
            r.default == old(self).default,
            r.show_default == old(self).show_default,
            r.theme == old(self).theme,
            r.permit_empty == old(self).permit_empty,
            r.validators@ == old(self).validators@.push(validator),
            *final(self) == *final(r),
    {
        self.validators.push(validator);
        self
    }

    /// The entries drawn for a directory whose entries are named `names`:
    /// the current and the parent directory, then the names sorted.
    pub fn list_entries(&self, names: Vec<String>) -> (r: Vec<String>)
        requires
            names@.len() + 2 <= usize::MAX,
        ensures
            is_listing_of(r@, names@),
    {
        let mut sorted = names;
        sort_strings(&mut sorted);
        let mut here = String::new();
        push_char(&mut here, '.');
        let mut up = String::new();
        push_char(&mut up, '.');
        push_char(&mut up, '.');
        let mut r: Vec<String> = Vec::new();
        r.push(here);
        r.push(up);
        let mut i: usize = 0;
        while i < sorted.len()
            invariant
                r@.len() == i + 2,
                i <= sorted@.len(),
                r@[0]@ == dot(),
                r@[1]@ == dot_dot(),
                r@.subrange(2, r@.len() as int) == sorted@.subrange(0, i as int),
            decreases sorted@.len() - i,
        {
            let s = sorted[i].clone();
            let ghost before = r@;
            r.push(s);
            assert(r@.subrange(2, r@.len() as int) =~= before.subrange(2, before.len() as int).push(
                sorted@[i as int],
            ));
            assert(sorted@.subrange(0, i as int + 1) =~= sorted@.subrange(0, i as int).push(
                sorted@[i as int],
            ));
            i = i + 1;
        }
        assert(sorted@.subrange(0, sorted@.len() as int) =~= sorted@);
        r
    }

    /// The index highlighted after one step, forward or back, among
    /// `entries`; it wraps from the last entry to the first and from the
    /// first to the last. With nothing highlighted it is the first.
    pub fn bump_index(&self, selected: &Option<i32>, entries: &Vec<String>, forwards: bool) -> (r: i32)
        requires
            1 <= entries@.len() <= i32::MAX,
            *selected matches Some(i) ==> 0 <= i < i32::MAX,
        ensures
            r == bumped(*selected, entries@.len() as int, forwards),
            0 <= r < entries@.len(),
            (*selected matches Some(i) && i == entries@.len() - 1 && forwards) ==> r == 0,
            (*selected matches Some(i) && i == 0 && !forwards) ==> r == entries@.len() - 1,
    {
        let r = match selected {
            Some(i) => {
                let bump: i32 = if forwards { 1 } else { -1 };
                let ni = *i + bump;
                let last = (entries.len() - 1) as i32;
                if ni < 0 {
                    last
                } else if ni > last {
                    0
                } else {
                    ni
                }
            },
            None => 0,
        };
        proof {
            if let Some(i) = *selected {
                let len = entries@.len() as int;
                if 0 <= i < len {
                    if forwards {
                        if i + 1 < len {
                            vstd::arithmetic::div_mod::lemma_small_mod((i + 1) as nat, len as nat);
                        } else {
                            vstd::arithmetic::div_mod::lemma_mod_self_0(len);
                        }
                    } else {
                        if i > 0 {
                            vstd::arithmetic::div_mod::lemma_mod_add_multiples_vanish(i - 1, len);
                            vstd::arithmetic::div_mod::lemma_small_mod((i - 1) as nat, len as nat);
                        } else {
                            vstd::arithmetic::div_mod::lemma_small_mod((len - 1) as nat, len as nat);
                        }
                    }
                }
            }
        }
        r
    }

    /// The frame for a state: the prompt with the directory after it, and
    /// each entry, highlighted where it is the selected one.
    pub fn render(&self, state: &BrowserState) -> (r: Frame)
        ensures
            r.prompt@ == self.prompt@ + seq![' '] + state.path@,
            r.lines@.len() == state.entries@.len(),
            forall|i: int|
                0 <= i < r.lines@.len() ==> (#[trigger] r.lines@[i]).text@ == state.entries@[i]@
                    && r.lines@[i].style == (if is_selected(state.selected, i) {
                    SelectionStyle::MenuSelected
                } else {
                    SelectionStyle::MenuUnselected
                }),
    {
        let mut prompt = owned(self.prompt.as_str());
        push_char(&mut prompt, ' ');
        prompt.append(state.path.as_str());
        let mut lines: Vec<FrameLine> = Vec::new();
        let mut i: usize = 0;
        while i < state.entries.len()
            invariant
                i <= state.entries@.len(),
                lines@.len() == i,
                forall|j: int|
                    0 <= j < i ==> (#[trigger] lines@[j]).text@ == state.entries@[j]@
                        && lines@[j].style == (if is_selected(state.selected, j) {
                        SelectionStyle::MenuSelected
                    } else {
                        SelectionStyle::MenuUnselected
                    }),
            decreases state.entries@.len() - i,
        {
            let hit = match state.selected {
                Some(s) => s >= 0 && s as usize == i,
                None => false,
            };
            let style = if hit {
                SelectionStyle::MenuSelected
            } else {
                SelectionStyle::MenuUnselected
            };
            lines.push(FrameLine { text: owned(state.entries[i].as_str()), style });
            i = i + 1;
        }
        Frame { prompt, lines }
    }

    /// What a key does: Enter returns the current directory where nothing
    /// is highlighted or the current-directory entry is, and else opens the
    /// highlighted entry; Up or Escape moves back, Tab or Down forward; any
    /// other key returns the current directory.
    pub fn on_key(&self, state: &BrowserState, key: Key) -> (r: BrowserAction)
        requires
            state.selected matches Some(i) ==> 0 <= i < state.entries@.len(),
        ensures
            key == Key::Enter ==> match state.selected {
                None => r matches BrowserAction::Finish(p) && p@ == state.path@,
                Some(i) => if state.entries@[i as int]@ == dot() {
                    r matches BrowserAction::Finish(p) && p@ == state.path@
                } else {
                    r matches BrowserAction::Open(n) && n@ == state.entries@[i as int]@
                },
            },
            is_back_key(key) ==> (r matches BrowserAction::Move(f) && !f),
            is_forward_key(key) ==> (r matches BrowserAction::Move(f) && f),
            key != Key::Enter && !is_back_key(key) && !is_forward_key(key) ==> (r matches BrowserAction::Finish(p)
                && p@ == state.path@),
    {
        match key {
            Key::Enter => match state.selected {
                None => BrowserAction::Finish(owned(state.path.as_str())),
                Some(i) => {
                    let name = &state.entries[i as usize];
                    if name.unicode_len() == 1 && name.as_str().get_char(0) == '.' {
                        assert(name@ =~= dot());
                        BrowserAction::Finish(owned(state.path.as_str()))
                    } else {
                        BrowserAction::Open(owned(name.as_str()))
                    }
                },
            },
            Key::ArrowUp | Key::Escape | Key::Char('\u{1b}') => BrowserAction::Move(false),
            Key::ArrowDown | Key::Tab | Key::Char('\t') => BrowserAction::Move(true),
            _ => BrowserAction::Finish(owned(state.path.as_str())),
        }
    }

    /// The state at the start: the start directory, listed, with its first
    /// entry highlighted.
    pub fn start(&self, names: Vec<String>) -> (r: BrowserState)
        requires
            self.default is Some,
            names@.len() + 2 <= i32::MAX,
        ensures
            self.default matches Some(d) && r.path@ == d@,
            is_listing_of(r.entries@, names@),
            r.selected == Some(0i32),
    {
        let path = match &self.default {
            Some(d) => owned(d.as_str()),
            None => String::new(),
        };
        let entries = self.list_entries(names);
        BrowserState { path, entries, selected: Some(0) }
    }

    /// The state after descending into the directory `path`, whose entries
    /// are named `names`: listed, with the first entry highlighted.
    pub fn descend(&self, path: String, names: Vec<String>) -> (r: BrowserState)
        requires
            names@.len() + 2 <= i32::MAX,
        ensures
            r.path == path,
            is_listing_of(r.entries@, names@),
            r.selected == Some(0i32),
    {
        let entries = self.list_entries(names);
        BrowserState { path, entries, selected: Some(0) }
    }

    /// The state after a move: the same directory listed anew from `names`,
    /// with the selection moved one step and wrapped.
    pub fn moved(&self, state: BrowserState, names: Vec<String>, forwards: bool) -> (r: BrowserState)
        requires
            names@.len() + 2 <= i32::MAX,
            state.selected matches Some(i) ==> 0 <= i < i32::MAX,
        ensures
            r.path == state.path,
            is_listing_of(r.entries@, names@),
            r.selected == Some(bumped(state.selected, names@.len() as int + 2, forwards) as i32),
    {
        let entries = self.list_entries(names);
        let index = self.bump_index(&state.selected, &entries, forwards);
        BrowserState { path: state.path, entries, selected: Some(index) }
    }
}

} // verus!
