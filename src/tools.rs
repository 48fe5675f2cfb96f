//! Shell-safe escaping of path strings.
use vstd::prelude::*;
use crate::text::{owned, push_char};

verus! {

/// Whether `c` opens or closes a nested quoted segment: only when no
/// explicit separator is in use.
pub open spec fn is_nesting_quote(sep: Seq<char>, c: char) -> bool {
    sep.len() == 0 && (c == '`' || c == '"')
}

/// The nested-quote state `(inside, opener)` after reading `c`.
pub open spec fn quote_step(sep: Seq<char>, c: char, inside: bool, opener: char) -> (bool, char) {
    if is_nesting_quote(sep, c) {
        if !inside {
            (true, c)
        } else if c == opener {
            (false, 'N')
        } else {
            (inside, opener)
        }
    } else {
        (inside, opener)
    }
}

/// What `c` turns into, given the quote state after reading it.
pub open spec fn wrap_piece(sep: Seq<char>, c: char, inside_after: bool) -> Seq<char> {
    let a = if sep == seq![c] { seq!['\\'] } else { Seq::<char>::empty() };
    let b = if c == ' ' && sep.len() == 0 && !inside_after { seq!['\\'] } else { Seq::<char>::empty() };
    a + b + seq![c]
}

/// The escaped body of `s`, read from the quote state `(inside, opener)`.
pub open spec fn wrap_body(sep: Seq<char>, s: Seq<char>, inside: bool, opener: char) -> Seq<char>
    decreases s.len(),
{
    if s.len() == 0 {
        Seq::<char>::empty()
    } else {
        let st = quote_step(sep, s[0], inside, opener);
        wrap_piece(sep, s[0], st.0) + wrap_body(sep, s.drop_first(), st.0, st.1)
    }
}

/// `s` escaped against `sep` and enclosed in `sep` on both ends.
pub open spec fn wrapped(sep: Seq<char>, s: Seq<char>) -> Seq<char> {
    sep + wrap_body(sep, s, false, 'N') + sep
}

/// Each occurrence of `d` in `s` preceded by a backslash.
pub open spec fn escape_each(s: Seq<char>, d: char) -> Seq<char>
    decreases s.len(),
{
    if s.len() == 0 {
        Seq::<char>::empty()
    } else {
        let head = if s[0] == d { seq!['\\', s[0]] } else { seq![s[0]] };
        head + escape_each(s.drop_first(), d)
    }
}

/// Escapes `s` for use between two copies of `sep` and encloses it in them.
///
/// A character equal to `sep` gets a backslash. With an empty `sep`, a space
/// outside a nested backtick or double-quote segment gets one too.
pub fn wrap_sep_string(sep: &str, s: &str) -> (r: String)
    ensures
        r@ == wrapped(sep@, s@),
{
    let sep_len = sep.unicode_len();
    let sep_empty = sep_len == 0;
    let single = sep_len == 1;
    let sep_char = if single { sep.get_char(0) } else { ' ' };
    proof {
        if single {
            assert(sep@ =~= seq![sep_char]);
        }
    }
    let n = s.unicode_len();
    let mut token = String::new();
    let mut inside = false;
    let mut opener = 'N';
    let mut i: usize = 0;
    assert(s@.subrange(0, n as int) =~= s@);
    assert(token@ + wrap_body(sep@, s@, false, 'N') =~= wrap_body(sep@, s@, false, 'N'));
    while i < n
        invariant
            n == s@.len(),
            i <= n,
            sep_empty == (sep@.len() == 0),
            single == (sep@.len() == 1),
            single ==> sep@ == seq![sep_char],
            token@ + wrap_body(sep@, s@.subrange(i as int, n as int), inside, opener)
                == wrap_body(sep@, s@, false, 'N'),
        decreases n - i,
    {
        let c = s.get_char(i);
        let ghost rest = s@.subrange(i as int, n as int);
        let ghost old_token = token@;
        assert(rest[0] == c);
        assert(rest.drop_first() =~= s@.subrange(i as int + 1, n as int));
        if sep_empty && (c == '`' || c == '"') {
            if !inside {
                inside = true;
                opener = c;
            } else if c == opener {
                inside = false;
                opener = 'N';
            }
        }
        let is_sep = single && c == sep_char;
        assert(is_sep == (sep@ == seq![c])) by {
            if sep@ == seq![c] {
                assert(sep@[0] == c);
            }
        }
        if is_sep {
            push_char(&mut token, '\\');
        }
        if c == ' ' && sep_empty && !inside {
            push_char(&mut token, '\\');
        }
        push_char(&mut token, c);
        assert(token@ =~= old_token + wrap_piece(sep@, c, inside));
        i = i + 1;
    }
    assert(s@.subrange(n as int, n as int) =~= Seq::<char>::empty());
    let mut r = owned(sep);
    r.append(token.as_str());
    r.append(sep);
    assert(r@ =~= wrapped(sep@, s@));
    r
}


/// Characters that a shell reads specially inside a word.
pub open spec fn is_special(c: char) -> bool {
    c == '!' || c == '(' || c == ')' || c == '<' || c == '>' || c == ',' || c == '?' || c == ']'
        || c == '[' || c == '{' || c == '}' || c == ' ' || c == '\\' || c == '\'' || c == '"'
        || c == '`' || c == '*' || c == '^' || c == '#' || c == '|' || c == '$' || c == '&'
        || c == ';'
}

/// `s` with a backslash before each special character.
pub open spec fn escaped(s: Seq<char>) -> Seq<char>
    decreases s.len(),
{
    if s.len() == 0 {
        Seq::<char>::empty()
    } else {
        let head = if is_special(s[0]) { seq!['\\', s[0]] } else { seq![s[0]] };
        head + escaped(s.drop_first())
    }
}

/// How many characters of `s` are special.
pub open spec fn special_count(s: Seq<char>) -> nat
    decreases s.len(),
{
    if s.len() == 0 {
        0
    } else {
        (if is_special(s[0]) { 1nat } else { 0nat }) + special_count(s.drop_first())
    }
}

/// Whether `s` holds no special character.
pub open spec fn is_plain(s: Seq<char>) -> bool {
    forall|i: int| 0 <= i < s.len() ==> !is_special(#[trigger] s[i])
}

/// One character class, captured as `c`, of every special character.
pub const SPECIAL_CLASS: &'static str = r##"(?P<c>[!\(\)<>,\?\]\[\{\} \\'"`*\^#|$&;])"##;

/// A backslash followed by the capture `c`.
pub const BACKSLASH_CAPTURE: &'static str = "\\$c";

#[verifier::external_type_specification]
#[verifier::external_body]
pub struct ExRegexError(regex::Error);

/// Relies on `regex::Regex::new`, which compiles a valid pattern, and on
/// `Regex::replace_all`, which puts the replacement, with `$c` expanded to the
/// capture `c`, in place of every non-overlapping match. With the class of
/// special characters and a backslash before the capture, every special
/// character gets a backslash and everything else is kept.
#[verifier::external_body]
fn regex_replace_all(pattern: &str, replacement: &str, text: &str) -> (r: Result<String, regex::Error>)
    requires
        pattern@ == SPECIAL_CLASS@,
        replacement@ == BACKSLASH_CAPTURE@,
    ensures
        r is Ok,
        r matches Ok(out) ==> out@ == escaped(text@),
{
    let re = regex::Regex::new(pattern)?;
    Ok(re.replace_all(text, replacement).into_owned())
}

/// Escapes every special character of `path` with a backslash, so that
/// the result reads as one literal word in a shell.
pub fn escape_path(path: &str) -> (r: String)
    ensures
        r@ == escaped(path@),
{
    match regex_replace_all(SPECIAL_CLASS, BACKSLASH_CAPTURE, path) {
        Ok(out) => out,
        Err(_) => owned(path),
    }
}

proof fn lemma_special_count_concat(a: Seq<char>, b: Seq<char>)
    ensures
        special_count(a + b) == special_count(a) + special_count(b),
    decreases a.len(),
{
    if a.len() == 0 {
        assert(a + b =~= b);
    } else {
        assert((a + b).drop_first() =~= a.drop_first() + b);
        lemma_special_count_concat(a.drop_first(), b);
    }
}

proof fn lemma_escaped_counts(s: Seq<char>)
    ensures
        escaped(s).len() == s.len() + special_count(s),
        special_count(escaped(s)) == 2 * special_count(s),
    decreases s.len(),
{
    if s.len() > 0 {
        lemma_escaped_counts(s.drop_first());
        let head = if is_special(s[0]) { seq!['\\', s[0]] } else { seq![s[0]] };
        lemma_special_count_concat(head, escaped(s.drop_first()));
        if is_special(s[0]) {
            assert(head.drop_first() =~= seq![s[0]]);
            assert(head.drop_first().drop_first() =~= Seq::<char>::empty());
            assert(is_special(head[0]));
            assert(special_count(head.drop_first().drop_first()) == 0);
            assert(special_count(head.drop_first()) == 1);
            assert(special_count(head) == 2);
        } else {
            assert(head.drop_first() =~= Seq::<char>::empty());
            assert(special_count(head.drop_first()) == 0);
            assert(special_count(head) == 0);
        }
    }
}

proof fn lemma_plain_count(s: Seq<char>)
    ensures
        is_plain(s) <==> special_count(s) == 0,
    decreases s.len(),
{
    if s.len() > 0 {
        lemma_plain_count(s.drop_first());
        if is_plain(s) {
            assert forall|i: int| 0 <= i < s.drop_first().len() implies !is_special(
                #[trigger] s.drop_first()[i],
            ) by {
                assert(s.drop_first()[i] == s[i + 1]);
            }
        }
        if special_count(s) == 0 {
            assert forall|i: int| 0 <= i < s.len() implies !is_special(#[trigger] s[i]) by {
                if i > 0 {
                    assert(s[i] == s.drop_first()[i - 1]);
                }
            }
        }
    }
}

/// Escaping leaves a string without special characters as it is.
pub proof fn lemma_escape_plain(s: Seq<char>)
    requires
        is_plain(s),
    ensures
        escaped(s) == s,
    decreases s.len(),
{
    if s.len() > 0 {
        assert(!is_special(s[0]));
        assert(is_plain(s.drop_first())) by {
            assert forall|i: int| 0 <= i < s.drop_first().len() implies !is_special(
                #[trigger] s.drop_first()[i],
            ) by {
                assert(s.drop_first()[i] == s[i + 1]);
            }
        }
        lemma_escape_plain(s.drop_first());
        assert(seq![s[0]] + s.drop_first() =~= s);
    }
}

/// Escaping an escaped string again changes nothing exactly when the
/// input held no special character (a backslash included).
pub proof fn lemma_escape_idempotent(s: Seq<char>)
    ensures
        escaped(escaped(s)) == escaped(s) <==> is_plain(s),
{
    lemma_plain_count(s);
    lemma_escaped_counts(s);
    lemma_escaped_counts(escaped(s));
    if is_plain(s) {
        lemma_escape_plain(s);
    }
}

proof fn lemma_wrap_body_single(sep: Seq<char>, s: Seq<char>, inside: bool, opener: char)
    requires
        sep.len() == 1,
    ensures
        wrap_body(sep, s, inside, opener) == escape_each(s, sep[0]),
    decreases s.len(),
{
    if s.len() > 0 {
        let st = quote_step(sep, s[0], inside, opener);
        lemma_wrap_body_single(sep, s.drop_first(), st.0, st.1);
        if sep == seq![s[0]] {
            assert(sep[0] == s[0]);
            assert(wrap_piece(sep, s[0], st.0) =~= seq!['\\', s[0]]);
        } else {
            assert(sep[0] != s[0]) by {
                if sep[0] == s[0] {
                    assert(sep =~= seq![s[0]]);
                }
            }
            assert(wrap_piece(sep, s[0], st.0) =~= seq![s[0]]);
        }
    }
}

/// With a non-empty separator the result begins and ends with it; with a
/// one-character separator, the text between is the input with a backslash
/// before each occurrence of that character, and nothing else changed.
pub proof fn lemma_wrap_encloses(sep: Seq<char>, s: Seq<char>)
    requires
        sep.len() > 0,
    ensures
        wrapped(sep, s).subrange(0, sep.len() as int) == sep,
        wrapped(sep, s).subrange(wrapped(sep, s).len() - sep.len(), wrapped(sep, s).len() as int)
            == sep,
        sep.len() == 1 ==> wrapped(sep, s) == sep + escape_each(s, sep[0]) + sep,
{
    let w = wrapped(sep, s);
    let body = wrap_body(sep, s, false, 'N');
    assert(w.subrange(0, sep.len() as int) =~= sep);
    assert(w.subrange(w.len() - sep.len(), w.len() as int) =~= sep);
    if sep.len() == 1 {
        lemma_wrap_body_single(sep, s, false, 'N');
    }
}

} // verus!
