//! Path completion: candidates for a partial path among the entries of the
//! directory it names.
use vstd::prelude::*;
use crate::text::{owned, push_char};
use crate::tools::{escape_path, escaped};

verus! {

/// The path separator.
pub const SEPARATOR: char = '/';

/// Whether `s` holds no path separator.
pub open spec fn has_no_separator(s: Seq<char>) -> bool {
    forall|i: int| 0 <= i < s.len() ==> s[i] != SEPARATOR
}

/// `s` with every run of adjacent separators made one: a separator that
/// another follows is dropped.
pub open spec fn collapse_double(s: Seq<char>) -> Seq<char>
    decreases s.len(),
{
    if s.len() == 0 {
        Seq::<char>::empty()
    } else if s.len() >= 2 && s[0] == SEPARATOR && s[1] == SEPARATOR {
        collapse_double(s.drop_first())
    } else {
        seq![s[0]] + collapse_double(s.drop_first())
    }
}

/// One entry of a directory listing, by name.
pub struct DirEntryName {
    pub name: String,
    pub is_dir: bool,
}

/// What a completion asks to be appended after it.
#[derive(Clone, Copy, Debug, PartialEq, Eq, Structural)]
pub enum Suffix {
    /// The caller's usual trailing behaviour (a file).
    Default,
    /// A path separator (a directory).
    Separator,
}

/// One completion candidate.
pub struct Completion {
    /// Text to insert.
    pub completion: String,
    /// Text to list instead, where the inserted text carries a directory.
    pub display: Option<String>,
    pub suffix: Suffix,
}

/// The completer for path arguments.
pub struct PathCompleter;

/// The view of an optional string.
pub open spec fn opt_view(o: Option<String>) -> Option<Seq<char>> {
    match o {
        Some(s) => Some(s@),
        None => None,
    }
}

/// Whether `p` is a prefix of `s`.
pub open spec fn is_prefix(p: Seq<char>, s: Seq<char>) -> bool {
    p.len() <= s.len() && s.subrange(0, p.len() as int) == p
}

/// Whether an entry is offered for a name prefix.
pub open spec fn offered(prefix: Seq<char>, for_dir: bool, e: DirEntryName) -> bool {
    !(for_dir && !e.is_dir) && is_prefix(prefix, e.name@)
}

/// The entries that are offered, in listing order.
pub open spec fn offered_entries(prefix: Seq<char>, for_dir: bool, es: Seq<DirEntryName>) -> Seq<DirEntryName>
    decreases es.len(),
{
    if es.len() == 0 {
        Seq::<DirEntryName>::empty()
    } else {
        let rest = offered_entries(prefix, for_dir, es.drop_last());
        if offered(prefix, for_dir, es.last()) {
            rest.push(es.last())
        } else {
            rest
        }
    }
}

/// The directory part of a path (through its last separator), if any.
pub open spec fn dir_part(path: Seq<char>) -> Option<Seq<char>>
    decreases path.len(),
{
    if path.len() == 0 {
        None
    } else if path.last() == SEPARATOR {
        Some(path)
    } else {
        dir_part(path.drop_last())
    }
}

/// The name part of a path: what follows its last separator.
pub open spec fn name_part(path: Seq<char>) -> Seq<char> {
    match dir_part(path) {
        Some(d) => path.subrange(d.len() as int, path.len() as int),
        None => path,
    }
}

/// The text inserted for an entry named `name`, under the directory part `dir`.
pub open spec fn completion_text(dir: Option<Seq<char>>, name: Seq<char>) -> Seq<char> {
    match dir {
        Some(d) => escaped(collapse_double(d + seq![SEPARATOR] + name)),
        None => escaped(collapse_double(name)),
    }
}

/// Whether `c` is the candidate for entry `e` under the directory part `dir`.
pub open spec fn is_candidate_for(c: Completion, dir: Option<Seq<char>>, e: DirEntryName) -> bool {
    &&& c.completion@ == completion_text(dir, e.name@)
    &&& opt_view(c.display) == (if dir is Some { Some(e.name@) } else { None::<Seq<char>> })
    &&& c.suffix == (if e.is_dir { Suffix::Separator } else { Suffix::Default })
}

/// Splits a path after its last separator: the directory part, if the path
/// has a separator, and the name part.
pub fn split_path(path: &str) -> (r: (Option<&str>, &str))
    ensures
        match r.0 {
            Some(d) => dir_part(path@) == Some(d@),
            None => dir_part(path@) is None,
        },
        r.1@ == name_part(path@),
{
    let n = path.unicode_len();
    let mut i: usize = n;
    assert(path@.subrange(0, n as int) =~= path@);
    while i > 0
        invariant
            n == path@.len(),
            i <= n,
            dir_part(path@) == dir_part(path@.subrange(0, i as int)),
        decreases i,
    {
        if path.get_char(i - 1) == SEPARATOR {
            let ghost p = path@.subrange(0, i as int);
            assert(p.last() == SEPARATOR);
            let d = path.substring_char(0, i);
            let f = path.substring_char(i, n);
            return (Some(d), f);
        }
        assert(path@.subrange(0, i as int).drop_last() =~= path@.subrange(0, i - 1));
        i = i - 1;
    }
    assert(path@.subrange(0, 0).len() == 0);
    (None, path)
}

/// The directory in which to look up entries for a partial path: its
/// directory part, or the current directory.
pub fn lookup_dir(path: &str) -> (r: String)
    ensures
        r@ == (match dir_part(path@) {
            Some(d) => d,
            None => seq!['.'],
        }),
{
    let (d, _) = split_path(path);
    match d {
        Some(d) => owned(d),
        None => {
            let mut r = String::new();
            push_char(&mut r, '.');
            r
        },
    }
}

/// Whether `p` is a prefix of `s`.
fn starts_with(s: &str, p: &str) -> (r: bool)
    ensures
        r == is_prefix(p@, s@),
{
    let n = s.unicode_len();
    let m = p.unicode_len();
    if m > n {
        return false;
    }
    let mut i: usize = 0;
    while i < m
        invariant
            n == s@.len(),
            m == p@.len(),
            m <= n,
            i <= m,
            forall|j: int| 0 <= j < i ==> s@[j] == p@[j],
        decreases m - i,
    {
        if s.get_char(i) != p.get_char(i) {
            assert(s@.subrange(0, m as int)[i as int] != p@[i as int]);
            return false;
        }
        i = i + 1;
    }
    assert(s@.subrange(0, m as int) =~= p@);
    true
}

/// `s` with every run of adjacent separators made one.
pub fn collapse_separators(s: &str) -> (r: String)
    ensures
        r@ == collapse_double(s@),
{
    let n = s.unicode_len();
    let mut out = String::new();
    let mut i: usize = 0;
    assert(s@.subrange(0, n as int) =~= s@);
    while i < n
        invariant
            n == s@.len(),
            i <= n,
            out@ + collapse_double(s@.subrange(i as int, n as int)) == collapse_double(s@),
        decreases n - i,
    {
        let ghost rest = s@.subrange(i as int, n as int);
        let ghost before = out@;
        assert(rest.drop_first() =~= s@.subrange(i + 1, n as int));
        let c = s.get_char(i);
        if !(c == SEPARATOR && i + 1 < n && s.get_char(i + 1) == SEPARATOR) {
            push_char(&mut out, c);
            assert(out@ =~= before + seq![c]);
        }
        i = i + 1;
    }
    assert(s@.subrange(n as int, n as int) =~= Seq::<char>::empty());
    assert(out@ =~= out@ + Seq::<char>::empty());
    out
}

/// The completion candidates for a partial path among `entries`, the
/// listing of its lookup directory, in listing order: each entry whose name
/// begins with the path's name part (and, with `for_dir`, that is a
/// directory).
pub fn complete_path(path: &str, for_dir: bool, entries: &Vec<DirEntryName>) -> (r: Vec<Completion>)
    ensures
        r@.len() == offered_entries(name_part(path@), for_dir, entries@).len(),
        forall|i: int|
            0 <= i < r@.len() ==> is_candidate_for(
                #[trigger] r@[i],
                dir_part(path@),
                offered_entries(name_part(path@), for_dir, entries@)[i],
            ),
{
    let (dir, file_name) = split_path(path);
    let ghost prefix = name_part(path@);
    let mut res: Vec<Completion> = Vec::new();
    let mut k: usize = 0;
    while k < entries.len()
        invariant
            k <= entries@.len(),
            file_name@ == prefix,
            match dir {
                Some(d) => dir_part(path@) == Some(d@),
                None => dir_part(path@) is None,
            },
            res@.len() == offered_entries(prefix, for_dir, entries@.subrange(0, k as int)).len(),
            forall|i: int|
                0 <= i < res@.len() ==> is_candidate_for(
                    #[trigger] res@[i],
                    dir_part(path@),
                    offered_entries(prefix, for_dir, entries@.subrange(0, k as int))[i],
                ),
        decreases entries@.len() - k,
    {
        let e = &entries[k];
        let ghost sub = entries@.subrange(0, k as int + 1);
        assert(sub.drop_last() =~= entries@.subrange(0, k as int));
        assert(sub.last() == *e);
        let is_dir = e.is_dir;
        if !(for_dir && !is_dir) && starts_with(e.name.as_str(), file_name) {
            let (joined, display) = match dir {
                Some(d) => {
                    let mut j = owned(d);
                    push_char(&mut j, SEPARATOR);
                    j.append(e.name.as_str());
                    assert(j@ =~= d@ + seq![SEPARATOR] + e.name@);
                    (j, Some(owned(e.name.as_str())))
                },
                None => (owned(e.name.as_str()), None),
            };
            let collapsed = collapse_separators(joined.as_str());
            let completion = escape_path(collapsed.as_str());
            let suffix = if is_dir {
                Suffix::Separator
            } else {
                Suffix::Default
            };
            let c = Completion { completion, display, suffix };
            assert(is_candidate_for(c, dir_part(path@), *e));
            res.push(c);
        }
        k = k + 1;
    }
    assert(entries@.subrange(0, entries@.len() as int) =~= entries@);
    res
}

impl PathCompleter {
    /// The candidates for `word` among `entries`, the listing of its lookup
    /// directory, files and directories alike.
    pub fn complete(&self, word: &str, entries: &Vec<DirEntryName>) -> (r: Vec<Completion>)
        ensures
            r@.len() == offered_entries(name_part(word@), false, entries@).len(),
            forall|i: int|
                0 <= i < r@.len() ==> is_candidate_for(
                    #[trigger] r@[i],
                    dir_part(word@),
                    offered_entries(name_part(word@), false, entries@)[i],
                ),
    {
        complete_path(word, false, entries)
    }
}

} // verus!
