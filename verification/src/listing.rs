//! The listing of a category's branches, the current one marked.

use vstd::prelude::*;
use vstd::string::*;
use crate::error::texts;
use crate::text::{join2, join3, same_text};

verus! {

/// The text that `str::replace` makes of `s` by replacing every match of
/// `from` with `to`.
pub uninterp spec fn replaced_text(s: Seq<char>, from: Seq<char>, to: Seq<char>) -> Seq<char>;

/// The text that `str::trim` leaves of `s`.
pub uninterp spec fn trimmed_text(s: Seq<char>) -> Seq<char>;

/// `str::replace` with a string as the pattern: the result is the text that
/// the function makes of its three arguments, which depends on them alone.
#[verifier::external_body]
pub(crate) fn replace_all(s: &str, from: &str, to: &str) -> (r: String)
    ensures
        r@ == replaced_text(s@, from@, to@),
{
    s.replace(from, to)
}

/// `str::trim`, as an owned string: the result is the text that the function
/// leaves of its argument, which depends on the argument alone.
#[verifier::external_body]
pub(crate) fn trim(s: &str) -> (r: String)
    ensures
        r@ == trimmed_text(s@),
{
    s.trim().to_string()
}

/// What the head file holds in front of the short name of a branch that lies
/// in `directory`.
pub open spec fn head_lead_text(directory: Seq<char>) -> Seq<char> {
    "ref: refs/heads/"@ + directory + "/"@
}

/// The short name of the current branch as the head file gives it for the
/// branches in `directory`: the file's text without the lead, trimmed.
pub open spec fn current_text(directory: Seq<char>, head: Seq<char>) -> Seq<char> {
    trimmed_text(replaced_text(head, head_lead_text(directory), Seq::empty()))
}

/// The line that lists a branch: marked where it is the current one.
pub open spec fn listed_line(current: Seq<char>, name: Seq<char>) -> Seq<char> {
    if name == current {
        "* "@ + name
    } else {
        "  "@ + name
    }
}

/// The lines that list branches, one for each and in their order.
pub open spec fn listed(current: Seq<char>, names: Seq<Seq<char>>) -> Seq<Seq<char>> {
    Seq::new(names.len(), |i: int| listed_line(current, names[i]))
}

/// What is shown where a category has no branches.
pub open spec fn nothing_listed_text(directory: Seq<char>) -> Seq<char> {
    "No "@ + directory + " branches exist."@
}

/// The listing of a category's branches: a line for each name, or one line
/// that says that there are none where the category has no directory.
pub open spec fn listing(directory: Seq<char>, head: Seq<char>, names: Option<Seq<Seq<char>>>)
    -> Seq<Seq<char>> {
    match names {
        Some(n) => listed(current_text(directory, head), n),
        None => seq![nothing_listed_text(directory)],
    }
}

/// The short name of the current branch as the head file gives it.
pub fn current_branch(directory: &str, head_contents: &str) -> (r: String)
    ensures
        r@ == current_text(directory@, head_contents@),
{
    let lead = join3("ref: refs/heads/", directory, "/");
    let bare = replace_all(head_contents, lead.as_str(), "");
    proof {
        reveal_strlit("");
        assert(""@ =~= Seq::<char>::empty());
    }
    trim(bare.as_str())
}

/// Lists `names` in their order, the one that equals `current` marked.
pub fn mark_branches(current: &str, names: &Vec<String>) -> (r: Vec<String>)
    ensures
        texts(r@) == listed(current@, texts(names@)),
{
    let mut out: Vec<String> = Vec::new();
    let mut i: usize = 0;
    while i < names.len()
        invariant
            i <= names.len(),
            out@.len() == i,
            forall|k: int| 0 <= k < i ==> (#[trigger] out@[k])@ == listed_line(current@, names@[k]@),
        decreases names.len() - i,
    {
        let line = if same_text(names[i].as_str(), current) {
            join2("* ", names[i].as_str())
        } else {
            join2("  ", names[i].as_str())
        };
        out.push(line);
        i += 1;
    }
    assert(texts(out@) =~= listed(current@, texts(names@)));
    out
}

/// The listing of the branches of a category whose references lie in
/// `directory`, given what the head file holds and the names found in the
/// directory, or none where there is no such directory.
pub fn list_branches(directory: &str, head_contents: &str, names: Option<&Vec<String>>) -> (r: Vec<
    String,
>)
    ensures
        texts(r@) == listing(
            directory@,
            head_contents@,
            match names {
                Some(n) => Some(texts(n@)),
                None => None,
            },
        ),
{
    match names {
        Some(n) => {
            let current = current_branch(directory, head_contents);
            mark_branches(current.as_str(), n)
        },
        None => {
            let mut out: Vec<String> = Vec::new();
            out.push(join3("No ", directory, " branches exist."));
            assert(texts(out@) =~= seq![nothing_listed_text(directory@)]);
            out
        },
    }
}

/// A listing has a line for each name, and marks exactly the names that
/// equal the current one.
pub proof fn listing_marks_current(current: Seq<char>, names: Seq<Seq<char>>, i: int)
    requires
        0 <= i < names.len(),
    ensures
        listed(current, names).len() == names.len(),
        listed(current, names)[i].len() == names[i].len() + 2,
        listed(current, names)[i].subrange(2, names[i].len() as int + 2) == names[i],
        listed(current, names)[i][0] == '*' <==> names[i] == current,
{
    reveal_strlit("* ");
    reveal_strlit("  ");
    let line = listed(current, names)[i];
    assert(line.subrange(2, names[i].len() as int + 2) =~= names[i]);
}

} // verus!
