//! The selection protocol: issues rendered as a labeled menu in their
//! original order, a choice resolved back to the issue at that index.

use vstd::prelude::*;

use crate::errors::Error;
use crate::inputs::InputProvider;
use crate::issues::{Issue, Label};
use crate::text::dec_rep;

verus! {

/// The `[name]` tag a label contributes to a rendered line.
pub open spec fn label_tag(l: Label) -> Seq<char> {
    seq!['['] + l.name@ + seq![']']
}

/// The label part of a rendered line: one ` [name]` per label, in order;
/// empty when there are no labels.
pub open spec fn labels_part(ls: Seq<Label>) -> Seq<char>
    decreases ls.len(),
{
    if ls.len() == 0 {
        Seq::empty()
    } else {
        labels_part(ls.drop_last()) + seq![' '] + label_tag(ls.last())
    }
}

/// One menu line: `#<number> <title> [<label1>] [<label2>] ...`.
pub open spec fn select_line(i: Issue) -> Seq<char> {
    seq!['#'] + dec_rep(i.number as nat) + seq![' '] + i.title@ + seq![' '] + labels_part(
        i.labels@,
    )
}

/// Renders the label part of a line.
#[verifier::loop_isolation(false)]
pub fn render_labels_text(labels: &Vec<Label>) -> (r: String)
    ensures
        r@ == labels_part(labels@),
{
    let mut out = String::new();
    let mut i: usize = 0;
    proof {
        reveal_strlit(" ");
        reveal_strlit("[");
        reveal_strlit("]");
    }
    while i < labels.len()
        invariant
            0 <= i <= labels@.len(),
            out@ == labels_part(labels@.take(i as int)),
        decreases labels@.len() - i,
    {
        out.append(" ");
        out.append("[");
        let l = vstd::slice::slice_index_get(labels.as_slice(), i);
        out.append(l.name.as_str());
        out.append("]");
        proof {
            assert(labels@.take(i + 1).drop_last() =~= labels@.take(i as int));
            assert(labels@.take(i + 1).last() == labels@[i as int]);
            assert(out@ =~= labels_part(labels@.take(i + 1)));
        }
        i = i + 1;
    }
    proof {
        assert(labels@.take(labels@.len() as int) =~= labels@);
    }
    out
}

/// Renders one issue as a menu line.
pub fn render_select_line(issue: &Issue) -> (r: String)
    ensures
        r@ == select_line(*issue),
{
    let mut out = "#".to_owned();
    proof {
        reveal_strlit("#");
        reveal_strlit(" ");
        assert("#"@ =~= seq!['#']);
        assert(" "@ =~= seq![' ']);
    }
    let digits = crate::text::u64_to_dec_string(issue.number);
    out.append(digits.as_str());
    out.append(" ");
    out.append(issue.title.as_str());
    out.append(" ");
    let labels = render_labels_text(&issue.labels);
    out.append(labels.as_str());
    proof {
        assert(out@ =~= select_line(*issue));
    }
    out
}

/// Renders every issue, in the original order.
#[verifier::loop_isolation(false)]
pub fn render_select_lines(issues: &Vec<Issue>) -> (r: Vec<String>)
    ensures
        r@.len() == issues@.len(),
        forall|i: int| 0 <= i < issues@.len() ==> #[trigger] r@[i]@ == select_line(issues@[i]),
{
    let mut lines: Vec<String> = Vec::new();
    let mut i: usize = 0;
    while i < issues.len()
        invariant
            0 <= i <= issues@.len(),
            lines@.len() == i,
            forall|k: int| 0 <= k < i ==> #[trigger] lines@[k]@ == select_line(issues@[k]),
        decreases issues@.len() - i,
    {
        let issue = vstd::slice::slice_index_get(issues.as_slice(), i);
        let line = render_select_line(issue);
        lines.push(line);
        i = i + 1;
    }
    lines
}

/// Maps a chosen index back to the same-ordered input list: for any index
/// within range the issue at that index is returned unchanged, whatever
/// its labels; an index out of range resolves to nothing.
pub fn resolve_selection<'a>(issues: &'a Vec<Issue>, choice: usize) -> (r: Option<&'a Issue>)
    ensures
        choice < issues@.len() ==> (r matches Some(issue) && *issue == issues@[choice as int]),
        choice >= issues@.len() ==> r is None,
{
    if choice < issues.len() {
        Some(vstd::slice::slice_index_get(issues.as_slice(), choice))
    } else {
        None
    }
}

/// Presents the issues as a single-choice menu and returns the chosen
/// issue by reference. An empty list fails with `NoChoicesAvailable`
/// before anything is rendered or prompted.
pub fn select_issue<'a, I: InputProvider>(
    issues: &'a Vec<Issue>,
    prompt: &str,
    input_provider: &mut I,
) -> (r: Result<&'a Issue, Error>)
    ensures
        issues@.len() == 0 ==> r == Err::<&'a Issue, Error>(Error::NoChoicesAvailable),
        r matches Ok(issue) ==> issues@.len() > 0 && exists|i: int|
            0 <= i < issues@.len() && *issue == issues@[i],
        issues@.len() > 0 ==> (r matches Err(e) ==> e == Error::PromptFailed),
{
    if issues.len() == 0 {
        return Err(Error::NoChoicesAvailable);
    }
    let lines = render_select_lines(issues);
    match input_provider.get_by_select(prompt, &lines) {
        Ok(choice) => match resolve_selection(issues, choice) {
            Some(issue) => Ok(issue),
            None => Err(Error::PromptFailed),
        },
        Err(e) => Err(e),
    }
}

} // verus!
