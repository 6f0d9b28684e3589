//! The listing view: open issues formatted for display, one line per
//! issue, plus the heading above them.

use vstd::prelude::*;

use crate::issues::Issue;
use crate::select::labels_part;
use crate::text::dec_rep;

verus! {

/// One listing line: `#<number> <title>` followed by ` [<label>]` tags.
pub open spec fn list_line(i: Issue) -> Seq<char> {
    seq!['#'] + dec_rep(i.number as nat) + seq![' '] + i.title@ + labels_part(i.labels@)
}

/// The heading above the listing:
/// `Open issues in <owner>/<name> - #<count>`.
pub open spec fn list_heading(owner: Seq<char>, name: Seq<char>, count: nat) -> Seq<char> {
    "Open issues in "@ + owner + "/"@ + name + " - #"@ + dec_rep(count)
}

/// Renders one issue as a listing line.
pub fn render_list_line(issue: &Issue) -> (r: String)
    ensures
        r@ == list_line(*issue),
{
    let mut out = "#".to_owned();
    proof {
        reveal_strlit("#");
        reveal_strlit(" ");
        assert("#"@ =~= seq!['#']);
        assert(" "@ =~= seq![' ']);
    }
    let digits = crate::text::u64_to_dec_string(issue.number);
    out.append(digits.as_str());
    out.append(" ");
    out.append(issue.title.as_str());
    let labels = crate::select::render_labels_text(&issue.labels);
    out.append(labels.as_str());
    proof {
        assert(out@ =~= list_line(*issue));
    }
    out
}

/// Renders every open issue for display, in the original order.
#[verifier::loop_isolation(false)]
pub fn render_issue_list(issues: &Vec<Issue>) -> (r: Vec<String>)
    ensures
        r@.len() == issues@.len(),
        forall|i: int| 0 <= i < issues@.len() ==> #[trigger] r@[i]@ == list_line(issues@[i]),
{
    let mut lines: Vec<String> = Vec::new();
    let mut i: usize = 0;
    while i < issues.len()
        invariant
            0 <= i <= issues@.len(),
            lines@.len() == i,
            forall|k: int| 0 <= k < i ==> #[trigger] lines@[k]@ == list_line(issues@[k]),
        decreases issues@.len() - i,
    {
        let issue = vstd::slice::slice_index_get(issues.as_slice(), i);
        let line = render_list_line(issue);
        lines.push(line);
        i = i + 1;
    }
    lines
}

/// Renders the heading above the listing.
pub fn render_list_heading(owner: &str, name: &str, count: u64) -> (r: String)
    ensures
        r@ == list_heading(owner@, name@, count as nat),
{
    let mut out = "Open issues in ".to_owned();
    out.append(owner);
    out.append("/");
    out.append(name);
    out.append(" - #");
    let digits = crate::text::u64_to_dec_string(count);
    out.append(digits.as_str());
    out
}

} // verus!
