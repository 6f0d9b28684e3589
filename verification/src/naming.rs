//! The naming conventions that tie an issue to a branch and to a review
//! request: `feature/<issue-number>` branch names and the `closes #<n>`
//! request body. The branch name is the sole link between a branch and an
//! issue, so deriving and parsing it must invert each other exactly.

use vstd::prelude::*;

use crate::errors::Error;
use crate::issues::Issue;
use crate::text::{
    all_dec_digits, dec_rep, dec_val, lemma_dec_rep_digits, lemma_dec_rep_val, parse_dec_u64,
    starts_with_seq, str_has_prefix, u64_to_dec_string,
};

verus! {

/// The fixed prefix of every issue branch: `feature/`.
pub open spec fn branch_prefix() -> Seq<char> {
    seq!['f', 'e', 'a', 't', 'u', 'r', 'e', '/']
}

/// The branch name derived from an issue number.
pub open spec fn branch_name_for(n: u64) -> Seq<char> {
    branch_prefix() + dec_rep(n as nat)
}

/// A branch name follows the convention: the prefix, then a nonempty run
/// of decimal digits whose value fits in `u64`.
pub open spec fn is_issue_branch(s: Seq<char>) -> bool {
    &&& s.len() > branch_prefix().len()
    &&& starts_with_seq(s, branch_prefix())
    &&& all_dec_digits(s.skip(branch_prefix().len() as int))
    &&& dec_val(s.skip(branch_prefix().len() as int)) <= u64::MAX
}

/// The issue number recovered from a conventional branch name.
pub open spec fn issue_branch_number(s: Seq<char>) -> nat {
    dec_val(s.skip(branch_prefix().len() as int))
}

/// The fixed line that makes the tracker close the issue on merge,
/// up to the number itself: `closes #`.
pub open spec fn closes_prefix() -> Seq<char> {
    seq!['c', 'l', 'o', 's', 'e', 's', ' ', '#']
}

/// The review request body: the description, a blank line, then the
/// closing line; only the closing line if the description is empty.
pub open spec fn pr_text_for(n: u64, desc: Seq<char>) -> Seq<char> {
    if desc.len() == 0 {
        closes_prefix() + dec_rep(n as nat)
    } else {
        desc + seq!['\n', '\n'] + closes_prefix() + dec_rep(n as nat)
    }
}

/// Derives the branch name for an issue: `feature/<number>`.
pub fn create_branch_name_from_issue(issue: &Issue) -> (r: String)
    ensures
        r@ == branch_name_for(issue.number),
{
    branch_name_for_number(issue.number)
}

/// Derives the branch name for a bare issue number.
pub fn branch_name_for_number(n: u64) -> (r: String)
    ensures
        r@ == branch_name_for(n),
{
    let mut s = "feature/".to_owned();
    proof {
        reveal_strlit("feature/");
        assert("feature/"@ =~= branch_prefix());
    }
    let digits = u64_to_dec_string(n);
    s.append(digits.as_str());
    s
}

/// Parses a branch name against the convention, recovering the issue
/// number, or reports that the branch is not an issue branch.
pub fn parse_issue_branch(branch: &str) -> (r: Result<u64, Error>)
    ensures
        is_issue_branch(branch@) ==> (r matches Ok(n) && n as nat == issue_branch_number(branch@)),
        !is_issue_branch(branch@) ==> r == Err::<u64, Error>(Error::NotAnIssueBranch),
{
    proof {
        reveal_strlit("feature/");
        assert("feature/"@ =~= branch_prefix());
    }
    if !str_has_prefix(branch, "feature/") {
        return Err(Error::NotAnIssueBranch);
    }
    let len = branch.unicode_len();
    let rest = branch.substring_char(8, len);
    proof {
        assert(rest@ =~= branch@.skip(branch_prefix().len() as int));
    }
    match parse_dec_u64(rest) {
        Some(n) => Ok(n),
        None => Err(Error::NotAnIssueBranch),
    }
}

/// Builds the review request body for an issue number and a description.
pub fn create_pr_text(issue_number: u64, desc: &str) -> (r: String)
    ensures
        r@ == pr_text_for(issue_number, desc@),
{
    let mut text = String::new();
    if !desc.is_empty() {
        text.append(desc);
        text.append("\n\n");
        proof {
            reveal_strlit("\n\n");
            assert("\n\n"@ =~= seq!['\n', '\n']);
        }
    }
    text.append("closes #");
    proof {
        reveal_strlit("closes #");
        assert("closes #"@ =~= closes_prefix());
    }
    let digits = u64_to_dec_string(issue_number);
    text.append(digits.as_str());
    proof {
        if desc@.len() == 0 {
            assert(text@ =~= pr_text_for(issue_number, desc@));
        } else {
            assert(text@ =~= pr_text_for(issue_number, desc@));
        }
    }
    text
}

/// Round-trip law: for every issue number, the derived branch name follows
/// the convention and parsing it recovers the number exactly.
pub proof fn lemma_branch_name_round_trip(n: u64)
    ensures
        is_issue_branch(branch_name_for(n)),
        issue_branch_number(branch_name_for(n)) == n as nat,
{
    lemma_dec_rep_digits(n as nat);
    lemma_dec_rep_val(n as nat);
    assert(branch_name_for(n).skip(branch_prefix().len() as int) =~= dec_rep(n as nat));
    assert(branch_name_for(n).take(branch_prefix().len() as int) =~= branch_prefix());
}

} // verus!
