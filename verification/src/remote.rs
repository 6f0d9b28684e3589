//! Remote URL handling: normalizing the primary remote's URL to its HTTPS
//! form and extracting the owner and repository names from its path.

use vstd::prelude::*;

use crate::errors::Error;
use crate::text::{ends_with_seq, starts_with_seq, str_has_prefix, str_has_suffix};

verus! {

/// The SSH remote shape: `git@github.com:`.
pub open spec fn ssh_prefix() -> Seq<char> {
    seq!['g', 'i', 't', '@', 'g', 'i', 't', 'h', 'u', 'b', '.', 'c', 'o', 'm', ':']
}

/// The HTTPS remote shape: `https://github.com/`.
pub open spec fn https_prefix() -> Seq<char> {
    seq![
        'h', 't', 't', 'p', 's', ':', '/', '/', 'g', 'i', 't', 'h', 'u', 'b', '.', 'c', 'o',
        'm', '/',
    ]
}

/// The `.git` suffix that remotes commonly carry.
pub open spec fn git_suffix() -> Seq<char> {
    seq!['.', 'g', 'i', 't']
}

/// `s` with every trailing `.git` repetition removed.
pub open spec fn strip_git_suffix(s: Seq<char>) -> Seq<char>
    decreases s.len(),
{
    if ends_with_seq(s, git_suffix()) {
        strip_git_suffix(s.take(s.len() - 4))
    } else {
        s
    }
}

/// `s` with every leading `https://github.com/` repetition removed.
pub open spec fn strip_https_prefix(s: Seq<char>) -> Seq<char>
    decreases s.len(),
{
    if starts_with_seq(s, https_prefix()) {
        strip_https_prefix(s.skip(19))
    } else {
        s
    }
}

/// `s` with every leading `git@github.com:` repetition removed.
pub open spec fn strip_ssh_prefix(s: Seq<char>) -> Seq<char>
    decreases s.len(),
{
    if starts_with_seq(s, ssh_prefix()) {
        strip_ssh_prefix(s.skip(15))
    } else {
        s
    }
}

/// The index of the first `c` at or after `from`, or the length if none.
pub open spec fn find_char_from(s: Seq<char>, c: char, from: int) -> int
    decreases s.len() - from,
{
    if from < 0 || from >= s.len() {
        s.len() as int
    } else if s[from] == c {
        from
    } else {
        find_char_from(s, c, from + 1)
    }
}

/// The first two `/`-separated segments of a path, if the path has at
/// least two (that is, contains at least one `/`).
pub open spec fn first_two_segments(path: Seq<char>) -> Option<(Seq<char>, Seq<char>)> {
    let i = find_char_from(path, '/', 0);
    if i == path.len() {
        None
    } else {
        Some((path.take(i), path.subrange(i + 1, find_char_from(path, '/', i + 1))))
    }
}

/// A remote URL normalized: the SSH shape rewritten to HTTPS, and any
/// trailing `.git` stripped in all cases.
pub open spec fn normalized_remote_url(s: Seq<char>) -> Seq<char> {
    if starts_with_seq(s, ssh_prefix()) {
        https_prefix() + strip_git_suffix(s.skip(15))
    } else {
        strip_git_suffix(s)
    }
}

/// The owner and repository names a remote URL yields, if it has the
/// HTTPS or the SSH shape and carries at least two path segments.
pub open spec fn owner_and_repo(url: Seq<char>) -> Option<(Seq<char>, Seq<char>)> {
    if starts_with_seq(url, https_prefix()) && first_two_segments(strip_https_prefix(url))
        is Some {
        first_two_segments(strip_https_prefix(url))
    } else if starts_with_seq(url, ssh_prefix()) && first_two_segments(
        strip_git_suffix(strip_ssh_prefix(url)),
    ) is Some {
        first_two_segments(strip_git_suffix(strip_ssh_prefix(url)))
    } else {
        None
    }
}

/// Removes every trailing `.git` repetition.
#[verifier::loop_isolation(false)]
fn trim_git_suffix<'a>(s: &'a str) -> (r: &'a str)
    ensures
        r@ == strip_git_suffix(s@),
{
    proof {
        reveal_strlit(".git");
        assert(".git"@ =~= git_suffix());
    }
    let mut t: &'a str = s;
    let mut has = str_has_suffix(t, ".git");
    while has
        invariant
            has == ends_with_seq(t@, git_suffix()),
            strip_git_suffix(t@) == strip_git_suffix(s@),
        decreases t@.len(),
    {
        let tl = t.unicode_len();
        t = t.substring_char(0, tl - 4);
        has = str_has_suffix(t, ".git");
    }
    t
}

/// Removes every leading repetition of `https://github.com/`.
#[verifier::loop_isolation(false)]
fn trim_https_prefix<'a>(s: &'a str) -> (r: &'a str)
    ensures
        r@ == strip_https_prefix(s@),
{
    proof {
        reveal_strlit("https://github.com/");
        assert("https://github.com/"@ =~= https_prefix());
    }
    let mut t: &'a str = s;
    let mut has = str_has_prefix(t, "https://github.com/");
    while has
        invariant
            has == starts_with_seq(t@, https_prefix()),
            strip_https_prefix(t@) == strip_https_prefix(s@),
        decreases t@.len(),
    {
        let tl = t.unicode_len();
        t = t.substring_char(19, tl);
        has = str_has_prefix(t, "https://github.com/");
    }
    t
}

/// Removes every leading repetition of `git@github.com:`.
#[verifier::loop_isolation(false)]
fn trim_ssh_prefix<'a>(s: &'a str) -> (r: &'a str)
    ensures
        r@ == strip_ssh_prefix(s@),
{
    proof {
        reveal_strlit("git@github.com:");
        assert("git@github.com:"@ =~= ssh_prefix());
    }
    let mut t: &'a str = s;
    let mut has = str_has_prefix(t, "git@github.com:");
    while has
        invariant
            has == starts_with_seq(t@, ssh_prefix()),
            strip_ssh_prefix(t@) == strip_ssh_prefix(s@),
        decreases t@.len(),
    {
        let tl = t.unicode_len();
        t = t.substring_char(15, tl);
        has = str_has_prefix(t, "git@github.com:");
    }
    t
}

/// Normalizes a remote URL: SSH-style `git@github.com:owner/repo.git` is
/// rewritten to the equivalent HTTPS form, and a trailing `.git` suffix is
/// stripped in all cases.
pub fn normalize_github_url(url: &str) -> (r: String)
    ensures
        r@ == normalized_remote_url(url@),
{
    proof {
        reveal_strlit("git@github.com:");
        assert("git@github.com:"@ =~= ssh_prefix());
    }
    if str_has_prefix(url, "git@github.com:") {
        let len = url.unicode_len();
        let rest = url.substring_char(15, len);
        let trimmed = trim_git_suffix(rest);
        let mut out = "https://github.com/".to_owned();
        proof {
            reveal_strlit("https://github.com/");
            assert("https://github.com/"@ =~= https_prefix());
        }
        out.append(trimmed);
        out
    } else {
        let t = trim_git_suffix(url);
        t.to_owned()
    }
}

/// Establishes where the first occurrence of `c` at or after `from` lies.
proof fn lemma_find_char_from(s: Seq<char>, c: char, from: int, i: int)
    requires
        0 <= from <= i <= s.len(),
        forall|k: int| from <= k < i ==> s[k] != c,
        i < s.len() ==> s[i] == c,
    ensures
        find_char_from(s, c, from) == if i < s.len() {
            i
        } else {
            s.len() as int
        },
    decreases i - from,
{
    if from < i {
        lemma_find_char_from(s, c, from + 1, i);
    }
}

/// Finds the first `/` at or after `from`, or the length if none.
#[verifier::loop_isolation(false)]
fn find_slash(s: &str, from: usize) -> (r: usize)
    requires
        from <= s@.len(),
    ensures
        r == find_char_from(s@, '/', from as int),
        from <= r <= s@.len(),
        r < s@.len() ==> s@[r as int] == '/',
{
    let len = s.unicode_len();
    let mut i: usize = from;
    while i < len
        invariant
            from <= i <= len,
            forall|k: int| from <= k < i ==> s@[k] != '/',
        decreases len - i,
    {
        let c = s.get_char(i);
        if c == '/' {
            proof {
                lemma_find_char_from(s@, '/', from as int, i as int);
            }
            return i;
        }
        i = i + 1;
    }
    proof {
        lemma_find_char_from(s@, '/', from as int, len as int);
    }
    len
}

/// Splits a path at its first two `/` separators, taking the first two
/// segments as owned strings.
fn split_first_two(path: &str) -> (r: Option<(String, String)>)
    ensures
        first_two_segments(path@) matches Some((a, b)) ==> (r matches Some((x, y)) && x@ == a
            && y@ == b),
        first_two_segments(path@) is None ==> r is None,
{
    let len = path.unicode_len();
    let i = find_slash(path, 0);
    if i == len {
        return None;
    }
    let j = find_slash(path, i + 1);
    let a = path.substring_char(0, i).to_owned();
    let b = path.substring_char(i + 1, j).to_owned();
    proof {
        assert(a@ =~= path@.take(i as int));
    }
    Some((a, b))
}

/// Extracts (owner, repository name) from a remote URL, recognizing the
/// HTTPS path shape and the SSH path shape; any other shape fails with
/// `UnparsableRemoteURL`.
pub fn parse_github_owner_and_repo(url: &str) -> (r: Result<(String, String), Error>)
    ensures
        owner_and_repo(url@) matches Some((o, n)) ==> (r matches Ok((os, ns)) && os@ == o && ns@
            == n),
        owner_and_repo(url@) is None ==> r == Err::<(String, String), Error>(
            Error::UnparsableRemoteURL,
        ),
{
    proof {
        reveal_strlit("https://github.com/");
        assert("https://github.com/"@ =~= https_prefix());
        reveal_strlit("git@github.com:");
        assert("git@github.com:"@ =~= ssh_prefix());
    }
    if str_has_prefix(url, "https://github.com/") {
        let path = trim_https_prefix(url);
        match split_first_two(path) {
            Some(pair) => {
                return Ok(pair);
            },
            None => {},
        }
    }
    if str_has_prefix(url, "git@github.com:") {
        let path = trim_ssh_prefix(url);
        let path = trim_git_suffix(path);
        match split_first_two(path) {
            Some(pair) => {
                return Ok(pair);
            },
            None => {},
        }
    }
    Err(Error::UnparsableRemoteURL)
}

} // verus!
