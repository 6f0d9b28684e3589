//! The persisted configuration: a single optional secret token. Reading
//! and writing the settings file is the binary's concern; this module
//! holds the record itself and what is computed from it.

use vstd::prelude::*;

verus! {

/// The settings record. Created empty on first run, populated by an
/// explicit token-setting action, read at the start of every
/// tracker-touching command.
#[derive(Debug, Clone)]
pub struct Config {
    pub github_token: Option<String>,
}

impl Default for Config {
    /// A fresh configuration holds no token.
    fn default() -> (r: Self)
        ensures
            r.github_token is None,
    {
        Config { github_token: None }
    }
}

impl Config {
    /// Stores the given token, replacing any previous one.
    pub fn set_github_token(&mut self, token: String)
        ensures
            final(self).github_token == Some(token),
    {
        self.github_token = Some(token);
    }
}

/// The `****` mask shown after the leading characters of a token.
pub open spec fn token_mask() -> Seq<char> {
    seq!['*', '*', '*', '*']
}

/// Renders a stored token in masked form: its first four characters
/// followed by the mask.
pub fn masked_token(token: &str) -> (r: String)
    requires
        token@.len() >= 4,
        vstd::string::is_ascii(token),
    ensures
        r@ == token@.take(4) + token_mask(),
{
    let mut out = token.substring_ascii(0, 4).to_owned();
    out.append("****");
    proof {
        reveal_strlit("****");
        assert("****"@ =~= token_mask());
    }
    out
}

} // verus!
