//! Types of the audio source resolver's contract, and validation of source
//! references.
//!
//! Resolving an identifier to a playable stream is external work: a driver
//! calls the resolver and hands the outcome back to the state machine as a
//! `Result<(), ResolveError>`. The core only derives identifiers and
//! validates them.

use vstd::prelude::*;
use vstd::string::StrSliceExecFns;
use vstd::string::StringExecFns;

verus! {

/// Why the resolver failed to produce a stream.
#[derive(Clone, Copy, PartialEq, Eq, Debug, Structural)]
pub enum ResolveError {
    /// No source exists for the identifier.
    NotFound,
    /// The source exists but could not be fetched.
    NetworkFailure,
    /// The source was fetched but cannot be played.
    UnsupportedFormat,
}

/// True if `s` begins with the marker of an http scheme.
pub open spec fn spec_has_http_prefix(s: Seq<char>) -> bool {
    s.len() >= 4 && s[0] == 'h' && s[1] == 't' && s[2] == 't' && s[3] == 'p'
}

/// Checks that a remote source reference begins with an http-scheme
/// marker; anything else is rejected before the registry or the resolver
/// is touched.
pub fn has_http_prefix(s: &str) -> (r: bool)
    ensures
        r == spec_has_http_prefix(s@),
{
    if s.unicode_len() < 4 {
        false
    } else {
        s.get_char(0) == 'h' && s.get_char(1) == 't' && s.get_char(2) == 't' && s.get_char(3)
            == 'p'
    }
}

/// The greeting identifier for `user_name` entering a channel of
/// `guild_name`: the path `<root><guild_name>/<user_name>.mp3` under the
/// audio file root.
pub fn greeting_source(root: &str, guild_name: &str, user_name: &str) -> (r: String)
    ensures
        r@ == root@ + guild_name@ + "/"@ + user_name@ + ".mp3"@,
{
    let mut r = root.to_owned();
    r.append(guild_name);
    r.append("/");
    r.append(user_name);
    r.append(".mp3");
    proof {
        assert(r@ =~= root@ + guild_name@ + "/"@ + user_name@ + ".mp3"@);
    }
    r
}

} // verus!
