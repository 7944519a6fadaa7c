//! Picking the transcript fragment out of a backend response line and
//! appending it to the transcript.

use crate::buffer_texto::BufferTexto;
use crate::erro::ConnectionError;
use crate::recent::keep_last;
use vstd::prelude::*;

verus! {

#[verifier::external_type_specification]
#[verifier::external_body]
pub struct ExRegexError(regex::Error);

/// The shape of a response line: an integer, one whitespace character, an
/// integer, one whitespace character, then the fragment up to a newline.
pub const LINE_PATTERN: &'static str = r"^\d*\s\d*\s(.*)\n";

/// The capture group of `LINE_PATTERN` that holds the fragment.
pub const FRAGMENT_GROUP: usize = 1;

/// How often the backend is polled for a response, in milliseconds.
pub const POLL_INTERVAL_MS: u64 = 100;

/// What the `regex` engine makes of `pattern` on `haystack`: `None` where it
/// refuses the pattern; else `Some(None)` where the leftmost match does not
/// exist or `group` took no part in it; else the text that `group` matched.
pub uninterp spec fn regex_capture(pattern: Seq<char>, haystack: Seq<char>, group: nat) -> Option<
    Option<Seq<char>>,
>;

/// The fragment that a response carries, if it has the shape of a line.
pub open spec fn line_fragment(text: Seq<char>) -> Option<Seq<char>> {
    match regex_capture(LINE_PATTERN@, text, FRAGMENT_GROUP as nat) {
        Some(Some(fragment)) => Some(fragment),
        _ => None,
    }
}

/// The transcript after a response's fragment, if any, has been appended.
pub open spec fn appended(transcript: Seq<char>, limit: nat, fragment: Option<Seq<char>>) -> Seq<
    char,
> {
    match fragment {
        Some(f) => keep_last(transcript + f, limit),
        None => transcript,
    }
}

/// `regex::Regex::new` on `pattern`, then `Regex::captures` on `haystack`
/// and `Captures::get` for `group`. The result is what the engine returns
/// and nothing is claimed of it but that it is the engine's answer for
/// these three arguments.
#[verifier::external_body]
fn capture_group(pattern: &str, haystack: &str, group: usize) -> (r: Result<
    Option<String>,
    regex::Error,
>)
    ensures
        match r {
            Ok(Some(text)) => regex_capture(pattern@, haystack@, group as nat) == Some(
                Some(text@),
            ),
            Ok(None) => regex_capture(pattern@, haystack@, group as nat) == Some(
                None::<Seq<char>>,
            ),
            Err(_) => regex_capture(pattern@, haystack@, group as nat) is None,
        },
{
    let re = regex::Regex::new(pattern)?;
    Ok(re.captures(haystack).and_then(|c| c.get(group)).map(|m| m.as_str().to_string()))
}

/// The fragment of a response that has the shape of a line; `None` for
/// anything else.
pub fn extract_fragment(text: &str) -> (fragment: Option<String>)
    ensures
        fragment is Some <==> line_fragment(text@) is Some,
        fragment matches Some(f) ==> line_fragment(text@) == Some(f@),
{
    match capture_group(LINE_PATTERN, text, FRAGMENT_GROUP) {
        Ok(Some(fragment)) => Some(fragment),
        Ok(None) => None,
        Err(_) => None,
    }
}

/// Appends an extracted fragment to the transcript; without one the
/// transcript stays as it is.
pub fn append_fragment(buffer: &mut BufferTexto, fragment: Option<String>)
    ensures
        final(buffer).limit() == old(buffer).limit(),
        final(buffer)@ == appended(
            old(buffer)@,
            old(buffer).limit(),
            match fragment {
                Some(f) => Some(f@),
                None => None,
            },
        ),
{
    match fragment {
        Some(f) => buffer.push(f.as_str()),
        None => {},
    }
}

/// One polling cycle: a failed read is skipped, text that is no line is
/// discarded, and the fragment of a line is appended to the transcript.
pub fn receive(buffer: &mut BufferTexto, read: Result<String, ConnectionError>)
    ensures
        final(buffer).limit() == old(buffer).limit(),
        final(buffer)@ == match read {
            Ok(text) => appended(old(buffer)@, old(buffer).limit(), line_fragment(text@)),
            Err(_) => old(buffer)@,
        },
{
    match read {
        Ok(text) => {
            let fragment = extract_fragment(text.as_str());
            append_fragment(buffer, fragment);
        },
        Err(_) => {},
    }
}

} // verus!
