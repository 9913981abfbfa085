//! URLs as text: parsing, resolving, and what makes a URL a base.

use vstd::prelude::*;
use vstd::string::*;

verus! {

/// `url::ParseError`, which is carried into [`crate::Error::InvalidUrl`] as
/// it comes.
#[verifier::external_type_specification]
#[verifier::external_body]
pub struct ExUrlParseError(url::ParseError);

/// The normal form of the URL that the `url` crate reads from `input`, or
/// its error.
pub uninterp spec fn url_parsed(input: Seq<char>) -> Result<Seq<char>, url::ParseError>;

/// The normal form of the URL that the `url` crate gets by reading `base` and
/// resolving `reference` against it, or its error.
pub uninterp spec fn url_joined(base: Seq<char>, reference: Seq<char>) -> Result<
    Seq<char>,
    url::ParseError,
>;

/// The position of the first `:` at or after `start`, or the end of `text`
/// where there is none.
pub open spec fn first_colon(text: Seq<char>, start: int) -> int
    decreases text.len() - start,
{
    if start < 0 || start >= text.len() || text[start] == ':' {
        start
    } else {
        first_colon(text, start + 1)
    }
}

/// Whether relative references can be resolved against the URL `text`: a
/// `/` follows its scheme and the `:` that ends it. (For a URL in normal
/// form this is when `url::Url::cannot_be_a_base` is false.) It holds of
/// `http://host/` and `unix:/run/foo.socket`, not of `mailto:a@example.com`
/// or `data:text/plain,Stuff`.
pub open spec fn can_be_base(text: Seq<char>) -> bool {
    let colon = first_colon(text, 0);
    colon + 1 < text.len() && text[colon + 1] == '/'
}

/// The first `:` is a `:`, and none stands before it.
pub proof fn lemma_first_colon_is_first(text: Seq<char>, start: int)
    requires
        0 <= start <= text.len(),
    ensures
        start <= first_colon(text, start) <= text.len(),
        first_colon(text, start) < text.len() ==> text[first_colon(text, start)] == ':',
        forall|i: int| start <= i < first_colon(text, start) ==> text[i] != ':',
    decreases text.len() - start,
{
    if start < text.len() && text[start] != ':' {
        lemma_first_colon_is_first(text, start + 1);
    }
}

/// Decides [`can_be_base`].
pub fn is_base(text: &str) -> (answer: bool)
    ensures
        answer == can_be_base(text@),
{
    let length = text.unicode_len();
    let mut at: usize = 0;
    while at < length
        invariant
            at <= length,
            length == text@.len(),
            first_colon(text@, 0) == first_colon(text@, at as int),
        decreases length - at,
    {
        if text.get_char(at) == ':' {
            return at + 1 < length && text.get_char(at + 1) == '/';
        }
        at += 1;
    }
    false
}

/// Calls `url::Url::parse` and takes the URL's serialization out of it. The
/// contract only names the outcome: the same text gives the same URL, or the
/// same error.
#[verifier::external_body]
pub(crate) fn parse_url(input: &str) -> (outcome: Result<String, url::ParseError>)
    ensures
        match outcome {
            Ok(text) => url_parsed(input@) == Ok::<Seq<char>, url::ParseError>(text@),
            Err(error) => url_parsed(input@) == Err::<Seq<char>, url::ParseError>(error),
        },
{
    url::Url::parse(input).map(String::from)
}

/// Makes a `url::Url` of `base` with `Url::parse`, calls `Url::join` on it
/// with `reference`, and takes the serialization out of the result. The
/// contract only names the outcome: the same two texts give the same URL, or
/// the same error.
#[verifier::external_body]
pub(crate) fn join_url(base: &str, reference: &str) -> (outcome: Result<String, url::ParseError>)
    ensures
        match outcome {
            Ok(text) => url_joined(base@, reference@) == Ok::<Seq<char>, url::ParseError>(text@),
            Err(error) => url_joined(base@, reference@) == Err::<Seq<char>, url::ParseError>(error),
        },
{
    url::Url::parse(base)?.join(reference).map(String::from)
}

} // verus!
