use vstd::prelude::*;
use vstd::string::StringExecFns;

verus! {

/// The uppercase form of a character sequence under the platform's default
/// (Unicode) case mapping, as `str::to_uppercase` computes it.
pub uninterp spec fn upper_of(s: Seq<char>) -> Seq<char>;

/// The banner for a message: three asterisks, one space, the uppercased
/// message, one space, three asterisks.
pub open spec fn banner_chars(s: Seq<char>) -> Seq<char> {
    "*** "@ + upper_of(s) + " ***"@
}

/// Relies on `str::to_uppercase`: the uppercase equivalent of the text under
/// the platform's default case mapping, a function of the characters alone.
#[verifier::external_body]
fn to_upper(s: &str) -> (r: String)
    ensures
        r@ == upper_of(s@),
{
    s.to_uppercase()
}

/// Uppercases the message and wraps it in a decorative border.
pub fn banner(message: &str) -> (r: String)
    ensures
        r@ == banner_chars(message@),
{
    let up = to_upper(message);
    let mut r = "*** ".to_owned();
    r.append(up.as_str());
    r.append(" ***");
    r
}

/// Law: the banner is exactly eight characters longer than the uppercased
/// message; whenever uppercasing preserves the character count, it is eight
/// characters longer than the message itself.
pub proof fn lemma_banner_len(s: Seq<char>)
    ensures
        banner_chars(s).len() == upper_of(s).len() + 8,
        upper_of(s).len() == s.len() ==> banner_chars(s).len() == s.len() + 8,
{
    reveal_strlit("*** ");
    reveal_strlit(" ***");
}

} // verus!
