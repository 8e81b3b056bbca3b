//! Text filters for rendering a stat block with askama.

use crate::text::{exchanged, lemma_replaced_single, str_replace};
use vstd::prelude::*;

verus! {

/// The error of askama's filters and templates. The filters here never build one.
#[verifier::external_type_specification]
#[verifier::external_body]
pub struct ExTemplateError(askama::Error);

/// The text of the value where there is one, the empty text where there is none.
/// It never fails.
pub fn display_some(value: &Option<String>) -> (shown: Result<String, askama::Error>)
    ensures
        shown is Ok,
        shown->Ok_0@ == (match *value {
            Some(text) => text@,
            None => Seq::<char>::empty(),
        }),
{
    Ok(
        match value {
            Some(text) => text.clone(),
            None => String::new(),
        },
    )
}

/// The text with a space in place of each dash. It never fails.
pub fn dash_to_space(s: &str) -> (spaced: Result<String, askama::Error>)
    ensures
        spaced is Ok,
        spaced->Ok_0@ == exchanged(s@, '-', ' '),
{
    proof {
        reveal_strlit("-");
        reveal_strlit(" ");
        assert("-"@ =~= seq!['-']);
        assert(" "@ =~= seq![' ']);
        lemma_replaced_single(s@, '-', ' ');
    }
    Ok(str_replace(s, "-", " "))
}

} // verus!
