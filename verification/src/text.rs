//! Small string helpers shared by the modules.
use vstd::prelude::*;
use vstd::string::StringExecFns;

verus! {

/// The text of an optional string.
pub open spec fn opt_text(value: Option<String>) -> Option<Seq<char>> {
    match value {
        Some(text) => Some(text@),
        None => None,
    }
}

/// The text of an optional string slice.
pub open spec fn opt_str_text(value: Option<&str>) -> Option<Seq<char>> {
    match value {
        Some(text) => Some(text@),
        None => None,
    }
}

/// Borrows an optional string as an optional string slice.
pub fn as_opt_str(value: &Option<String>) -> (text: Option<&str>)
    ensures
        opt_str_text(text) == opt_text(*value),
        match *value {
            Some(held) => text matches Some(found) && found@ == held@,
            None => text is None,
        },
{
    match value {
        Some(text) => Some(text.as_str()),
        None => None,
    }
}

/// `context: detail`, the form in which a failure is reported.
pub open spec fn with_context(context: Seq<char>, detail: Seq<char>) -> Seq<char> {
    context + ": "@ + detail
}

/// Joins a context and a detail as `context: detail`.
pub fn contextual(context: &str, detail: &str) -> (joined: String)
    ensures
        joined@ == with_context(context@, detail@),
        joined@ == context@ + ": "@ + detail@,
{
    let mut joined = context.to_owned();
    joined.append(": ");
    joined.append(detail);
    joined
}

/// Whether two strings hold the same text.
pub fn same_text(left: &str, right: &str) -> (same: bool)
    ensures
        same == (left@ == right@),
{
    left.to_owned() == right.to_owned()
}

/// A failure is reported as its context, a colon, a space and its detail, all of
/// them whole.
pub proof fn law_report_keeps_context_and_detail(context: Seq<char>, detail: Seq<char>)
    ensures
        with_context(context, detail).len() == context.len() + 2 + detail.len(),
        with_context(context, detail).take(context.len() as int) == context,
        with_context(context, detail)[context.len() as int] == ':',
        with_context(context, detail)[(context.len() + 1) as int] == ' ',
        with_context(context, detail).skip((context.len() + 2) as int) == detail,
{
    reveal_strlit(": ");
    assert(with_context(context, detail).take(context.len() as int) =~= context);
    assert(with_context(context, detail).skip((context.len() + 2) as int) =~= detail);
}

/// Reading an optional text keeps whether there is one, and what it says.
pub proof fn law_optional_texts_keep_their_text(text: String, slice: &str)
    ensures
        opt_text(Some(text)) == Some(text@),
        opt_text(None) is None,
        opt_str_text(Some(slice)) == Some(slice@),
        opt_str_text(None) is None,
{
}

} // verus!
