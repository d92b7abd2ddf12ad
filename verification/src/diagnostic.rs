//! The diagnostic that accompanies a fatal startup failure.

use vstd::prelude::*;

verus! {

/// The fixed text that opens every startup diagnostic.
pub open spec fn failure_prefix() -> Seq<char> {
    "error while running tauri application"@
}

/// The full diagnostic for a failure with the given detail: the fixed prefix,
/// a colon and a space, then the detail as it was reported.
pub open spec fn failure_text(detail: Seq<char>) -> Seq<char> {
    failure_prefix() + ": "@ + detail
}

/// Composes the diagnostic with which the process terminates when startup
/// fails.
pub fn failure_message(detail: &str) -> (message: String)
    ensures
        message@ == failure_text(detail@),
{
    let mut message = String::from_str("error while running tauri application");
    message.append(": ");
    message.append(detail);
    message
}

/// Every diagnostic opens with the fixed prefix and closes with the failure's
/// detail, unchanged; the two are parted by a colon and a space.
pub proof fn failure_text_holds_prefix_and_detail(detail: Seq<char>)
    ensures
        failure_text(detail).len() == failure_prefix().len() + 2 + detail.len(),
        failure_text(detail).subrange(0, failure_prefix().len() as int) == failure_prefix(),
        failure_text(detail).subrange(
            (failure_prefix().len() + 2) as int,
            failure_text(detail).len() as int,
        ) == detail,
{
    reveal_strlit(": ");
    let text = failure_text(detail);
    assert(text.subrange(0, failure_prefix().len() as int) =~= failure_prefix());
    assert(text.subrange((failure_prefix().len() + 2) as int, text.len() as int) =~= detail);
}

} // verus!
