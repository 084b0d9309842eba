use vstd::prelude::*;
use vstd::string::StringExecFns;
use crate::worker::{Progress, Status};

verus! {

/// The text `indicatif::HumanBytes` shows for a byte count.
pub uninterp spec fn human_bytes_text(n: u64) -> Seq<char>;

/// Relies on the `Display` of `indicatif::HumanBytes`: the text depends on the
/// count alone.
#[verifier::external_body]
fn human_bytes(n: u64) -> (r: String)
    ensures
        r@ == human_bytes_text(n),
{
    format!("{}", indicatif::HumanBytes(n))
}

/// The line shown for a target: its name, then `amount` (the bytes written,
/// as text) while it runs, `complete` once full, or the reason it failed.
pub open spec fn compose(target: Seq<char>, status: Status, amount: Seq<char>) -> Seq<char> {
    target + ": "@ + match status {
        Status::Pending => "waiting"@,
        Status::Running => amount,
        Status::Failed(reason) => "failed: "@ + reason@,
        Status::Complete => "complete"@,
    }
}

/// The line shown for a target with the given progress record.
pub open spec fn line_text(target: Seq<char>, p: Progress) -> Seq<char> {
    compose(target, p.status, human_bytes_text(p.bytes_written as u64))
}

/// Renders a target's line from its status and the byte count already
/// written out as text.
pub fn compose_line(target: &str, status: &Status, amount: &str) -> (r: String)
    ensures
        r@ == compose(target@, *status, amount@),
{
    let mut line = String::from_str(target);
    line.append(": ");
    match status {
        Status::Pending => line.append("waiting"),
        Status::Running => line.append(amount),
        Status::Failed(reason) => {
            line.append("failed: ");
            line.append(reason.as_str());
        },
        Status::Complete => line.append("complete"),
    }
    proof {
        reveal_strlit(": ");
        reveal_strlit("waiting");
        reveal_strlit("failed: ");
        reveal_strlit("complete");
    }
    line
}

/// Renders the line shown for a target from its progress record.
pub fn status_line(target: &str, p: &Progress) -> (r: String)
    ensures
        r@ == line_text(target@, *p),
{
    let amount = human_bytes(p.bytes_written as u64);
    compose_line(target, &p.status, amount.as_str())
}

} // verus!
