//! The one-shot channels on which answers travel back to whoever asked.

use vstd::prelude::*;

verus! {

/// The sending half of tokio's one-shot channel.  Nothing is known of what
/// is inside; a value of this type is only carried around and handed to
/// `send`.
#[verifier::external_type_specification]
#[verifier::external_body]
#[verifier::reject_recursive_types(T)]
pub struct ExSender<T>(tokio::sync::oneshot::Sender<T>);

/// `tokio::sync::oneshot::Sender::send` uses the sender up and either
/// accepts the value or, when the receiving half is gone, hands the very
/// same value back.  Whether it is accepted depends on the receiver alone,
/// so nothing is claimed about that.
pub assume_specification<T>[ tokio::sync::oneshot::Sender::<T>::send ](
    sender: tokio::sync::oneshot::Sender<T>,
    t: T,
) -> (sent: Result<(), T>)
    ensures
        sent matches Err(back) ==> back == t,
;

} // verus!
