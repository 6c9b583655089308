//! The team update manager of a local-first build: there is no team metadata to fetch, so a
//! refresh is complete as soon as it is asked for.

use futures::channel::oneshot::{Canceled, Receiver};
use vstd::prelude::*;

verus! {

#[verifier::external_type_specification]
#[verifier::external_body]
#[verifier::reject_recursive_types(T)]
pub struct ExOneshotReceiver<T>(Receiver<T>);

#[verifier::external_type_specification]
#[verifier::external_body]
pub struct ExOneshotCanceled(Canceled);

/// The values that a one-shot receiver of units holds and has not handed out yet: at most
/// one, since a one-shot channel carries a single value.
pub uninterp spec fn unit_receiver_contents(rx: Receiver<()>) -> Seq<()>;

/// Makes a one-shot channel with `futures::channel::oneshot::channel`, sends the unit into
/// it with `Sender::send` and hands back the receiving end.
/// Claims: the receiver holds exactly that unit. The send cannot fail, since the receiver is
/// alive and not closed while it is sent; polling the receiver then yields `Ok(())` at once.
#[verifier::external_body]
fn oneshot_completed_unit() -> (r: Receiver<()>)
    ensures
        unit_receiver_contents(r) == seq![()],
{
    let (tx, rx) = futures::channel::oneshot::channel::<()>();
    let _ = tx.send(());
    rx
}

/// Refreshes workspace and team metadata; it holds no state.
#[derive(Clone, Copy, Debug, PartialEq, Eq, Structural)]
pub struct TeamUpdateManager;

impl TeamUpdateManager {
    pub fn new() -> (r: Self) {
        TeamUpdateManager
    }

    /// The manager used in tests.
    pub fn mock() -> (r: Self) {
        Self::new()
    }

    /// Starts a refresh and returns the receiver that completes when it is done: the
    /// completion is sent before the receiver is handed back.
    pub fn refresh_workspace_metadata(&mut self) -> (r: Receiver<()>)
        ensures
            *final(self) == *old(self),
            unit_receiver_contents(r) == seq![()],
    {
        oneshot_completed_unit()
    }

    /// Stops polling for metadata updates; there is no polling to stop.
    pub fn stop_polling_for_workspace_metadata_updates(&mut self)
        ensures
            *final(self) == *old(self),
    {
    }
}

} // verus!
