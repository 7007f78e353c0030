//! The listener adapter's startup decision: adopt an externally handed
//! off listening socket when one is present, otherwise bind the
//! configured address; a failed bind is fatal with a nonzero exit.

use vstd::prelude::*;

verus! {

/// Where the server's listening socket comes from.
pub enum ListenPlan {
    /// A pre-bound, pre-listening socket was handed off out of band:
    /// adopt it and skip the bind and listen steps.
    UseAdopted,
    /// No hand-off: bind a fresh socket to this address.
    BindFresh(Vec<u8>),
}

/// Mathematical model of a `ListenPlan`.
pub enum ListenPlanModel {
    UseAdopted,
    BindFresh(Seq<u8>),
}

impl ListenPlan {
    pub open spec fn model(&self) -> ListenPlanModel {
        match self {
            ListenPlan::UseAdopted => ListenPlanModel::UseAdopted,
            ListenPlan::BindFresh(a) => ListenPlanModel::BindFresh(a@),
        }
    }
}

/// Decide the socket's source: an adopted listener always wins, and no
/// fresh bind happens then; only without one is `addr` bound.
pub fn plan_listener(have_adopted: bool, addr: Vec<u8>) -> (r: ListenPlan)
    ensures
        have_adopted ==> r.model() == ListenPlanModel::UseAdopted,
        !have_adopted ==> r.model() == ListenPlanModel::BindFresh(addr@),
{
    if have_adopted {
        ListenPlan::UseAdopted
    } else {
        ListenPlan::BindFresh(addr)
    }
}

/// What startup does once the plan was executed.
pub enum Startup {
    /// A listener is ready: enter the accept loop.
    Serve,
    /// No listener could be readied: exit with this status.
    Exit(i32),
}

/// Startup is fatal exactly when no listener could be readied; the
/// process then exits with a nonzero status.
pub fn startup_outcome(listener_ready: bool) -> (r: Startup)
    ensures
        listener_ready ==> r == Startup::Serve,
        !listener_ready ==> r == Startup::Exit(1) && 1i32 != 0i32,
{
    if listener_ready {
        Startup::Serve
    } else {
        Startup::Exit(1)
    }
}

} // verus!
