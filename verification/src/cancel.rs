use vstd::prelude::*;

verus! {

#[verifier::external_type_specification]
#[verifier::external_body]
pub struct ExCancellationToken(tokio_util::sync::CancellationToken);

/// A fresh, not yet cancelled token (`CancellationToken::new`). It has a tree node of its
/// own, so it is none of the tokens that existed before it, and in particular none of those
/// recorded as cancelled in `log`.
#[verifier::external_body]
fn new_token_outside(log: &CancelLog) -> (t: tokio_util::sync::CancellationToken)
    requires
        log@.finite(),
    ensures
        !log@.contains(t),
{
    tokio_util::sync::CancellationToken::new()
}

/// A fresh token, not among those recorded as cancelled in `log`.
pub fn new_token(log: &CancelLog) -> (t: tokio_util::sync::CancellationToken)
    ensures
        !log@.contains(t),
{
    proof {
        use_type_invariant(log);
    }
    new_token_outside(log)
}

/// Another handle to the same token (`CancellationToken::clone`). The clone holds the same
/// shared node as `t` (it copies the inner `Arc`), and the crate's own `PartialEq` counts
/// the two as equal; so they are taken as the same token here: cancelling either cancels
/// both.
#[verifier::external_body]
pub fn share_token(t: &tokio_util::sync::CancellationToken) -> (r: tokio_util::sync::CancellationToken)
    ensures
        r == *t,
{
    t.clone()
}

/// The tokens cancelled so far: a record, kept for proofs only, of every token passed to
/// [`cancel`], which alone adds to it. It is finite.
pub struct CancelLog {
    stopped: Ghost<Set<tokio_util::sync::CancellationToken>>,
}

impl CancelLog {
    #[verifier::type_invariant]
    spec fn finite_record(self) -> bool {
        self.stopped@.finite()
    }
}

impl View for CancelLog {
    type V = Set<tokio_util::sync::CancellationToken>;

    closed spec fn view(&self) -> Set<tokio_util::sync::CancellationToken> {
        self.stopped@
    }
}

impl CancelLog {
    /// A record with nothing cancelled yet.
    pub fn new() -> (r: Self)
        ensures
            r@ == Set::<tokio_util::sync::CancellationToken>::empty(),
    {
        CancelLog { stopped: Ghost(Set::empty()) }
    }
}

/// Cancels the token and every handle to it (`CancellationToken::cancel`), and records it
/// in `log`. The cancelled flag itself lives behind a shared pointer; the record is its
/// stand-in in proofs, and this call is the only place where it grows.
#[verifier::external_body]
pub fn cancel(t: &tokio_util::sync::CancellationToken, log: &mut CancelLog)
    ensures
        final(log)@ == old(log)@.insert(*t),
{
    t.cancel()
}

/// `log` with the token `t` added, if there is one.
pub open spec fn with_stopped(
    log: Set<tokio_util::sync::CancellationToken>,
    t: Option<tokio_util::sync::CancellationToken>,
) -> Set<tokio_util::sync::CancellationToken> {
    match t {
        Some(x) => log.insert(x),
        None => log,
    }
}

} // verus!
