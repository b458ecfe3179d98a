//! Checks that only the proposed party can complete a two-step handoff.

use super::{addresses_equal, guard};
use crate::error::RevoraError;
use vstd::prelude::*;

verus! {

/// What [`assert_is_proposed_recipient`] returns.
pub open spec fn proposed_recipient_result(acceptor: Seq<char>, proposed: Seq<char>) -> Result<(), RevoraError> {
    guard(acceptor == proposed, RevoraError::UnauthorizedTransferAccept)
}

/// What [`assert_is_proposed_admin`] returns.
pub open spec fn proposed_admin_result(acceptor: Seq<char>, proposed: Seq<char>) -> Result<(), RevoraError> {
    guard(acceptor == proposed, RevoraError::UnauthorizedRotationAccept)
}

/// An issuer transfer may be accepted only by the address it was proposed to.
pub fn assert_is_proposed_recipient(acceptor: &str, proposed_new_issuer: &str) -> (r: Result<(), RevoraError>)
    ensures
        r == proposed_recipient_result(acceptor@, proposed_new_issuer@),
{
    if addresses_equal(acceptor, proposed_new_issuer) {
        Ok(())
    } else {
        Err(RevoraError::UnauthorizedTransferAccept)
    }
}

/// An admin rotation may be accepted only by the address it was proposed to.
pub fn assert_is_proposed_admin(acceptor: &str, proposed_new_admin: &str) -> (r: Result<(), RevoraError>)
    ensures
        r == proposed_admin_result(acceptor@, proposed_new_admin@),
{
    if addresses_equal(acceptor, proposed_new_admin) {
        Ok(())
    } else {
        Err(RevoraError::UnauthorizedRotationAccept)
    }
}

/// For a given proposal exactly one address can accept it: any two accepted
/// acceptors are the same address, and it is the proposed one.
pub proof fn lemma_single_acceptor(a: Seq<char>, b: Seq<char>, proposed: Seq<char>)
    ensures
        proposed_recipient_result(proposed, proposed) is Ok,
        proposed_admin_result(proposed, proposed) is Ok,
        (proposed_recipient_result(a, proposed) is Ok && proposed_recipient_result(b, proposed) is Ok) ==> a == b,
        (proposed_admin_result(a, proposed) is Ok && proposed_admin_result(b, proposed) is Ok) ==> a == b,
{
}

/// The proposed party is accepted and every other address is refused, with
/// `UnauthorizedTransferAccept` for an issuer transfer and
/// `UnauthorizedRotationAccept` for an admin rotation.
pub proof fn lemma_acceptor_checks_exact(acceptor: Seq<char>, proposed: Seq<char>)
    ensures
        acceptor == proposed ==> proposed_recipient_result(acceptor, proposed) == Ok::<
            (),
            RevoraError,
        >(()),
        acceptor != proposed ==> proposed_recipient_result(acceptor, proposed) == Err::<
            (),
            RevoraError,
        >(RevoraError::UnauthorizedTransferAccept),
        acceptor == proposed ==> proposed_admin_result(acceptor, proposed) == Ok::<(), RevoraError>(
            (),
        ),
        acceptor != proposed ==> proposed_admin_result(acceptor, proposed) == Err::<
            (),
            RevoraError,
        >(RevoraError::UnauthorizedRotationAccept),
{
}

} // verus!
