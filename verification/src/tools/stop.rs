//! Handles on cancellation tokens, with the identity of the token each one
//! shares and whether cancellation has been signalled through it.

use vstd::prelude::*;
use tokio_util::sync::CancellationToken;

verus! {

/// `tokio_util::sync::CancellationToken`, held opaque inside a [`StopSignal`].
#[verifier::external_type_specification]
#[verifier::external_body]
pub struct ExCancellationToken(CancellationToken);

/// A handle on a cancellation token. A handle shared from another has the
/// same identity. A handle is marked fired once cancellation has been
/// signalled through it or through the handle it was shared from; a fired
/// handle's token is cancelled. (An unfired handle may still see its token
/// cancelled through some other handle: nothing is claimed either way.)
pub struct StopSignal {
    token: CancellationToken,
    id: Ghost<int>,
    fired: Ghost<bool>,
}

/// The model of a [`StopSignal`]: the identity of its token, and whether
/// the handle is marked fired.
#[derive(PartialEq, Eq, Structural)]
pub struct StopView {
    pub id: int,
    pub fired: bool,
}

impl View for StopSignal {
    type V = StopView;

    closed spec fn view(&self) -> StopView {
        StopView { id: self.id@, fired: self.fired@ }
    }
}

/// `CancellationToken::new`: a handle on a new token, through which no
/// cancellation has been signalled. Its identity is left open.
#[verifier::external_body]
pub(crate) fn new_signal() -> (s: StopSignal)
    ensures
        !s@.fired,
{
    StopSignal { token: CancellationToken::new(), id: Ghost(arbitrary()), fired: Ghost(false) }
}

/// `CancellationToken::clone`: another handle on the same token (same
/// identity); it is marked fired exactly when the original handle is.
#[verifier::external_body]
pub(crate) fn share_signal(s: &StopSignal) -> (r: StopSignal)
    ensures
        r@ == s@,
{
    StopSignal { token: s.token.clone(), id: s.id, fired: s.fired }
}

/// `CancellationToken::cancel`: cancels the token, for every handle on it;
/// this handle is marked fired and keeps its identity.
#[verifier::external_body]
pub(crate) fn fire(s: &mut StopSignal)
    ensures
        final(s)@ == (StopView { id: old(s)@.id, fired: true }),
{
    s.token.cancel()
}

impl StopSignal {
    /// The token itself, to wait on or test.
    pub fn token(&self) -> &CancellationToken {
        &self.token
    }

    /// The token itself, handed to whoever waits on it.
    pub fn into_token(self) -> CancellationToken {
        self.token
    }
}

} // verus!
