use vstd::prelude::*;

verus! {

/// Authorizes the producer of an idle stream to emit one value. It can be
/// neither cloned nor made outside this module: each one comes from a
/// `TokenLedger` and goes back to it with the value it authorized.
pub struct RequestToken {
    _private: (),
}

pub struct TokenLedgerView {
    /// Tokens handed out so far.
    pub issued: nat,
    /// Tokens that came back with a value.
    pub redeemed: nat,
}

/// The consumer's side of the request/response protocol of an idle stream:
/// at most one request is outstanding at a time.
pub struct TokenLedger {
    outstanding: bool,
    issued: Ghost<nat>,
    redeemed: Ghost<nat>,
}

impl View for TokenLedger {
    type V = TokenLedgerView;

    closed spec fn view(&self) -> TokenLedgerView {
        TokenLedgerView { issued: self.issued@, redeemed: self.redeemed@ }
    }
}

impl TokenLedger {
    pub closed spec fn wf(&self) -> bool {
        &&& self.redeemed@ <= self.issued@ <= self.redeemed@ + 1
        &&& self.outstanding == (self.issued@ == self.redeemed@ + 1)
    }

    pub fn new() -> (r: Self)
        ensures
            r.wf(),
            r@.issued == 0,
            r@.redeemed == 0,
    {
        TokenLedger { outstanding: false, issued: Ghost(0), redeemed: Ghost(0) }
    }

    /// Whether a token is out, waiting to come back with a value.
    pub fn is_outstanding(&self) -> (r: bool)
        requires
            self.wf(),
        ensures
            r == (self@.issued == self@.redeemed + 1),
    {
        self.outstanding
    }

    /// Hands out a token for one more value, unless one is already out.
    pub fn request(&mut self) -> (r: Option<RequestToken>)
        requires
            old(self).wf(),
        ensures
            final(self).wf(),
            r is Some <==> old(self)@.issued == old(self)@.redeemed,
            r is Some ==> final(self)@ == (TokenLedgerView { issued: old(self)@.issued + 1, ..old(self)@ }),
            r is None ==> final(self)@ == old(self)@,
    {
        if self.outstanding {
            None
        } else {
            self.outstanding = true;
            self.issued = Ghost(self.issued@ + 1);
            Some(RequestToken { _private: () })
        }
    }

    /// Takes back the token that came with a value.
    pub fn redeem(&mut self, token: RequestToken)
        requires
            old(self).wf(),
            old(self)@.issued == old(self)@.redeemed + 1,
        ensures
            final(self).wf(),
            final(self)@ == (TokenLedgerView { redeemed: old(self)@.redeemed + 1, ..old(self)@ }),
    {
        let RequestToken { _private } = token;
        self.outstanding = false;
        self.redeemed = Ghost(self.redeemed@ + 1);
    }
}

/// The tokens in existence are those handed out less those that came back
/// with a value, and there is never more than one.
pub proof fn lemma_at_most_one_token(ledger: &TokenLedger)
    requires
        ledger.wf(),
    ensures
        ledger@.redeemed <= ledger@.issued,
        ledger@.issued - ledger@.redeemed == 0 || ledger@.issued - ledger@.redeemed == 1,
{
}

} // verus!
