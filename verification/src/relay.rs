//! Decision core of the wallet-pairing relay: which subscription a
//! socket's first message establishes, which sessions are registered under
//! each role, and whether a message may be forwarded or delivered. The
//! sockets and channels around these decisions belong to the surrounding
//! process.
use vstd::prelude::*;

verus! {

use vstd::string::StringExecFns;

/// The role a socket subscribes under.
#[derive(Debug, Clone, Copy, PartialEq, Eq, Structural)]
pub enum RelayRole {
    Wallet,
    Frontend,
}

/// What a subscription message asks for: register the session under a
/// role, reject an unparsable session id, or ignore an unknown kind.
#[derive(Debug, Clone, Copy, PartialEq, Eq, Structural)]
pub enum SubscribeDecision {
    Register(RelayRole),
    Reject(RelayRole),
    Ignore,
}

/// The subscription a message kind establishes, given whether its session
/// id parsed.
pub open spec fn spec_classify_subscription(kind: Seq<char>, session_parsed: bool) -> SubscribeDecision {
    if kind == "wallet-subscribe"@ {
        if session_parsed {
            SubscribeDecision::Register(RelayRole::Wallet)
        } else {
            SubscribeDecision::Reject(RelayRole::Wallet)
        }
    } else if kind == "frontend-subscribe"@ {
        if session_parsed {
            SubscribeDecision::Register(RelayRole::Frontend)
        } else {
            SubscribeDecision::Reject(RelayRole::Frontend)
        }
    } else {
        SubscribeDecision::Ignore
    }
}

/// Classifies a subscription message kind.
pub fn classify_subscription(kind: &String, session_parsed: bool) -> (r: SubscribeDecision)
    ensures
        r == spec_classify_subscription(kind@, session_parsed),
{
    let wallet_kind = String::from_str("wallet-subscribe");
    let frontend_kind = String::from_str("frontend-subscribe");
    if kind.eq(&wallet_kind) {
        if session_parsed {
            SubscribeDecision::Register(RelayRole::Wallet)
        } else {
            SubscribeDecision::Reject(RelayRole::Wallet)
        }
    } else if kind.eq(&frontend_kind) {
        if session_parsed {
            SubscribeDecision::Register(RelayRole::Frontend)
        } else {
            SubscribeDecision::Reject(RelayRole::Frontend)
        }
    } else {
        SubscribeDecision::Ignore
    }
}

/// No session id occurs twice.
pub open spec fn unique_sessions(s: Seq<u128>) -> bool {
    forall|i: int, j: int| 0 <= i < j < s.len() ==> s[i] != s[j]
}

/// A session list with the one removed that carries the given id.
pub open spec fn spec_remove_session(s: Seq<u128>, id: u128) -> Seq<u128>
    decreases s.len(),
{
    if s.len() == 0 {
        Seq::empty()
    } else if s[0] == id {
        s.drop_first()
    } else {
        seq![s[0]] + spec_remove_session(s.drop_first(), id)
    }
}

/// The registered sessions, one list per role, each session at most once.
pub struct RelayState {
    wallets: Vec<u128>,
    frontends: Vec<u128>,
}

impl RelayState {
    pub closed spec fn wallets(&self) -> Seq<u128> {
        self.wallets@
    }

    pub closed spec fn frontends(&self) -> Seq<u128> {
        self.frontends@
    }

    /// No session id is registered twice under one role.
    pub open spec fn wf(&self) -> bool {
        unique_sessions(self.wallets()) && unique_sessions(self.frontends())
    }

    pub fn new() -> (r: Self)
        ensures
            r.wallets() =~= Seq::<u128>::empty(),
            r.frontends() =~= Seq::<u128>::empty(),
            r.wf(),
    {
        RelayState { wallets: Vec::new(), frontends: Vec::new() }
    }

    /// Whether a wallet is subscribed under the session id: the delivery
    /// decision for an incoming transaction.
    pub fn has_wallet(&self, id: u128) -> (r: bool)
        ensures
            r == self.wallets().contains(id),
    {
        contains_session(&self.wallets, id)
    }

    /// Whether a frontend is subscribed under the session id: the
    /// forwarding decision for a wallet's messages.
    pub fn has_frontend(&self, id: u128) -> (r: bool)
        ensures
            r == self.frontends().contains(id),
    {
        contains_session(&self.frontends, id)
    }

    /// Registers a session under a role; an already-registered session id
    /// is kept as it is.
    pub fn subscribe(&mut self, role: RelayRole, id: u128)
        requires
            old(self).wf(),
        ensures
            final(self).wf(),
            match role {
                RelayRole::Wallet => final(self).frontends() == old(self).frontends()
                    && final(self).wallets() == (if old(self).wallets().contains(id) {
                    old(self).wallets()
                } else {
                    old(self).wallets().push(id)
                }),
                RelayRole::Frontend => final(self).wallets() == old(self).wallets()
                    && final(self).frontends() == (if old(self).frontends().contains(id) {
                    old(self).frontends()
                } else {
                    old(self).frontends().push(id)
                }),
            },
    {
        match role {
            RelayRole::Wallet => {
                if !contains_session(&self.wallets, id) {
                    let ghost before = self.wallets@;
                    proof {
                        assert(unique_sessions(before));
                    }
                    self.wallets.push(id);
                    proof {
                        assert forall|i: int, j: int|
                            0 <= i < j < self.wallets@.len() implies self.wallets@[i]
                            != self.wallets@[j] by {
                            if j == before.len() {
                                assert(self.wallets@[i] == before[i]);
                                if before[i] == id {
                                    assert(before.contains(before[i]));
                                }
                            } else {
                                assert(self.wallets@[i] == before[i] && self.wallets@[j]
                                    == before[j]);
                            }
                        }
                        assert(unique_sessions(self.wallets@));
                    }
                }
            },
            RelayRole::Frontend => {
                if !contains_session(&self.frontends, id) {
                    let ghost before = self.frontends@;
                    proof {
                        assert(unique_sessions(before));
                    }
                    self.frontends.push(id);
                    proof {
                        assert forall|i: int, j: int|
                            0 <= i < j < self.frontends@.len() implies self.frontends@[i]
                            != self.frontends@[j] by {
                            if j == before.len() {
                                assert(self.frontends@[i] == before[i]);
                                if before[i] == id {
                                    assert(before.contains(before[i]));
                                }
                            } else {
                                assert(self.frontends@[i] == before[i] && self.frontends@[j]
                                    == before[j]);
                            }
                        }
                        assert(unique_sessions(self.frontends@));
                    }
                }
            },
        }
    }

    /// Removes a closed session from its role's registrations.
    pub fn unsubscribe(&mut self, role: RelayRole, id: u128)
        requires
            old(self).wf(),
        ensures
            final(self).wf(),
            match role {
                RelayRole::Wallet => final(self).frontends() == old(self).frontends()
                    && final(self).wallets() == spec_remove_session(old(self).wallets(), id),
                RelayRole::Frontend => final(self).wallets() == old(self).wallets()
                    && final(self).frontends() == spec_remove_session(old(self).frontends(), id),
            },
    {
        match role {
            RelayRole::Wallet => {
                remove_session(&mut self.wallets, id);
            },
            RelayRole::Frontend => {
                remove_session(&mut self.frontends, id);
            },
        }
    }
}

fn contains_session(s: &Vec<u128>, id: u128) -> (r: bool)
    ensures
        r == s@.contains(id),
{
    let n = s.len();
    let mut i: usize = 0;
    while i < n
        invariant
            n == s@.len(),
            i <= n,
            forall|j: int| 0 <= j < i ==> s@[j] != id,
        decreases n - i,
    {
        if s[i] == id {
            return true;
        }
        i = i + 1;
    }
    false
}

proof fn lemma_remove_session_skip(s: Seq<u128>, id: u128, i: int)
    requires
        0 <= i <= s.len(),
        forall|j: int| 0 <= j < i ==> s[j] != id,
    ensures
        spec_remove_session(s, id) == s.take(i) + spec_remove_session(s.skip(i), id),
    decreases i,
{
    if i > 0 {
        lemma_remove_session_skip(s.drop_first(), id, i - 1);
        assert(s.drop_first().skip(i - 1) =~= s.skip(i));
        assert(s.drop_first().take(i - 1) =~= s.take(i).drop_first());
        assert(seq![s[0]] + (s.take(i).drop_first() + spec_remove_session(s.skip(i), id))
            =~= s.take(i) + spec_remove_session(s.skip(i), id));
    } else {
        assert(s.skip(0) =~= s);
        assert(s.take(0) + spec_remove_session(s, id) =~= spec_remove_session(s, id));
    }
}

proof fn lemma_remove_session_preserves_unique(s: Seq<u128>, id: u128)
    requires
        unique_sessions(s),
    ensures
        unique_sessions(spec_remove_session(s, id)),
        spec_remove_session(s, id).len() <= s.len(),
        forall|i: int|
            0 <= i < spec_remove_session(s, id).len() ==> s.contains(
                #[trigger] spec_remove_session(s, id)[i],
            ),
    decreases s.len(),
{
    if s.len() > 0 {
        assert forall|i: int, j: int| 0 <= i < j < s.drop_first().len() implies s.drop_first()[i]
            != s.drop_first()[j] by {
            assert(s.drop_first()[i] == s[i + 1] && s.drop_first()[j] == s[j + 1]);
        }
        assert(unique_sessions(s.drop_first()));
        lemma_remove_session_preserves_unique(s.drop_first(), id);
        if s[0] != id {
            let out = spec_remove_session(s, id);
            let sub = spec_remove_session(s.drop_first(), id);
            assert forall|i: int| 0 <= i < out.len() implies s.contains(#[trigger] out[i]) by {
                if i == 0 {
                    assert(out[0] == s[0]);
                } else {
                    assert(out[i] == sub[i - 1]);
                    assert(s.drop_first().contains(sub[i - 1]));
                    let w = choose|w: int|
                        0 <= w < s.drop_first().len() && s.drop_first()[w] == sub[i - 1];
                    assert(s[w + 1] == sub[i - 1]);
                }
            }
            assert forall|i: int, j: int| 0 <= i < j < out.len() implies out[i] != out[j] by {
                if i == 0 {
                    assert(out[j] == sub[j - 1]);
                    assert(s.drop_first().contains(sub[j - 1]));
                    let w = choose|w: int|
                        0 <= w < s.drop_first().len() && s.drop_first()[w] == sub[j - 1];
                    assert(s[w + 1] == sub[j - 1]);
                    assert(s[0] != s[w + 1]);
                } else {
                    assert(out[i] == sub[i - 1] && out[j] == sub[j - 1]);
                }
            }
            assert(unique_sessions(out));
        } else {
            assert forall|i: int|
                0 <= i < s.drop_first().len() implies s.contains(#[trigger] s.drop_first()[i]) by {
                assert(s.drop_first()[i] == s[i + 1]);
            }
            assert forall|i: int, j: int|
                0 <= i < j < s.drop_first().len() implies s.drop_first()[i] != s.drop_first()[j] by {
                assert(s.drop_first()[i] == s[i + 1] && s.drop_first()[j] == s[j + 1]);
            }
            assert(unique_sessions(spec_remove_session(s, id)));
        }
    }
}

fn remove_session(s: &mut Vec<u128>, id: u128)
    requires
        unique_sessions(old(s)@),
    ensures
        final(s)@ == spec_remove_session(old(s)@, id),
        unique_sessions(final(s)@),
{
    proof {
        lemma_remove_session_preserves_unique(s@, id);
    }
    let n = s.len();
    let mut i: usize = 0;
    while i < n
        invariant
            s@ == old(s)@,
            unique_sessions(s@),
            n == s@.len(),
            i <= n,
            forall|j: int| 0 <= j < i ==> s@[j] != id,
        decreases n - i,
    {
        if s[i] == id {
            proof {
                lemma_remove_session_preserves_unique(s@, id);
                lemma_remove_session_skip(s@, id, i as int);
                assert(s@.skip(i as int)[0] == s@[i as int]);
                assert(spec_remove_session(s@.skip(i as int), id) == s@.skip(i as int).drop_first());
            }
            let ghost before = s@;
            s.remove(i);
            proof {
                assert(s@ =~= before.take(i as int) + before.skip(i as int).drop_first());
                assert(s@ == spec_remove_session(before, id));
                assert(unique_sessions(s@));
            }
            return;
        }
        i = i + 1;
    }
    proof {
        lemma_remove_session_skip(s@, id, n as int);
        assert(s@.skip(n as int) =~= Seq::<u128>::empty());
        assert(s@.take(n as int) + Seq::<u128>::empty() =~= s@);
    }
}

} // verus!
