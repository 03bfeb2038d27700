use vstd::prelude::*;
use vstd::string::*;

use crate::history::{missing_from, observe_all, HistManager};
use crate::online_user::OnlineUser;

verus! {

/// The users of `users` not named `name`, in their order.
pub open spec fn others(users: Seq<OnlineUser>, name: Seq<char>) -> Seq<OnlineUser> {
    users.filter(|u: OnlineUser| u.name@ != name)
}

/// The users of `users` not named `name`.
pub fn without_name(users: &Vec<OnlineUser>, name: &str) -> (r: Vec<OnlineUser>)
    ensures
        r@ == others(users@, name@),
{
    let own = String::from_str(name);
    let mut r: Vec<OnlineUser> = Vec::new();
    let mut i: usize = 0;
    while i < users.len()
        invariant
            i <= users@.len(),
            own@ == name@,
            r@ == others(users@.subrange(0, i as int), name@),
        decreases users@.len() - i,
    {
        proof {
            reveal_with_fuel(Seq::filter, 1);
            let sub = users@.subrange(0, i as int + 1);
            assert(sub.drop_last() =~= users@.subrange(0, i as int));
            assert(sub.last() == users@[i as int]);
        }
        if users[i].name != own {
            r.push(users[i].clone());
        }
        i = i + 1;
    }
    assert(users@.subrange(0, users@.len() as int) =~= users@);
    r
}

/// What a poll shows: the users online and those seen before but gone,
/// both without the watching account, and whether the count online changed.
pub struct PollUpdate {
    pub current: Vec<OnlineUser>,
    pub history: Vec<OnlineUser>,
    pub alert: bool,
}

/// The state kept between polls of the online users.
pub struct UserWatch {
    hist: HistManager,
    last_count: usize,
}

impl UserWatch {
    /// The records seen so far.
    pub closed spec fn seen(&self) -> Seq<OnlineUser> {
        self.hist@
    }

    /// How many other users were online at the last poll.
    pub closed spec fn count(&self) -> nat {
        self.last_count as nat
    }

    pub closed spec fn wf(&self) -> bool {
        self.hist.wf()
    }

    /// Nothing seen yet.
    pub fn new() -> (r: Self)
        ensures
            r.wf(),
            r.seen() == Seq::<OnlineUser>::empty(),
            r.count() == 0,
    {
        UserWatch { hist: HistManager::new(), last_count: 0 }
    }

    /// Takes in the users of one poll, watched from the account `own_name`.
    pub fn update(&mut self, users: &Vec<OnlineUser>, own_name: &str) -> (r: PollUpdate)
        requires
            old(self).wf(),
        ensures
            final(self).wf(),
            final(self).seen() == observe_all(old(self).seen(), users@),
            r.current@ == others(users@, own_name@),
            r.history@ == others(missing_from(final(self).seen(), users@), own_name@),
            r.alert == (r.current@.len() != old(self).count()),
            final(self).count() == r.current@.len(),
    {
        self.hist.add_vec(users);
        let gone = self.hist.histories(users.as_slice());
        let history = without_name(&gone, own_name);
        let current = without_name(users, own_name);
        let alert = current.len() != self.last_count;
        self.last_count = current.len();
        PollUpdate { current, history, alert }
    }
}

/// Counts of the keep-alive requests sent and of those that failed. A failure
/// changes nothing else: it is only counted.
pub struct KeepAliveLog {
    pub sent: u64,
    pub failed: u64,
}

impl KeepAliveLog {
    pub fn new() -> (r: Self)
        ensures
            r.sent == 0,
            r.failed == 0,
    {
        KeepAliveLog { sent: 0, failed: 0 }
    }

    /// Counts one request, and one failure unless `ok`; both counts stop at
    /// the largest `u64`.
    pub fn record(&mut self, ok: bool)
        ensures
            final(self).sent == if old(self).sent == u64::MAX {
                u64::MAX
            } else {
                (old(self).sent + 1) as u64
            },
            final(self).failed == if ok || old(self).failed == u64::MAX {
                old(self).failed
            } else {
                (old(self).failed + 1) as u64
            },
    {
        self.sent = self.sent.saturating_add(1);
        if !ok {
            self.failed = self.failed.saturating_add(1);
        }
    }
}

} // verus!
