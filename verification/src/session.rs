//! The initialization protocol after the engine has accepted the rules
//! directory: hand out the sixteen default preferences in their fixed
//! order, record the engine's verdict on each, and close with the
//! confirmation message. The host performs the engine calls; every
//! decision — which preference comes next, what a rejection adds to the
//! report, what the final message says — is made here.

use crate::messages;
use crate::profile;
use vstd::prelude::*;

verus! {

/// One initialization pass over the default profile.
pub struct InitSession {
    path: String,
    profile: Vec<(String, String)>,
    next: usize,
    rejected: Vec<String>,
}

impl InitSession {
    /// How many default preferences have had their verdict recorded.
    pub closed spec fn applied(self) -> int {
        self.next as int
    }

    /// The rules directory this session was begun with.
    pub closed spec fn rules_path(self) -> Seq<char> {
        self.path@
    }

    /// The keys of the defaults the engine rejected, in profile order.
    pub closed spec fn rejected_keys(self) -> Seq<Seq<char>> {
        messages::views(self.rejected@)
    }

    /// A session holds the default profile and has not run past its end.
    pub closed spec fn wf(self) -> bool {
        &&& self.profile@.len() == profile::default_profile_spec().len()
        &&& (forall|i: int|
            0 <= i < self.profile@.len() ==> (#[trigger] self.profile@[i]).0@
                == profile::default_profile_spec()[i].0 && self.profile@[i].1@
                == profile::default_profile_spec()[i].1)
        &&& self.next <= self.profile@.len()
    }

    /// Opens a session for `path` with no verdict recorded yet.
    pub fn begin(path: String) -> (s: InitSession)
        ensures
            s.wf(),
            s.applied() == 0,
            s.rules_path() == path@,
            s.rejected_keys() == Seq::<Seq<char>>::empty(),
    {
        let s = InitSession {
            path,
            profile: profile::default_profile(),
            next: 0,
            rejected: Vec::new(),
        };
        proof {
            assert(s.rejected_keys() =~= Seq::<Seq<char>>::empty());
        }
        s
    }

    /// The next default preference to apply, in profile order; nothing once
    /// all sixteen have been recorded.
    pub fn next_preference(&self) -> (r: Option<(String, String)>)
        requires
            self.wf(),
        ensures
            r is Some <==> self.applied() < profile::default_profile_spec().len(),
            (r matches Some(kv) ==> kv.0@ == profile::default_profile_spec()[self.applied()].0
                && kv.1@ == profile::default_profile_spec()[self.applied()].1),
    {
        if self.next < self.profile.len() {
            Some((self.profile[self.next].0.clone(), self.profile[self.next].1.clone()))
        } else {
            None
        }
    }

    /// Records the engine's verdict on the preference just handed out: a
    /// rejection adds that preference's key to the report, acceptance adds
    /// nothing.
    pub fn record_outcome(&mut self, outcome: Result<(), String>)
        requires
            old(self).wf(),
            old(self).applied() < profile::default_profile_spec().len(),
        ensures
            final(self).wf(),
            final(self).applied() == old(self).applied() + 1,
            final(self).rules_path() == old(self).rules_path(),
            (outcome is Ok ==> final(self).rejected_keys() == old(self).rejected_keys()),
            (outcome is Err ==> final(self).rejected_keys() == old(self).rejected_keys().push(
                profile::default_profile_spec()[old(self).applied()].0,
            )),
    {
        if outcome.is_err() {
            let key = self.profile[self.next].0.clone();
            self.rejected.push(key);
            proof {
                assert(messages::views(self.rejected@) =~= messages::views(
                    old(self).rejected@,
                ).push(profile::default_profile_spec()[old(self).applied()].0));
            }
        }
        self.next = self.next + 1;
    }

    /// Closes a completed session with the initialization confirmation:
    /// the plain message when every default was accepted, else the message
    /// followed by the rejected keys.
    pub fn finish(self) -> (r: String)
        requires
            self.wf(),
            self.applied() == profile::default_profile_spec().len(),
        ensures
            r@ == messages::init_report_message(self.rules_path(), self.rejected_keys()),
            messages::init_success_message(self.rules_path()).is_prefix_of(r@),
    {
        messages::build_init_report_message(self.path.as_str(), &self.rejected)
    }
}

} // verus!
