//! The registry of live proxied sessions that an administrator may end: each
//! session registers the sending half of a channel under its id, and
//! terminating signals that channel.
use vstd::prelude::*;

use tokio::sync::mpsc::UnboundedSender;

use crate::text::{chars_eq_str, to_chars};

verus! {

/// Error text recorded for a session ended on an administrator's request.
pub const TERMINATED_BY_MANAGEMENT: &'static str = "terminated by management request";

/// What a termination request found.
#[derive(Debug, Clone, Copy, PartialEq, Eq, Structural)]
pub enum TerminateSessionResult {
    /// The session was registered and its channel took the signal.
    Signaled,
    /// No session was registered under the id, or its channel was closed.
    NotFound,
}

/// The sending half of an unbounded channel of `tokio`, carried opaquely.
#[verifier::external_type_specification]
#[verifier::external_body]
#[verifier::reject_recursive_types(T)]
pub struct ExUnboundedSender<T>(UnboundedSender<T>);

/// `tokio::sync::mpsc::UnboundedSender::send` of the unit value; true when
/// it was queued. Nothing is stated of the result: it depends on whether the
/// receiving half is still alive.
#[verifier::external_body]
fn send_signal(sender: &UnboundedSender<()>) -> bool {
    sender.send(()).is_ok()
}

/// The ids of the registered sessions, in order of registration.
pub type RegistryView = Seq<Seq<char>>;

/// The registry without one id.
pub open spec fn without_id(t: RegistryView, id: Seq<char>) -> RegistryView {
    t.filter(|x: Seq<char>| x != id)
}

/// The live sessions that can be terminated.
#[derive(Debug)]
pub struct ActiveSessionRegistry {
    entries: Vec<(String, UnboundedSender<()>)>,
}

impl View for ActiveSessionRegistry {
    type V = RegistryView;

    closed spec fn view(&self) -> RegistryView {
        self.entries@.map_values(|e: (String, UnboundedSender<()>)| e.0@)
    }
}

impl ActiveSessionRegistry {
    /// An empty registry.
    pub fn new() -> (r: ActiveSessionRegistry)
        ensures
            r@.len() == 0,
    {
        let r = ActiveSessionRegistry { entries: Vec::new() };
        assert(r@ =~= Seq::<Seq<char>>::empty());
        r
    }

    proof fn lemma_view(&self, i: int)
        requires
            0 <= i < self.entries@.len(),
        ensures
            self@.len() == self.entries@.len(),
            self@[i] == self.entries@[i].0@,
    {
    }

    /// Drops the entries of one id, keeping the order of the others.
    fn drop_id(&mut self, id: &Vec<char>)
        ensures
            final(self)@ == without_id(old(self)@, id@),
    {
        let ghost start = self@;
        let ghost keep = |x: Seq<char>| x != id@;
        let mut rest: Vec<(String, UnboundedSender<()>)> = Vec::new();
        std::mem::swap(&mut rest, &mut self.entries);
        let ghost orig = rest@;
        let mut kept: Vec<(String, UnboundedSender<()>)> = Vec::new();
        let mut tail: Vec<(String, UnboundedSender<()>)> = Vec::new();
        // Move the entries out from the back, then walk them from the front.
        while rest.len() > 0
            invariant
                rest@ + tail@.reverse() == orig,
            decreases rest.len(),
        {
            let e = rest.pop().unwrap();
            let ghost before = tail@;
            tail.push(e);
            assert(rest@ + tail@.reverse() =~= orig);
        }
        assert(tail@.reverse() =~= orig);
        let n = tail.len();
        let mut i: usize = 0;
        while i < n
            invariant
                n == orig.len(),
                i <= n,
                tail@.len() == n - i,
                forall|k: int| 0 <= k < n - i ==> tail@[k] == orig[n - 1 - k],
                keep == (|x: Seq<char>| x != id@),
                start == orig.map_values(|e: (String, UnboundedSender<()>)| e.0@),
                kept@.map_values(|e: (String, UnboundedSender<()>)| e.0@) == start.take(i as int).filter(keep),
            decreases n - i,
        {
            let e = tail.pop().unwrap();
            assert(e == orig[i as int]);
            let ghost before = kept@;
            assert(start.take(i + 1).drop_last() =~= start.take(i as int));
            assert(start.take(i + 1).last() == e.0@);
            reveal_with_fuel(Seq::<Seq<char>>::filter, 1);
            if !chars_eq_str(id, e.0.as_str()) {
                kept.push(e);
                assert(kept@.map_values(|e: (String, UnboundedSender<()>)| e.0@) =~= before.map_values(
                    |e: (String, UnboundedSender<()>)| e.0@,
                ).push(start[i as int]));
            }
            i += 1;
        }
        assert(start.take(n as int) =~= start);
        self.entries = kept;
    }

    /// Registers a session under its id, replacing an earlier registration
    /// of the same id.
    pub fn register(&mut self, session_id: String, terminate: UnboundedSender<()>)
        ensures
            final(self)@ == without_id(old(self)@, session_id@).push(session_id@),
    {
        let id = to_chars(session_id.as_str());
        self.drop_id(&id);
        let ghost mid = self@;
        self.entries.push((session_id, terminate));
        assert(self@ =~= mid.push(id@));
    }

    /// Removes a session's registration.
    pub fn unregister(&mut self, session_id: &str)
        ensures
            final(self)@ == without_id(old(self)@, session_id@),
    {
        let id = to_chars(session_id);
        self.drop_id(&id);
    }

    /// Signals the session registered under an id to end. A registration
    /// whose channel is closed is removed and reported as not found.
    pub fn terminate(&mut self, session_id: &str) -> (r: TerminateSessionResult)
        ensures
            !old(self)@.contains(session_id@) ==> r == TerminateSessionResult::NotFound && final(self)@ == old(self)@,
            r == TerminateSessionResult::Signaled ==> old(self)@.contains(session_id@) && final(self)@ == old(self)@,
            r == TerminateSessionResult::NotFound ==> final(self)@ == without_id(old(self)@, session_id@),
    {
        let id = to_chars(session_id);
        let mut i = self.entries.len();
        while i > 0
            invariant
                i <= self.entries@.len(),
                self@ == old(self)@,
                forall|k: int| i <= k < self.entries@.len() ==> self@[k] != id@,
                id@ == session_id@,
            decreases i,
        {
            let k = i - 1;
            proof {
                self.lemma_view(k as int);
            }
            if chars_eq_str(&id, self.entries[k].0.as_str()) {
                if send_signal(&self.entries[k].1) {
                    return TerminateSessionResult::Signaled;
                }
                self.drop_id(&id);
                return TerminateSessionResult::NotFound;
            }
            i = k;
        }
        proof {
            assert(!old(self)@.contains(session_id@)) by {
                if old(self)@.contains(session_id@) {
                    let m = choose|m: int| 0 <= m < old(self)@.len() && old(self)@[m] == session_id@;
                    assert(self@[m] != id@);
                }
            }
            lemma_without_absent(old(self)@, session_id@);
        }
        TerminateSessionResult::NotFound
    }
}

/// Dropping an id that is not there changes nothing.
pub proof fn lemma_without_absent(t: RegistryView, id: Seq<char>)
    requires
        !t.contains(id),
    ensures
        without_id(t, id) == t,
    decreases t.len(),
{
    reveal_with_fuel(Seq::<Seq<char>>::filter, 1);
    if t.len() > 0 {
        let init = t.drop_last();
        assert(!init.contains(id)) by {
            if init.contains(id) {
                let m = choose|m: int| 0 <= m < init.len() && init[m] == id;
                assert(t[m] == id);
            }
        }
        lemma_without_absent(init, id);
        assert(t.last() == t[t.len() - 1]);
        assert(init.push(t.last()) =~= t);
    }
}

/// After an id is dropped it is no longer registered, so terminating it
/// reports that nothing was found.
pub proof fn lemma_unregistered_not_found(t: RegistryView, id: Seq<char>)
    ensures
        !without_id(t, id).contains(id),
{
    let f = without_id(t, id);
    t.filter_lemma(|x: Seq<char>| x != id);
    if f.contains(id) {
        let m = choose|m: int| 0 <= m < f.len() && f[m] == id;
        assert((|x: Seq<char>| x != id)(f[m]));
    }
}

/// After an id is registered it is registered, so terminating it signals
/// its channel unless that channel was closed.
pub proof fn lemma_registered_is_found(t: RegistryView, id: Seq<char>)
    ensures
        without_id(t, id).push(id).contains(id),
{
    let u = without_id(t, id).push(id);
    assert(u[u.len() - 1] == id);
}

} // verus!
