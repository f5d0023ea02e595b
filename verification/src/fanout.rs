//! A broadcast channel built on `flume`: one `Sender` delivers every message
//! to each live `Receiver`, where every `Receiver` owns a private `flume`
//! channel whose sending half the `Sender` keeps in its list of outlets.
//! A cloned `Receiver` registers its new outlet through a feedback channel that
//! the `Sender` drains before each delivery.

use std::sync::{Arc, Weak};
use vstd::prelude::*;

use crate::channel::{channel, channel_disconnected, channel_drain, channel_recv, sender_clone};

verus! {

/// `<std::sync::Arc as Clone>::clone`: another pointer to the same
/// allocation, hence to an equal value.
#[verifier::external_body]
fn arc_clone<U>(a: &Arc<U>) -> (r: Arc<U>)
    ensures
        r == *a,
{
    Arc::clone(a)
}

/// `std::sync::Weak`, held opaque. `Weak` itself cannot be declared here (it
/// carries an allocator parameter), so the pointer is held in this cell and
/// reached only through the trusted functions below.
#[verifier::external_body]
#[verifier::reject_recursive_types(T)]
struct WeakCell<T>(Weak<T>);

/// `std::sync::Arc::downgrade`: a weak pointer to the allocation of `a`,
/// whose target (the strong pointer it was made from) is `a`. Only this
/// function and `weak_clone` make a `WeakRef`.
#[verifier::external_body]
fn weak_of<U>(a: &Arc<U>) -> (r: WeakRef<U>)
    ensures
        r.target() == *a,
{
    WeakRef { cell: WeakCell(Arc::downgrade(a)), target: Ghost(*a) }
}

/// `<std::sync::Weak as Clone>::clone`: another weak pointer to the same
/// allocation, hence the same pointer with the same target.
#[verifier::external_body]
fn weak_clone<U>(w: &WeakRef<U>) -> (r: WeakRef<U>)
    ensures
        r == *w,
{
    WeakRef { cell: WeakCell(Weak::clone(&w.cell.0)), target: Ghost(w.target@) }
}

/// `std::sync::Weak::upgrade` on the pointer that `w` holds: whether the
/// allocation is still alive depends on the strong pointers that other owners
/// hold, so the outcome is left open; when it is alive, the strong pointer
/// that comes back points to the allocation that the weak pointer was made
/// from, which is the target that `weak_of` recorded.
#[verifier::external_body]
fn weak_upgrade<U>(w: &WeakRef<U>) -> (r: Option<Arc<U>>)
    ensures
        r matches Some(b) ==> b == w.target(),
{
    w.cell.0.upgrade()
}

/// A weak pointer to a shared value, with the strong pointer it was made
/// from (its target) recorded as ghost state. Only `weak_of` and `weak_clone`
/// make one.
#[verifier::reject_recursive_types(T)]
pub struct WeakRef<T> {
    cell: WeakCell<T>,
    target: Ghost<Arc<T>>,
}

impl<T> WeakRef<T> {
    /// The strong pointer that this weak pointer was made from.
    pub closed spec fn target(self) -> Arc<T> {
        self.target@
    }

    /// A weak pointer to the allocation of `a`.
    pub(crate) fn downgrade(a: &Arc<T>) -> (r: WeakRef<T>)
        ensures
            r.target() == *a,
    {
        weak_of(a)
    }

    /// A strong pointer to the target, when it is still alive.
    pub(crate) fn upgrade(&self) -> (r: Option<Arc<T>>)
        ensures
            r matches Some(b) ==> b == self.target(),
    {
        weak_upgrade(self)
    }

    /// Another weak pointer to the same allocation.
    pub(crate) fn duplicate(&self) -> (r: WeakRef<T>)
        ensures
            r == *self,
    {
        weak_clone(self)
    }
}

/// Either a strong (`Arc`) or a weak (`Weak`) pointer to a shared value.
#[verifier::reject_recursive_types(T)]
pub enum AoW<T> {
    Arc(Arc<T>),
    Weak(WeakRef<T>),
}

/// `after` is what `downgrade` makes of `before`: a weak pointer, which is
/// `before` itself when that was weak, and one to the target of `before` when
/// that was strong.
pub open spec fn downgraded<T>(before: AoW<T>, after: AoW<T>) -> bool {
    match before {
        AoW::Arc(a) => after matches AoW::Weak(w) && w.target() == a,
        AoW::Weak(_) => after == before,
    }
}

/// `after` is what `upgrade` makes of `before` when it reports `r`: a strong
/// pointer is kept and reports `true`; a weak one becomes a strong pointer to
/// its target when `true` is reported, and is kept otherwise.
pub open spec fn upgraded<T>(before: AoW<T>, after: AoW<T>, r: bool) -> bool {
    match before {
        AoW::Arc(_) => r && after == before,
        AoW::Weak(w) => if r {
            after == AoW::Arc(w.target())
        } else {
            after == before
        },
    }
}

impl<T> AoW<T> {
    /// Turns a weak pointer back into a strong one when its value is still
    /// alive. A strong pointer is left as it is and reports `true`; a weak one
    /// becomes a strong pointer to its target exactly when `true` is reported,
    /// and is left as it was otherwise.
    pub fn upgrade(&mut self) -> (r: bool)
        ensures
            upgraded(*old(self), *final(self), r),
    {
        let arc = if let AoW::Weak(weak) = &*self {
            weak.upgrade()
        } else {
            return true;
        };
        if arc.is_none() {
            return false;
        }
        *self = AoW::Arc(arc.unwrap());
        true
    }

    /// Trades a strong pointer for a weak one to the same value; a weak one is
    /// left as it is.
    pub fn downgrade(&mut self)
        ensures
            downgraded(*old(self), *final(self)),
    {
        let weak = match &*self {
            AoW::Arc(arc) => WeakRef::downgrade(arc),
            AoW::Weak(_) => return,
        };
        *self = AoW::Weak(weak);
    }
}

/// Downgrading twice is downgrading once.
pub proof fn lemma_downgrade_twice<T>(a0: AoW<T>, a1: AoW<T>, a2: AoW<T>)
    requires
        downgraded(a0, a1),
        downgraded(a1, a2),
    ensures
        a2 == a1,
        a2 is Weak,
{
}

/// Upgrading a pointer that was just downgraded from a strong one gives that
/// strong pointer back, when it succeeds.
pub proof fn lemma_upgrade_undoes_downgrade<T>(a0: AoW<T>, a1: AoW<T>, a2: AoW<T>)
    requires
        a0 is Arc,
        downgraded(a0, a1),
        upgraded(a1, a2, true),
    ensures
        a2 == a0,
{
}

/// Upgrading again after an upgrade that succeeded changes nothing and
/// succeeds.
pub proof fn lemma_upgrade_twice<T>(a0: AoW<T>, a1: AoW<T>, a2: AoW<T>, r2: bool)
    requires
        upgraded(a0, a1, true),
        upgraded(a1, a2, r2),
    ensures
        a2 == a1,
        r2,
{
}

impl<T> Clone for AoW<T> {
    /// A pointer of the same kind to the same value.
    fn clone(&self) -> (r: Self)
        ensures
            r == *self,
    {
        match self {
            AoW::Arc(a) => AoW::Arc(arc_clone(a)),
            AoW::Weak(w) => AoW::Weak(w.duplicate()),
        }
    }
}

/// One receiver's outlet: the sending half of its channel while it is open
/// (`None` once the receiver behind it is gone), and, as ghost state, the
/// messages handed to the channel and those the channel accepted, in order.
/// Those records start empty (`open`) and change only in `outlet_send`, the
/// call of `flume::Sender::send`.
#[verifier::reject_recursive_types(T)]
pub struct Outlet<T> {
    tx: Option<flume::Sender<T>>,
    offered: Ghost<Seq<T>>,
    sent: Ghost<Seq<T>>,
}

impl<T> Outlet<T> {
    /// The sending half of the receiver's channel, while the outlet is open.
    pub closed spec fn sender(self) -> Option<flume::Sender<T>> {
        self.tx
    }

    /// The messages handed to the channel through this outlet.
    pub closed spec fn offered(self) -> Seq<T> {
        self.offered@
    }

    /// The messages that the channel accepted through this outlet.
    pub closed spec fn sent(self) -> Seq<T> {
        self.sent@
    }

    /// A new, open outlet on `tx`, through which nothing has been handed yet.
    pub closed spec fn fresh(tx: flume::Sender<T>) -> Outlet<T> {
        Outlet { tx: Some(tx), offered: Ghost(Seq::empty()), sent: Ghost(Seq::empty()) }
    }

    /// The outlet, closed: its sender dropped, its record kept.
    pub closed spec fn closed(self) -> Outlet<T> {
        Outlet { tx: None, ..self }
    }

    /// Opens an outlet on `tx`.
    fn open(tx: flume::Sender<T>) -> (r: Outlet<T>)
        ensures
            r == Outlet::fresh(tx),
    {
        Outlet { tx: Some(tx), offered: Ghost(Seq::empty()), sent: Ghost(Seq::empty()) }
    }

    /// Closes the outlet, dropping its sender.
    fn close(&mut self)
        ensures
            *final(self) == old(self).closed(),
    {
        self.tx = None;
    }

    /// The sending half of the receiver's channel, while the outlet is open.
    pub fn sender_ref(&self) -> (r: Option<&flume::Sender<T>>)
        ensures
            match r {
                Some(s) => self.sender() == Some(*s),
                None => self.sender() is None,
            },
    {
        match &self.tx {
            Some(s) => Some(s),
            None => None,
        }
    }

    /// Hands `msg` to the receiver's channel through an open outlet. It joins
    /// the messages handed; when the channel accepts it, it also joins the
    /// messages sent, and when the receiver is gone it comes back.
    pub fn hand_off(&mut self, msg: T) -> (r: Result<(), T>)
        requires
            old(self).sender() is Some,
        ensures
            final(self).sender() == old(self).sender(),
            final(self).offered() == old(self).offered().push(msg),
            match r {
                Ok(()) => final(self).sent() == old(self).sent().push(msg),
                Err(m) => m == msg && final(self).sent() == old(self).sent(),
            },
    {
        outlet_send(self, msg)
    }
}

/// `flume::Sender::send` on the sender of the open outlet `o`. The call
/// hands `msg` to the channel, so `msg` joins the messages handed; flume
/// accepts it unless every receiver of the channel is gone, which depends on
/// other owners, so the outcome is left open. When it is accepted it joins the
/// messages sent; when it is refused, flume hands the very message back.
#[verifier::external_body]
fn outlet_send<U>(o: &mut Outlet<U>, msg: U) -> (r: Result<(), U>)
    requires
        old(o).sender() is Some,
    ensures
        final(o).sender() == old(o).sender(),
        final(o).offered() == old(o).offered().push(msg),
        match r {
            Ok(()) => final(o).sent() == old(o).sent().push(msg),
            Err(m) => m == msg && final(o).sent() == old(o).sent(),
        },
{
    o.tx.as_ref().unwrap().send(msg).map_err(|e| e.0)
}

/// A fresh outlet is open on the sender it was opened on, with nothing
/// handed or sent; closing keeps the record.
pub proof fn lemma_outlet_parts<T>(tx: flume::Sender<T>, o: Outlet<T>)
    ensures
        Outlet::fresh(tx).sender() == Some(tx),
        Outlet::fresh(tx).offered() == Seq::<T>::empty(),
        Outlet::fresh(tx).sent() == Seq::<T>::empty(),
        o.closed().sender() is None,
        o.closed().offered() == o.offered(),
        o.closed().sent() == o.sent(),
{
}

/// The sending half of a broadcast channel: the feedback channel on which
/// receivers register, and one outlet per receiver that registered.
#[verifier::reject_recursive_types(T)]
pub struct Sender<T: Clone>(flume::Receiver<flume::Sender<T>>, Vec<Outlet<T>>);

/// The receiving half of a broadcast channel: a pointer to the feedback
/// channel of the `Sender`, and the private channel on which messages arrive.
#[verifier::reject_recursive_types(T)]
pub struct Receiver<T>(
    AoW<flume::Sender<flume::Sender<T>>>,
    flume::Receiver<T>,
    Ghost<Option<Outlet<flume::Sender<T>>>>,
);

/// The outlets of `base` followed by one fresh outlet for each of `fresh`.
pub open spec fn with_outlets<T>(base: Seq<Outlet<T>>, fresh: Seq<flume::Sender<T>>) -> Seq<Outlet<T>> {
    base + fresh.map_values(|s: flume::Sender<T>| Outlet::fresh(s))
}

/// What one delivery of `t` makes of an outlet: a closed outlet is left as it
/// is; an open one is handed a clone of `t`, and then either the channel
/// accepted it (it joins what was sent, and the outlet stays open on the same
/// sender) or the channel refused it (nothing joins what was sent, and the
/// outlet is closed).
pub open spec fn handed<T: Clone>(before: Outlet<T>, after: Outlet<T>, t: T) -> bool {
    if before.sender() is None {
        after == before
    } else {
        let c = after.offered().last();
        &&& cloned(t, c)
        &&& after.offered() == before.offered().push(c)
        &&& if after.sender() is Some {
            after.sender() == before.sender() && after.sent() == before.sent().push(c)
        } else {
            after.sent() == before.sent()
        }
    }
}

impl<T: Clone> Sender<T> {
    /// The outlets, one per receiver that has registered, in the order in
    /// which they registered.
    pub closed spec fn outlets(&self) -> Seq<Outlet<T>> {
        self.1@
    }

    /// The feedback channel on which receivers register.
    pub closed spec fn registry(&self) -> flume::Receiver<flume::Sender<T>> {
        self.0
    }

    /// The number of outlets, open or closed.
    pub fn outlet_count(&self) -> (n: usize)
        ensures
            n == self.outlets().len(),
    {
        self.1.len()
    }

    /// The sending half of the outlet at `i`, `None` where the outlet is
    /// closed or out of range.
    pub fn outlet(&self, i: usize) -> (r: Option<&flume::Sender<T>>)
        ensures
            i < self.outlets().len() ==> match r {
                Some(s) => self.outlets()[i as int].sender() == Some(*s),
                None => self.outlets()[i as int].sender() is None,
            },
            i >= self.outlets().len() ==> r is None,
    {
        if i < self.1.len() {
            self.1[i].sender_ref()
        } else {
            None
        }
    }

    /// Opens one outlet for each sender in `fresh`, after the existing ones.
    fn open_outlets(&mut self, fresh: Vec<flume::Sender<T>>)
        ensures
            final(self).outlets() == with_outlets(old(self).outlets(), fresh@),
            final(self).registry() == old(self).registry(),
    {
        let ghost base = self.1@;
        let ghost all = fresh@;
        let mut fresh = fresh;
        while fresh.len() > 0
            invariant
                self.0 == old(self).0,
                all.len() >= fresh@.len(),
                fresh@ == all.subrange(all.len() - fresh@.len(), all.len() as int),
                self.1@ == with_outlets(base, all.subrange(0, all.len() - fresh@.len())),
            decreases fresh@.len(),
        {
            let ghost k = all.len() - fresh@.len();
            let s = fresh.remove(0);
            let o = Outlet::open(s);
            self.1.push(o);
            proof {
                assert(all.subrange(0, k + 1) =~= all.subrange(0, k).push(s));
                assert(with_outlets(base, all.subrange(0, k + 1)) =~= with_outlets(
                    base,
                    all.subrange(0, k),
                ).push(o));
                assert(fresh@ =~= all.subrange(all.len() - fresh@.len(), all.len() as int));
            }
        }
        proof {
            assert(all.subrange(0, all.len() as int) =~= all);
        }
    }

    /// Records the outcome of a delivery on outlet `i`: an outlet whose
    /// receiver is gone is closed (its record kept), any other is left as it
    /// is.
    pub fn settle(&mut self, i: usize, delivered: bool)
        requires
            i < old(self).outlets().len(),
        ensures
            final(self).outlets() == (if delivered {
                old(self).outlets()
            } else {
                old(self).outlets().update(i as int, old(self).outlets()[i as int].closed())
            }),
            final(self).registry() == old(self).registry(),
    {
        if !delivered {
            let mut o = self.1.remove(i);
            o.close();
            self.1.insert(i, o);
            assert(self.1@ =~= old(self).outlets().update(i as int, old(self).outlets()[i as int].closed()));
        }
    }

    /// Fails, changing nothing, when no receiver can register any longer
    /// (every receiver, and so the feedback channel, is gone); otherwise
    /// opens an outlet for each receiver that registered since the last call.
    pub fn register_pending(&mut self) -> (open: bool)
        ensures
            !open ==> *final(self) == *old(self),
            final(self).registry() == old(self).registry(),
            open ==> exists|fresh: Seq<flume::Sender<T>>|
                final(self).outlets() == with_outlets(old(self).outlets(), fresh),
    {
        if channel_disconnected(&self.0) {
            return false;
        }
        let fresh = channel_drain(&self.0);
        let ghost f = fresh@;
        self.open_outlets(fresh);
        assert(self.outlets() == with_outlets(old(self).outlets(), f));
        true
    }

    /// Hands a clone of `t` to every open outlet, after opening outlets for
    /// the receivers that registered since the last call, and closes each
    /// outlet whose channel refuses it (its receiver being gone). Fails with
    /// `t` handed back, changing nothing, when every receiver is gone.
    pub fn send(&mut self, t: T) -> (r: Result<(), flume::SendError<T>>)
        ensures
            r is Err ==> *final(self) == *old(self),
            r matches Err(e) ==> e.0 == t,
            final(self).registry() == old(self).registry(),
            r is Ok ==> exists|fresh: Seq<flume::Sender<T>>| {
                let mid = #[trigger] with_outlets(old(self).outlets(), fresh);
                &&& final(self).outlets().len() == mid.len()
                &&& forall|j: int| 0 <= j < mid.len() ==> handed(mid[j], #[trigger] final(self).outlets()[j], t)
            },
    {
        if !self.register_pending() {
            return Err(flume::SendError(t));
        }
        let ghost mid = self.1@;
        let ghost f = choose|f: Seq<flume::Sender<T>>| mid == with_outlets(old(self).outlets(), f);
        assert(mid == with_outlets(old(self).outlets(), f));
        let n = self.1.len();
        let mut i: usize = 0;
        while i < n
            invariant
                self.0 == old(self).0,
                n == self.1@.len(),
                n == mid.len(),
                i <= n,
                forall|j: int| 0 <= j < i ==> handed(mid[j], #[trigger] self.1@[j], t),
                forall|j: int| i <= j < n ==> #[trigger] self.1@[j] == mid[j],
            decreases n - i,
        {
            if self.1[i].sender_ref().is_some() {
                let mut o = self.1.remove(i);
                let c = t.clone();
                let delivered = o.hand_off(c).is_ok();
                self.1.insert(i, o);
                self.settle(i, delivered);
            }
            i = i + 1;
        }
        assert(self.outlets() == self.1@);
        Ok(())
    }
}

impl<T> Receiver<T> {
    /// Whether the pointer to the feedback channel is strong.
    pub open spec fn is_strong(&self) -> bool {
        self.feedback() is Arc
    }

    /// The pointer to the feedback channel of the `Sender`.
    pub closed spec fn feedback(&self) -> AoW<flume::Sender<flume::Sender<T>>> {
        self.0
    }

    /// The receiver's own channel, on which messages arrive.
    pub closed spec fn inbox(&self) -> flume::Receiver<T> {
        self.1
    }

    /// How this receiver registered with the `Sender`, when it was made as a
    /// clone that reached the feedback channel: the outlet on the feedback
    /// channel through which the sending half of its own channel was handed.
    pub closed spec fn enrolment(&self) -> Option<Outlet<flume::Sender<T>>> {
        self.2@
    }

    /// The receiver's own channel, on which messages arrive.
    pub fn inbox_channel(&self) -> (r: &flume::Receiver<T>)
        ensures
            *r == self.inbox(),
    {
        &self.1
    }

    /// Waits for the next message on this receiver's own channel, or reports
    /// that the `Sender` is gone and every message has been taken.
    pub fn recv(&self) -> Result<T, flume::RecvError> {
        channel_recv(&self.1)
    }

    /// Holds the feedback channel only weakly from now on, so that this
    /// receiver alone does not keep the `Sender` able to admit new receivers.
    pub fn downgrade(&mut self)
        ensures
            !final(self).is_strong(),
            downgraded(old(self).feedback(), final(self).feedback()),
            final(self).inbox() == old(self).inbox(),
            final(self).enrolment() == old(self).enrolment(),
            !old(self).is_strong() ==> *final(self) == *old(self),
    {
        self.0.downgrade();
    }

    /// Holds the feedback channel strongly again when it is still alive;
    /// reports whether the pointer is now strong, and changes nothing when it
    /// is not.
    pub fn upgrade(&mut self) -> (r: bool)
        ensures
            r == final(self).is_strong(),
            upgraded(old(self).feedback(), final(self).feedback(), r),
            final(self).inbox() == old(self).inbox(),
            final(self).enrolment() == old(self).enrolment(),
            old(self).is_strong() ==> *final(self) == *old(self),
            !r ==> *final(self) == *old(self),
    {
        self.0.upgrade()
    }
}

impl<T> Clone for Receiver<T> {
    /// A new receiver with a channel of its own, holding the same pointer to
    /// the feedback channel as `self`. When the feedback channel is still
    /// reachable, the sending half of the new channel is handed to it, which
    /// registers the new receiver with the `Sender`.
    fn clone(&self) -> (r: Self)
        ensures
            r.is_strong() == self.is_strong(),
            r.feedback() == self.feedback(),
            self.feedback() matches AoW::Arc(a) ==> r.enrolment() matches Some(o) && o.sender() == Some(
                *a,
            ) && o.offered().len() == 1,
            self.feedback() matches AoW::Weak(w) ==> (r.enrolment() matches Some(o) ==> o.sender()
                == Some(*w.target()) && o.offered().len() == 1),
    {
        let (tx, rx) = channel();
        let enrolment = match &self.0 {
            AoW::Arc(atx) => {
                let mut fb = Outlet::open(sender_clone(&**atx));
                let _ = fb.hand_off(tx);
                Some(fb)
            },
            AoW::Weak(wtx) => match wtx.upgrade() {
                Some(atx) => {
                    let mut fb = Outlet::open(sender_clone(&*atx));
                    let _ = fb.hand_off(tx);
                    Some(fb)
                },
                None => None,
            },
        };
        let ghost record = enrolment;
        Receiver(self.0.clone(), rx, Ghost(record))
    }
}

/// A new broadcast channel: a `Sender` with one open outlet, and the
/// `Receiver` behind it, which holds the feedback channel strongly.
pub fn unbounded<T: Clone>() -> (r: (Sender<T>, Receiver<T>))
    ensures
        r.0.outlets().len() == 1,
        r.0.outlets()[0].sender() is Some,
        r.0.outlets()[0].offered() == Seq::<T>::empty(),
        r.1.is_strong(),
{
    let (fb_tx, fb_rx) = channel();
    let (data_tx, data_rx) = channel();
    let outlet = Outlet::open(data_tx);
    (Sender(fb_rx, vec![outlet]), Receiver(AoW::Arc(Arc::new(fb_tx)), data_rx, Ghost(None)))
}

} // verus!
