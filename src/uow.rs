use vstd::prelude::*;
use crate::events::{message, Event, EventView, MessageBroker, PRODUCT_CREATED_TOPIC};
use crate::repositories::ProductRepository;

verus! {

/// The messages that a commit owes for `events`, in order.
pub open spec fn outbox(events: Seq<EventView>) -> Seq<(EventView, Seq<char>)> {
    events.map_values(|e: EventView| message(e, PRODUCT_CREATED_TOPIC@))
}

/// Groups the writes of one operation into a store transaction, together
/// with the events that they raise. The events are held back until the store
/// has committed, then published in the order in which they were staged.
pub struct ProductUnitOfWork<R: ProductRepository, B: MessageBroker> {
    product_repository: R,
    message_broker: B,
    events_to_publish: Vec<Event>,
}

impl<R: ProductRepository, B: MessageBroker> ProductUnitOfWork<R, B> {
    /// The events staged since the last commit or rollback, oldest first.
    pub closed spec fn pending(&self) -> Seq<EventView> {
        self.events_to_publish@.map_values(|e: Event| e@)
    }

    pub closed spec fn repository(&self) -> R {
        self.product_repository
    }

    pub closed spec fn broker(&self) -> B {
        self.message_broker
    }

    /// No transaction is open and no event waits.
    pub open spec fn idle(&self) -> bool {
        &&& self.repository().open_transaction() is None
        &&& self.pending().len() == 0
    }

    pub fn new(product_repository: R, message_broker: B) -> (r: Self)
        ensures
            r.repository() == product_repository,
            r.broker() == message_broker,
            r.pending().len() == 0,
    {
        let r = ProductUnitOfWork { product_repository, message_broker, events_to_publish: Vec::new() };
        assert(r.pending() =~= Seq::<EventView>::empty());
        r
    }

    pub fn get_product_repository(&self) -> (r: &R)
        ensures
            *r == self.repository(),
    {
        &self.product_repository
    }

    pub fn get_message_broker(&self) -> (r: &B)
        ensures
            *r == self.broker(),
    {
        &self.message_broker
    }

    /// Lends the repository for writes and reads inside this unit of work.
    pub fn product_repository_mut(&mut self) -> (r: &mut R)
        ensures
            *r == old(self).repository(),
            final(self).repository() == *final(r),
            final(self).broker() == old(self).broker(),
            final(self).pending() == old(self).pending(),
    {
        &mut self.product_repository
    }

    /// Opens the one transaction that this unit of work may hold.
    pub fn begin_transaction(&mut self) -> (r: Result<(), String>)
        requires
            old(self).repository().open_transaction() is None,
        ensures
            final(self).broker() == old(self).broker(),
            final(self).pending() == old(self).pending(),
            final(self).repository().products() == old(self).repository().products(),
            r is Ok ==> final(self).repository().open_transaction() == Some(
                old(self).repository().products(),
            ),
            r is Err ==> final(self).repository().open_transaction() is None,
    {
        self.product_repository.begin_transaction()
    }

    /// Holds `event` back until the next commit; does no I/O.
    pub fn stage_event(&mut self, event: Event)
        ensures
            final(self).repository() == old(self).repository(),
            final(self).broker() == old(self).broker(),
            final(self).pending() == old(self).pending().push(event@),
    {
        let ghost e = event@;
        self.events_to_publish.push(event);
        assert(self.pending() =~= old(self).pending().push(e));
    }

    /// Commits the store transaction, then publishes the staged events in
    /// order. If the store does not commit, nothing is published and the
    /// transaction stays open for the caller to roll back. If it commits, the
    /// writes stand, and the result is an error exactly when some event was
    /// not published. The staged events are dropped in every case.
    pub fn commit(&mut self) -> (r: Result<(), String>)
        requires
            old(self).repository().open_transaction() is Some,
        ensures
            final(self).pending().len() == 0,
            final(self).repository().products() == old(self).repository().products(),
            final(self).broker().published().len() <= old(self).broker().published().len() + old(
                self,
            ).pending().len(),
            old(self).broker().published().len() <= final(self).broker().published().len(),
            final(self).broker().published().subrange(0, old(self).broker().published().len() as int)
                == old(self).broker().published(),
            forall|k: int|
                old(self).broker().published().len() <= k < final(self).broker().published().len()
                    ==> outbox(old(self).pending()).contains(
                    #[trigger] final(self).broker().published()[k],
                ),
            final(self).repository().open_transaction() is Some ==> {
                &&& r is Err
                &&& final(self).repository().open_transaction()
                    == old(self).repository().open_transaction()
                &&& final(self).broker().published() == old(
                    self,
                ).broker().published()
            },
            final(self).repository().open_transaction() is None ==> (r is Ok
                <==> final(self).broker().published() == old(
                self,
            ).broker().published() + outbox(old(self).pending())),
    {
        match self.product_repository.commit_transaction() {
            Ok(()) => {},
            Err(e) => {
                self.events_to_publish = Vec::new();
                assert(self.pending() =~= Seq::<EventView>::empty());
                assert(self.message_broker.published().subrange(
                    0,
                    self.message_broker.published().len() as int,
                ) =~= self.message_broker.published());
                return Err(e);
            },
        }
        let ghost sent = old(self).broker().published();
        let ghost staged = old(self).pending();
        assert(sent.subrange(0, sent.len() as int) =~= sent);
        let mut all_published = true;
        let mut i: usize = 0;
        while i < self.events_to_publish.len()
            invariant
                i <= self.events_to_publish@.len(),
                staged == self.events_to_publish@.map_values(|e: Event| e@),
                self.product_repository.open_transaction() is None,
                self.product_repository.products() == old(self).repository().products(),
                all_published ==> self.message_broker.published() == sent + outbox(
                    staged.subrange(0, i as int),
                ),
                !all_published ==> self.message_broker.published().len() < sent.len() + i,
                self.message_broker.published().len() <= sent.len() + i,
                sent.len() <= self.message_broker.published().len(),
                self.message_broker.published().subrange(0, sent.len() as int) == sent,
                forall|k: int|
                    sent.len() <= k < self.message_broker.published().len() ==> outbox(
                        staged,
                    ).contains(#[trigger] self.message_broker.published()[k]),
            decreases self.events_to_publish@.len() - i,
        {
            let outcome = self.message_broker.publish_message(
                &self.events_to_publish[i],
                PRODUCT_CREATED_TOPIC,
            );
            proof {
                assert(outbox(staged.subrange(0, i as int + 1)) =~= outbox(
                    staged.subrange(0, i as int),
                ).push(message(staged[i as int], PRODUCT_CREATED_TOPIC@)));
            }
            assert(self.message_broker.published().subrange(0, sent.len() as int) =~= sent);
            assert(outbox(staged)[i as int] == message(staged[i as int], PRODUCT_CREATED_TOPIC@));
            if outcome.is_err() {
                all_published = false;
            }
            i = i + 1;
        }
        proof {
            assert(staged.subrange(0, staged.len() as int) =~= staged);
        }
        self.events_to_publish = Vec::new();
        assert(self.pending() =~= Seq::<EventView>::empty());
        if all_published {
            Ok(())
        } else {
            Err(String::from_str("Failed to commit changes."))
        }
    }

    /// Aborts the store transaction and drops the staged events unpublished.
    pub fn rollback(&mut self) -> (r: Result<(), String>)
        requires
            old(self).repository().open_transaction() is Some,
        ensures
            final(self).pending().len() == 0,
            final(self).broker() == old(self).broker(),
            final(self).repository().open_transaction() is None,
            final(self).repository().products()
                == old(self).repository().open_transaction()->Some_0,
    {
        self.events_to_publish = Vec::new();
        assert(self.pending() =~= Seq::<EventView>::empty());
        self.product_repository.abort_transaction()
    }
}

} // verus!
