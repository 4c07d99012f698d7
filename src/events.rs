use vstd::prelude::*;
use crate::cqrs::{
    has_id_and_reserved, ready, release_effect, reserve_effect, sent, stored, CommandHandler,
    DecrementProductInventoryCommandHandler, DecrementProductReservedInventoryCommand,
    IncrementProdcuctInventoryCommandHandler, IncrementProdcuctReservedInventoryCommand,
};
use crate::repositories::{has_id, lookup, ProductRepository};
use crate::uow::ProductUnitOfWork;

verus! {

/// Queue on which other services announce that a product went into a cart.
pub const PRODUCT_ADDED_TO_CART_QUEUE_NAME: &'static str = "product.added.to.cart";

/// Queue on which other services announce that a product left a cart.
pub const PRODUCT_REMOVED_FROM_CART_QUEUE_NAME: &'static str = "product.removed.from.cart";

/// Topic to which committed units of work publish their staged events.
pub const PRODUCT_CREATED_TOPIC: &'static str = "product.created";

/// Where and as whom to reach the message broker.
pub struct RabbitMqInitializationInfo {
    uri: String,
    port: u16,
    username: String,
    password: String,
}

impl RabbitMqInitializationInfo {
    pub closed spec fn spec_uri(&self) -> Seq<char> {
        self.uri@
    }

    pub closed spec fn spec_port(&self) -> u16 {
        self.port
    }

    pub closed spec fn spec_username(&self) -> Seq<char> {
        self.username@
    }

    pub closed spec fn spec_password(&self) -> Seq<char> {
        self.password@
    }

    pub fn new(uri: String, port: u16, username: String, password: String) -> (r:
        RabbitMqInitializationInfo)
        ensures
            r.spec_uri() == uri@,
            r.spec_port() == port,
            r.spec_username() == username@,
            r.spec_password() == password@,
    {
        RabbitMqInitializationInfo { uri, port, username, password }
    }

    pub fn uri(&self) -> (r: &String)
        ensures
            r@ == self.spec_uri(),
    {
        &self.uri
    }

    pub fn port(&self) -> (r: u16)
        ensures
            r == self.spec_port(),
    {
        self.port
    }

    pub fn username(&self) -> (r: &String)
        ensures
            r@ == self.spec_username(),
    {
        &self.username
    }

    pub fn password(&self) -> (r: &String)
        ensures
            r@ == self.spec_password(),
    {
        &self.password
    }
}

/// A domain event, as published to and received from the broker.
pub enum Event {
    ProductCreatedEvent { id: String, name: String, price_cents: i64 },
    ProductAddedToCartEvent { product_id: String },
    ProductRemovedFromCartEvent { product_id: String },
}

pub enum EventView {
    ProductCreated { id: Seq<char>, name: Seq<char>, price_cents: int },
    ProductAddedToCart { product_id: Seq<char> },
    ProductRemovedFromCart { product_id: Seq<char> },
}

impl View for Event {
    type V = EventView;

    open spec fn view(&self) -> EventView {
        match self {
            Event::ProductCreatedEvent { id, name, price_cents } => EventView::ProductCreated {
                id: id@,
                name: name@,
                price_cents: *price_cents as int,
            },
            Event::ProductAddedToCartEvent { product_id } => EventView::ProductAddedToCart {
                product_id: product_id@,
            },
            Event::ProductRemovedFromCartEvent { product_id } => EventView::ProductRemovedFromCart {
                product_id: product_id@,
            },
        }
    }
}

impl Clone for Event {
    fn clone(&self) -> (r: Event)
        ensures
            r == *self,
    {
        match self {
            Event::ProductCreatedEvent { id, name, price_cents } => Event::ProductCreatedEvent {
                id: id.clone(),
                name: name.clone(),
                price_cents: *price_cents,
            },
            Event::ProductAddedToCartEvent { product_id } => Event::ProductAddedToCartEvent {
                product_id: product_id.clone(),
            },
            Event::ProductRemovedFromCartEvent { product_id } =>
                Event::ProductRemovedFromCartEvent { product_id: product_id.clone() },
        }
    }
}

/// One delivered message: an event and the destination it was sent to.
pub open spec fn message(event: EventView, destination: Seq<char>) -> (EventView, Seq<char>) {
    (event, destination)
}

/// The outbound side of a message broker. `published` is the log of every
/// message that the broker accepted, oldest first; of a broker that does not
/// describe it nothing may be assumed.
pub trait MessageBroker {
    closed spec fn published(&self) -> Seq<(EventView, Seq<char>)> {
        arbitrary()
    }

    /// Delivers `event` to `destination_name` durably. A failure leaves the
    /// log as it was; nothing is retried here.
    fn publish_message(&mut self, event: &Event, destination_name: &str) -> (r: Result<(), String>)
        ensures
            r is Ok ==> final(self).published() == old(self).published().push(
                message(event@, destination_name@),
            ),
            r is Err ==> final(self).published() == old(self).published(),
    ;
}

/// A broker held in memory: it records what it accepts, or, while it is
/// unavailable, refuses every message.
pub struct InMemoryMessageBroker {
    delivered: Vec<(Event, String)>,
    available: bool,
}

impl InMemoryMessageBroker {
    pub fn new() -> (r: InMemoryMessageBroker)
        ensures
            r.published().len() == 0,
            r.is_available(),
    {
        InMemoryMessageBroker { delivered: Vec::new(), available: true }
    }

    pub closed spec fn is_available(&self) -> bool {
        self.available
    }

    /// Makes the broker accept (`true`) or refuse (`false`) what follows.
    pub fn set_available(&mut self, available: bool)
        ensures
            final(self).published() == old(self).published(),
            final(self).is_available() == available,
    {
        self.available = available;
    }

    /// The messages accepted so far, oldest first.
    pub fn delivered(&self) -> (r: &Vec<(Event, String)>)
        ensures
            r@.len() == self.published().len(),
            forall|i: int|
                0 <= i < r@.len() ==> #[trigger] message(r@[i].0@, r@[i].1@)
                    == self.published()[i],
    {
        &self.delivered
    }
}

impl MessageBroker for InMemoryMessageBroker {
    closed spec fn published(&self) -> Seq<(EventView, Seq<char>)> {
        self.delivered@.map_values(|m: (Event, String)| message(m.0@, m.1@))
    }

    fn publish_message(&mut self, event: &Event, destination_name: &str) -> (r: Result<(), String>)
        ensures
            r is Ok <==> old(self).is_available(),
            final(self).is_available() == old(self).is_available(),
    {
        if self.available {
            self.delivered.push((event.clone(), destination_name.to_owned()));
            assert(self.delivered@.map_values(|m: (Event, String)| message(m.0@, m.1@))
                =~= old(self).delivered@.map_values(|m: (Event, String)| message(m.0@, m.1@)).push(
                message(event@, destination_name@),
            ));
            Ok(())
        } else {
            Err(String::from_str("message broker is unavailable"))
        }
    }
}

/// Applies what arrives on the added-to-cart queue: a product that went into
/// a cart has one reserved unit released. Any other event is ignored.
pub struct ProductAddedToCartEventHandler {}

impl ProductAddedToCartEventHandler {
    pub fn new() -> Self {
        ProductAddedToCartEventHandler {  }
    }

    pub fn consume<R: ProductRepository, B: MessageBroker>(
        &self,
        uow: &mut ProductUnitOfWork<R, B>,
        event: Event,
    ) -> (r: Result<(), String>)
        requires
            ready(*old(uow)),
        ensures
            ready(*final(uow)),
            sent(*final(uow)) == sent(*old(uow)),
            match event@ {
                EventView::ProductAddedToCart { product_id } => {
                    &&& release_effect(stored(*old(uow)), stored(*final(uow)), product_id, r is Ok)
                    &&& !has_id_and_reserved(stored(*old(uow)), product_id) ==> r is Err
                },
                _ => r is Ok && *final(uow) == *old(uow),
            },
    {
        match event {
            Event::ProductAddedToCartEvent { product_id } => {
                let command = DecrementProductReservedInventoryCommand { product_id };
                match DecrementProductInventoryCommandHandler::new().handle(uow, &command) {
                    Ok(_) => Ok(()),
                    Err(e) => Err(e),
                }
            },
            _ => Ok(()),
        }
    }
}

/// Applies what arrives on the removed-from-cart queue: a product that left a
/// cart has one more unit reserved. Any other event is ignored.
pub struct ProductRemoveFromCartEventHandler {}

impl ProductRemoveFromCartEventHandler {
    pub fn new() -> Self {
        ProductRemoveFromCartEventHandler {  }
    }

    pub fn consume<R: ProductRepository, B: MessageBroker>(
        &self,
        uow: &mut ProductUnitOfWork<R, B>,
        event: Event,
    ) -> (r: Result<(), String>)
        requires
            ready(*old(uow)),
        ensures
            ready(*final(uow)),
            sent(*final(uow)) == sent(*old(uow)),
            match event@ {
                EventView::ProductRemovedFromCart { product_id } => {
                    &&& reserve_effect(stored(*old(uow)), stored(*final(uow)), product_id, r is Ok)
                    &&& !has_id(stored(*old(uow)), product_id) ==> r is Err
                },
                _ => r is Ok && *final(uow) == *old(uow),
            },
    {
        match event {
            Event::ProductRemovedFromCartEvent { product_id } => {
                let command = IncrementProdcuctReservedInventoryCommand { product_id };
                match IncrementProdcuctInventoryCommandHandler::new().handle(uow, &command) {
                    Ok(_) => Ok(()),
                    Err(e) => Err(e),
                }
            },
            _ => Ok(()),
        }
    }
}

/// The consumer that a queue is served by.
pub enum CartEventConsumer {
    AddedToCart(ProductAddedToCartEventHandler),
    RemovedFromCart(ProductRemoveFromCartEventHandler),
}

/// Picks the consumer for one of the two cart queues; no other queue has one.
pub fn consumer_for_queue(queue_name: &str) -> (r: Option<CartEventConsumer>)
    ensures
        queue_name@ == PRODUCT_ADDED_TO_CART_QUEUE_NAME@ <==> r matches Some(
            CartEventConsumer::AddedToCart(_),
        ),
        queue_name@ == PRODUCT_REMOVED_FROM_CART_QUEUE_NAME@ <==> r matches Some(
            CartEventConsumer::RemovedFromCart(_),
        ),
{
    proof {
        reveal_strlit("product.added.to.cart");
        reveal_strlit("product.removed.from.cart");
        assert(PRODUCT_ADDED_TO_CART_QUEUE_NAME@.len() != PRODUCT_REMOVED_FROM_CART_QUEUE_NAME@.len());
    }
    let name = queue_name.to_owned();
    if name == PRODUCT_ADDED_TO_CART_QUEUE_NAME.to_owned() {
        Some(CartEventConsumer::AddedToCart(ProductAddedToCartEventHandler::new()))
    } else if name == PRODUCT_REMOVED_FROM_CART_QUEUE_NAME.to_owned() {
        Some(CartEventConsumer::RemovedFromCart(ProductRemoveFromCartEventHandler::new()))
    } else {
        None
    }
}

impl CartEventConsumer {
    pub fn consume<R: ProductRepository, B: MessageBroker>(
        &self,
        uow: &mut ProductUnitOfWork<R, B>,
        event: Event,
    ) -> (r: Result<(), String>)
        requires
            ready(*old(uow)),
        ensures
            ready(*final(uow)),
            sent(*final(uow)) == sent(*old(uow)),
            match (self, event@) {
                (CartEventConsumer::AddedToCart(_), EventView::ProductAddedToCart { product_id }) => {
                    &&& release_effect(stored(*old(uow)), stored(*final(uow)), product_id, r is Ok)
                    &&& !has_id_and_reserved(stored(*old(uow)), product_id) ==> r is Err
                },
                (
                    CartEventConsumer::RemovedFromCart(_),
                    EventView::ProductRemovedFromCart { product_id },
                ) => {
                    &&& reserve_effect(stored(*old(uow)), stored(*final(uow)), product_id, r is Ok)
                    &&& !has_id(stored(*old(uow)), product_id) ==> r is Err
                },
                _ => r is Ok && *final(uow) == *old(uow),
            },
    {
        match self {
            CartEventConsumer::AddedToCart(h) => h.consume(uow, event),
            CartEventConsumer::RemovedFromCart(h) => h.consume(uow, event),
        }
    }
}

} // verus!
