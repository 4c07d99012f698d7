use product_service::cqrs::{CreateProductCommand, CreateProductCommandHandler};
use product_service::events::{
    consumer_for_queue, CartEventConsumer, Event, InMemoryMessageBroker, ProductAddedToCartEventHandler,
    ProductRemoveFromCartEventHandler, PRODUCT_ADDED_TO_CART_QUEUE_NAME,
    PRODUCT_REMOVED_FROM_CART_QUEUE_NAME,
};
use product_service::repositories::{InMemoryProductRepository, ProductRepository};
use product_service::uow::ProductUnitOfWork;

type Uow = ProductUnitOfWork<InMemoryProductRepository, InMemoryMessageBroker>;

fn uow_with_product() -> (Uow, String) {
    let mut uow = ProductUnitOfWork::new(InMemoryProductRepository::new(), InMemoryMessageBroker::new());
    let command = CreateProductCommand {
        name: String::from("laptop"),
        price_cents: 99999,
        description: String::from("15-inch"),
    };
    let id = CreateProductCommandHandler::new().handle(&mut uow, &command, 0).unwrap().id;
    (uow, id)
}

fn reserved(uow: &Uow, id: &str) -> u32 {
    uow.get_product_repository().read(id).unwrap().reserved_inventory
}

#[test]
fn queue_names_pick_their_consumers() {
    assert_eq!(PRODUCT_ADDED_TO_CART_QUEUE_NAME, "product.added.to.cart");
    assert_eq!(PRODUCT_REMOVED_FROM_CART_QUEUE_NAME, "product.removed.from.cart");
    assert!(matches!(
        consumer_for_queue(PRODUCT_ADDED_TO_CART_QUEUE_NAME),
        Some(CartEventConsumer::AddedToCart(_))
    ));
    assert!(matches!(
        consumer_for_queue(PRODUCT_REMOVED_FROM_CART_QUEUE_NAME),
        Some(CartEventConsumer::RemovedFromCart(_))
    ));
    assert!(consumer_for_queue("product.created").is_none());
    assert!(consumer_for_queue("").is_none());
}

#[test]
fn removed_from_cart_reserves_and_added_to_cart_releases() {
    let (mut uow, id) = uow_with_product();
    ProductRemoveFromCartEventHandler::new()
        .consume(&mut uow, Event::ProductRemovedFromCartEvent { product_id: id.clone() })
        .unwrap();
    assert_eq!(reserved(&uow, &id), 1);
    ProductAddedToCartEventHandler::new()
        .consume(&mut uow, Event::ProductAddedToCartEvent { product_id: id.clone() })
        .unwrap();
    assert_eq!(reserved(&uow, &id), 0);
}

#[test]
fn added_to_cart_at_zero_reserved_surfaces_an_error() {
    let (mut uow, id) = uow_with_product();
    let result = ProductAddedToCartEventHandler::new()
        .consume(&mut uow, Event::ProductAddedToCartEvent { product_id: id.clone() });
    assert!(result.is_err());
    assert_eq!(reserved(&uow, &id), 0);
}

#[test]
fn consumers_ignore_other_events() {
    let (mut uow, id) = uow_with_product();
    let other = Event::ProductCreatedEvent { id: id.clone(), name: String::from("x"), price_cents: 1 };
    assert!(ProductAddedToCartEventHandler::new().consume(&mut uow, other).is_ok());
    let wrong_queue = Event::ProductAddedToCartEvent { product_id: id.clone() };
    assert!(ProductRemoveFromCartEventHandler::new().consume(&mut uow, wrong_queue).is_ok());
    assert_eq!(reserved(&uow, &id), 0);
    assert_eq!(uow.get_message_broker().delivered().len(), 1);
}

#[test]
fn routed_consumer_applies_its_event() {
    let (mut uow, id) = uow_with_product();
    let consumer = consumer_for_queue(PRODUCT_REMOVED_FROM_CART_QUEUE_NAME).unwrap();
    consumer
        .consume(&mut uow, Event::ProductRemovedFromCartEvent { product_id: id.clone() })
        .unwrap();
    assert_eq!(reserved(&uow, &id), 1);
}

