use product_service::domain::Product;
use product_service::events::{Event, InMemoryMessageBroker, RabbitMqInitializationInfo};
use product_service::metrics::{MetricType, PrometheusMetricsService};
use product_service::repositories::{InMemoryProductRepository, MongoDbInitializationInfo, ProductRepository};
use product_service::uow::ProductUnitOfWork;

fn product(id: &str, name: &str) -> Product {
    Product {
        id: String::from(id),
        name: String::from(name),
        price_cents: 100,
        description: String::from("d"),
        available_inventory: 0,
        reserved_inventory: 0,
        stars: 0,
        number_of_reviews: 0,
        created_at_utc: 0,
        updated_at_utc: 0,
        version: 0,
    }
}

#[test]
fn repository_create_read_update_delete() {
    let mut repo = InMemoryProductRepository::new();
    assert!(!repo.in_transaction());
    repo.begin_transaction().unwrap();
    assert!(repo.in_transaction());
    let created = repo.create(String::from("a"), product("a", "first")).unwrap();
    assert_eq!(created.name, "first");
    repo.create(String::from("b"), product("b", "second")).unwrap();
    assert!(repo.create(String::from("a"), product("a", "again")).is_err());

    let updated = repo.update(String::from("a"), product("a", "renamed")).unwrap();
    assert_eq!(updated.name, "renamed");
    assert!(repo.update(String::from("z"), product("z", "none")).is_err());
    repo.delete("b").unwrap();
    repo.commit_transaction().unwrap();
    assert!(!repo.in_transaction());

    assert_eq!(repo.read("a").unwrap().name, "renamed");
    assert!(repo.read("b").is_err());
    let all = repo.read_all().unwrap();
    assert_eq!(all.len(), 1);
    assert_eq!(all[0].id, "a");
}

#[test]
fn repository_keeps_insertion_order() {
    let mut repo = InMemoryProductRepository::new();
    repo.begin_transaction().unwrap();
    for id in ["c", "a", "b"] {
        repo.create(String::from(id), product(id, id)).unwrap();
    }
    repo.commit_transaction().unwrap();
    let ids: Vec<String> = repo.read_all().unwrap().into_iter().map(|p| p.id).collect();
    assert_eq!(ids, vec!["c", "a", "b"]);
}

#[test]
fn aborted_transaction_restores_the_store() {
    let mut repo = InMemoryProductRepository::new();
    repo.begin_transaction().unwrap();
    repo.create(String::from("a"), product("a", "kept")).unwrap();
    repo.commit_transaction().unwrap();

    repo.begin_transaction().unwrap();
    repo.create(String::from("b"), product("b", "dropped")).unwrap();
    repo.update(String::from("a"), product("a", "changed")).unwrap();
    repo.abort_transaction().unwrap();

    assert!(!repo.in_transaction());
    assert!(repo.read("b").is_err());
    assert_eq!(repo.read("a").unwrap().name, "kept");
}

#[test]
fn rollback_drops_staged_events() {
    let mut uow = ProductUnitOfWork::new(InMemoryProductRepository::new(), InMemoryMessageBroker::new());
    uow.begin_transaction().unwrap();
    uow.product_repository_mut().create(String::from("a"), product("a", "x")).unwrap();
    uow.stage_event(Event::ProductAddedToCartEvent { product_id: String::from("a") });
    uow.rollback().unwrap();
    assert!(uow.get_product_repository().read("a").is_err());

    uow.begin_transaction().unwrap();
    uow.commit().unwrap();
    assert!(uow.get_message_broker().delivered().is_empty());
}

#[test]
fn commit_publishes_staged_events_in_order_then_clears() {
    let mut uow = ProductUnitOfWork::new(InMemoryProductRepository::new(), InMemoryMessageBroker::new());
    uow.begin_transaction().unwrap();
    uow.stage_event(Event::ProductAddedToCartEvent { product_id: String::from("first") });
    uow.stage_event(Event::ProductAddedToCartEvent { product_id: String::from("second") });
    uow.commit().unwrap();

    uow.begin_transaction().unwrap();
    uow.commit().unwrap();

    let log = uow.get_message_broker().delivered();
    assert_eq!(log.len(), 2);
    let ids: Vec<&String> = log
        .iter()
        .map(|(e, _)| match e {
            Event::ProductAddedToCartEvent { product_id } => product_id,
            _ => panic!("unexpected event"),
        })
        .collect();
    assert_eq!(ids, vec!["first", "second"]);
    assert!(log.iter().all(|(_, topic)| topic == "product.created"));
}

#[test]
fn failed_publish_still_clears_the_buffer() {
    let mut broker = InMemoryMessageBroker::new();
    broker.set_available(false);
    let mut uow = ProductUnitOfWork::new(InMemoryProductRepository::new(), broker);
    uow.begin_transaction().unwrap();
    uow.product_repository_mut().create(String::from("a"), product("a", "x")).unwrap();
    uow.stage_event(Event::ProductAddedToCartEvent { product_id: String::from("a") });
    assert!(uow.commit().is_err());
    assert_eq!(uow.get_product_repository().read("a").unwrap().name, "x");
    assert!(!uow.get_product_repository().in_transaction());
}

#[test]
fn initialization_info_keeps_its_values() {
    let info = RabbitMqInitializationInfo::new(
        String::from("localhost"),
        5672,
        String::from("guest"),
        String::from("secret"),
    );
    assert_eq!(info.uri(), "localhost");
    assert_eq!(info.port(), 5672);
    assert_eq!(info.username(), "guest");
    assert_eq!(info.password(), "secret");

    let mongo = MongoDbInitializationInfo {
        uri: String::from("mongodb://localhost"),
        database: String::from("shop"),
        collection: String::from("products"),
    };
    assert_eq!(mongo.collection, "products");
}

#[test]
fn metrics_service_is_constructible() {
    let _service = PrometheusMetricsService::new();
    let kind = MetricType::COUNTER;
    assert!(matches!(kind, MetricType::COUNTER));
}
