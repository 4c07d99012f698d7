use product_service::cqrs::{CreateProductCommand, CreateProductCommandHandler};
use product_service::domain::Product;
use product_service::events::{Event, InMemoryMessageBroker};
use product_service::repositories::{InMemoryProductRepository, ProductRepository};
use product_service::uow::ProductUnitOfWork;

/// An in-memory store whose transaction commits can be made to fail.
struct FlakyStore {
    inner: InMemoryProductRepository,
    commits_fail: bool,
}

impl ProductRepository for FlakyStore {
    fn in_transaction(&self) -> bool {
        self.inner.in_transaction()
    }

    fn begin_transaction(&mut self) -> Result<(), String> {
        self.inner.begin_transaction()
    }

    fn commit_transaction(&mut self) -> Result<(), String> {
        if self.commits_fail {
            Err(String::from("store unreachable"))
        } else {
            self.inner.commit_transaction()
        }
    }

    fn abort_transaction(&mut self) -> Result<(), String> {
        self.inner.abort_transaction()
    }

    fn create(&mut self, id: String, product: Product) -> Result<Product, String> {
        self.inner.create(id, product)
    }

    fn read(&self, id: &str) -> Result<Product, String> {
        self.inner.read(id)
    }

    fn read_all(&self) -> Result<Vec<Product>, String> {
        self.inner.read_all()
    }

    fn update(&mut self, id: String, product: Product) -> Result<Product, String> {
        self.inner.update(id, product)
    }

    fn delete(&mut self, id: &str) -> Result<(), String> {
        self.inner.delete(id)
    }
}

fn flaky_uow() -> ProductUnitOfWork<FlakyStore, InMemoryMessageBroker> {
    let store = FlakyStore { inner: InMemoryProductRepository::new(), commits_fail: true };
    ProductUnitOfWork::new(store, InMemoryMessageBroker::new())
}

#[test]
fn failed_store_commit_publishes_nothing_and_clears_the_buffer() {
    let mut uow = flaky_uow();
    uow.begin_transaction().unwrap();
    uow.stage_event(Event::ProductAddedToCartEvent { product_id: String::from("a") });
    assert_eq!(uow.commit().err().unwrap(), "store unreachable");
    assert!(uow.get_product_repository().in_transaction());
    assert!(uow.get_message_broker().delivered().is_empty());
    uow.rollback().unwrap();

    uow.product_repository_mut().commits_fail = false;
    uow.begin_transaction().unwrap();
    uow.commit().unwrap();
    assert!(uow.get_message_broker().delivered().is_empty());
}

#[test]
fn failed_store_commit_fails_creation_and_rolls_back() {
    let mut uow = flaky_uow();
    let command = CreateProductCommand {
        name: String::from("laptop"),
        price_cents: 99999,
        description: String::from("15-inch"),
    };
    let result = CreateProductCommandHandler::new().handle(&mut uow, &command, 0);
    assert_eq!(result.err().unwrap(), "store unreachable");
    assert!(!uow.get_product_repository().in_transaction());
    assert!(uow.get_product_repository().read_all().unwrap().is_empty());
    assert!(uow.get_message_broker().delivered().is_empty());
}
