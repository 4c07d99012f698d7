use vstd::prelude::*;
use vstd::string::*;
use crate::domain::{Product, ProductView};
use crate::dtos::{
    shows, shows_all, CreateProductResponse, EmptyResponse, GetProductsResponse, ProductResponse,
    Response,
};
use crate::events::{message, Event, EventView, MessageBroker, PRODUCT_CREATED_TOPIC};
use crate::repositories::{
    has_id, lemma_lookup_unique, lemma_push_fresh, lemma_replace, lookup, replace_by_id, unique_ids, views,
    ProductRepository,
};
use crate::uow::{outbox, ProductUnitOfWork};

verus! {

/// Marks an intent to change state.
pub trait Command {}

/// Marks an intent to read state.
pub trait Query {}

/// The products that `u`'s store holds.
pub open spec fn stored<R: ProductRepository, B: MessageBroker>(u: ProductUnitOfWork<R, B>) -> Seq<
    ProductView,
> {
    u.repository().products()
}

/// The messages that `u`'s broker has accepted.
pub open spec fn sent<R: ProductRepository, B: MessageBroker>(u: ProductUnitOfWork<R, B>) -> Seq<
    (EventView, Seq<char>),
> {
    u.broker().published()
}

/// `u` may start an operation: nothing is open or staged, and no two
/// products share an identifier.
pub open spec fn ready<R: ProductRepository, B: MessageBroker>(u: ProductUnitOfWork<R, B>) -> bool {
    u.idle() && unique_ids(stored(u))
}

/// Handles a command against a unit of work.
pub trait CommandHandler<C: Command, T: Response> {
    fn handle<R: ProductRepository, B: MessageBroker>(
        &self,
        uow: &mut ProductUnitOfWork<R, B>,
        input: &C,
    ) -> (r: Result<T, String>)
        requires
            ready(*old(uow)),
        ensures
            ready(*final(uow)),
    ;
}

/// Handles a query against a unit of work; `None` asks for everything.
pub trait QueryHandler<Q: Query, T: Response> {
    fn handle<R: ProductRepository, B: MessageBroker>(
        &self,
        uow: &ProductUnitOfWork<R, B>,
        input: Option<Q>,
    ) -> (r: Result<T, String>)
        requires
            unique_ids(stored(*uow)),
    ;
}

pub struct CreateProductCommand {
    pub name: String,
    pub price_cents: i64,
    pub description: String,
}

impl Command for CreateProductCommand {}

pub struct ModifyProductInventoryCommand {
    pub product_id: String,
    pub new_inventory: u32,
}

impl Command for ModifyProductInventoryCommand {}

pub struct DecrementProductReservedInventoryCommand {
    pub product_id: String,
}

impl Command for DecrementProductReservedInventoryCommand {}

pub struct IncrementProdcuctReservedInventoryCommand {
    pub product_id: String,
}

impl Command for IncrementProdcuctReservedInventoryCommand {}

pub struct GetProductsQuery {
    pub id: String,
}

impl Query for GetProductsQuery {}

/// A creation request is acceptable: a positive price, a name and a description.
pub open spec fn valid_create(c: CreateProductCommand) -> bool {
    &&& c.price_cents > 0
    &&& c.name@.len() > 0
    &&& c.description@.len() > 0
}

/// The product that a valid creation request stores under `id` at time `now`.
pub open spec fn new_product(c: CreateProductCommand, id: Seq<char>, now: i64) -> ProductView {
    ProductView {
        id: id,
        name: c.name@,
        price_cents: c.price_cents as int,
        description: c.description@,
        available_inventory: 0,
        reserved_inventory: 0,
        stars: 0,
        number_of_reviews: 0,
        created_at_utc: now as int,
        updated_at_utc: now as int,
        version: 0,
    }
}

/// The event that announces the creation of `p`.
pub open spec fn created_event(p: ProductView) -> EventView {
    EventView::ProductCreated { id: p.id, name: p.name, price_cents: p.price_cents }
}

/// What creating `p` did to the store (`ps` to `ps2`) and to the broker's log
/// (`log` to `log2`). On success both hold the new product and its event. On
/// failure nothing was published, and the store is as it was, or holds the
/// product where the store committed and the event was lost.
pub open spec fn create_effect(
    ps: Seq<ProductView>,
    log: Seq<(EventView, Seq<char>)>,
    ps2: Seq<ProductView>,
    log2: Seq<(EventView, Seq<char>)>,
    p: ProductView,
    ok: bool,
) -> bool {
    if ok {
        &&& ps2 == ps.push(p)
        &&& log2 == log.push(message(created_event(p), PRODUCT_CREATED_TOPIC@))
    } else {
        &&& log2 == log
        &&& (ps2 == ps || ps2 == ps.push(p))
    }
}

/// Reserving one more unit of the product stored under `id` took `ps` to `ps2`
/// (`ok`), or changed nothing.
pub open spec fn reserve_effect(ps: Seq<ProductView>, ps2: Seq<ProductView>, id: Seq<char>, ok: bool) -> bool {
    if ok {
        &&& has_id(ps, id)
        &&& ps2 == replace_by_id(ps, reserved_plus_one(lookup(ps, id)))
    } else {
        ps2 == ps
    }
}

/// Releasing one reserved unit of the product stored under `id` took `ps` to
/// `ps2` (`ok`), or changed nothing.
pub open spec fn release_effect(ps: Seq<ProductView>, ps2: Seq<ProductView>, id: Seq<char>, ok: bool) -> bool {
    if ok {
        &&& has_id(ps, id)
        &&& lookup(ps, id).reserved_inventory > 0
        &&& ps2 == replace_by_id(ps, reserved_minus_one(lookup(ps, id)))
    } else {
        ps2 == ps
    }
}

/// `ps` holds a product under `id` with at least one unit reserved.
pub open spec fn has_id_and_reserved(ps: Seq<ProductView>, id: Seq<char>) -> bool {
    has_id(ps, id) && lookup(ps, id).reserved_inventory > 0
}

/// `p` with `n` units available.
pub open spec fn with_available(p: ProductView, n: nat) -> ProductView {
    ProductView { available_inventory: n, ..p }
}

/// `p` with one more unit reserved.
pub open spec fn reserved_plus_one(p: ProductView) -> ProductView {
    ProductView { reserved_inventory: p.reserved_inventory + 1, ..p }
}

/// `p` with one unit fewer reserved (meaningful where one is reserved).
pub open spec fn reserved_minus_one(p: ProductView) -> ProductView {
    ProductView { reserved_inventory: (p.reserved_inventory - 1) as nat, ..p }
}

/// Why a creation request is refused (meaningful where it is not valid).
pub open spec fn rejection(c: CreateProductCommand) -> Seq<char> {
    if c.price_cents <= 0 {
        "Price cannot be 0 or negative!!!"@
    } else if c.name@.len() == 0 {
        "Name cannot be empty!!!"@
    } else {
        "Description cannot be empty!!!"@
    }
}

/// Checks a creation request before anything is stored.
pub fn validate_create(input: &CreateProductCommand) -> (r: Result<(), String>)
    ensures
        r is Ok <==> valid_create(*input),
        r is Err ==> r->Err_0@ == rejection(*input),
{
    if input.price_cents <= 0 {
        return Err(String::from_str("Price cannot be 0 or negative!!!"));
    }
    if input.name.as_str().is_empty() {
        return Err(String::from_str("Name cannot be empty!!!"));
    }
    if input.description.as_str().is_empty() {
        return Err(String::from_str("Description cannot be empty!!!"));
    }
    Ok(())
}

/// Reserves one more unit of `p`; fails where the count would overflow.
pub fn add_reservation(p: Product) -> (r: Result<Product, String>)
    ensures
        r is Ok <==> p.reserved_inventory < u32::MAX,
        r is Ok ==> r->Ok_0@ == reserved_plus_one(p@),
{
    if p.reserved_inventory == u32::MAX {
        return Err(String::from_str("Reserved inventory cannot grow any further"));
    }
    let mut q = p;
    q.reserved_inventory = q.reserved_inventory + 1;
    Ok(q)
}

/// Releases one reserved unit of `p`; fails, rather than going below zero,
/// where nothing is reserved.
pub fn remove_reservation(p: Product) -> (r: Result<Product, String>)
    ensures
        r is Ok <==> p.reserved_inventory > 0,
        r is Ok ==> r->Ok_0@ == reserved_minus_one(p@),
{
    if p.reserved_inventory == 0 {
        return Err(String::from_str("Reserved inventory cannot go below zero"));
    }
    let mut q = p;
    q.reserved_inventory = q.reserved_inventory - 1;
    Ok(q)
}

fn response_of(p: &Product) -> (r: ProductResponse)
    ensures
        shows(r, p@),
{
    ProductResponse {
        id: p.id.clone(),
        name: p.name.clone(),
        price_cents: p.price_cents,
        description: p.description.clone(),
        available_inventory: p.available_inventory,
        reserved_inventory: p.reserved_inventory,
        stars: p.stars,
        number_of_reviews: p.number_of_reviews,
    }
}

/// Relies on uuid::Uuid::new_v4, a random version-4 UUID, and on its
/// `Display`, which writes the hyphenated form of 36 characters.
#[verifier::external_body]
fn fresh_product_id() -> (r: String)
    ensures
        r@.len() == 36,
{
    uuid::Uuid::new_v4().to_string()
}

/// A product that a read returned is the one stored under its identifier.
proof fn lemma_read_is_lookup(s: Seq<ProductView>, p: ProductView)
    requires
        unique_ids(s),
        s.contains(p),
    ensures
        has_id(s, p.id),
        lookup(s, p.id) == p,
{
    let i = choose|i: int| 0 <= i < s.len() && s[i] == p;
    lemma_lookup_unique(s, i);
}

fn inventory_error(action: &str, id: &str, cause: String) -> (r: String) {
    let mut e = String::from_str("Error occurred while ");
    e.append(action);
    e.append(" product inventory for product ");
    e.append(id);
    e.append(": ");
    e.append(cause.as_str());
    e
}

/// Closes the open transaction of a failed operation, and hands `e` back.
fn abandon<R: ProductRepository, B: MessageBroker>(uow: &mut ProductUnitOfWork<R, B>, e: String) -> (r:
    String)
    requires
        old(uow).repository().open_transaction() is Some,
    ensures
        r == e,
        final(uow).idle(),
        final(uow).broker() == old(uow).broker(),
        stored(*final(uow)) == old(uow).repository().open_transaction()->Some_0,
{
    let _ = uow.rollback();
    e
}

/// Commits a unit of work that staged nothing; on failure the writes are
/// rolled back.
fn commit_quietly<R: ProductRepository, B: MessageBroker>(uow: &mut ProductUnitOfWork<R, B>) -> (r:
    Result<(), String>)
    requires
        old(uow).repository().open_transaction() is Some,
        old(uow).pending().len() == 0,
    ensures
        final(uow).idle(),
        sent(*final(uow)) == sent(*old(uow)),
        r is Ok ==> stored(*final(uow)) == stored(*old(uow)),
        r is Err ==> stored(*final(uow)) == old(uow).repository().open_transaction()->Some_0,
{
    let committed = uow.commit();
    proof {
        let s0 = sent(*old(uow));
        let s1 = sent(*uow);
        assert(s1 =~= s1.subrange(0, s0.len() as int));
        assert(outbox(old(uow).pending()) =~= Seq::<(EventView, Seq<char>)>::empty());
        assert(s0 + outbox(old(uow).pending()) =~= s0);
    }
    match committed {
        Ok(()) => Ok(()),
        Err(e) => {
            if uow.get_product_repository().in_transaction() {
                Err(abandon(uow, e))
            } else {
                Err(e)
            }
        },
    }
}

pub struct CreateProductCommandHandler {}

impl CreateProductCommandHandler {
    pub fn new() -> Self {
        CreateProductCommandHandler {  }
    }

    /// Creates a product under a fresh random identifier, stamped with
    /// `now_millis` (milliseconds since the Unix epoch).
    pub fn handle<R: ProductRepository, B: MessageBroker>(
        &self,
        uow: &mut ProductUnitOfWork<R, B>,
        input: &CreateProductCommand,
        now_millis: i64,
    ) -> (r: Result<CreateProductResponse, String>)
        requires
            ready(*old(uow)),
        ensures
            ready(*final(uow)),
            !valid_create(*input) ==> r is Err && r->Err_0@ == rejection(*input) && *final(uow)
                == *old(uow),
            valid_create(*input) ==> exists|id: Seq<char>|
                id.len() == 36 && create_effect(
                    stored(*old(uow)),
                    sent(*old(uow)),
                    stored(*final(uow)),
                    sent(*final(uow)),
                    #[trigger] new_product(*input, id, now_millis),
                    r is Ok,
                ),
            r is Ok ==> r->Ok_0.id@.len() == 36 && create_effect(
                stored(*old(uow)),
                sent(*old(uow)),
                stored(*final(uow)),
                sent(*final(uow)),
                new_product(*input, r->Ok_0.id@, now_millis),
                true,
            ),
    {
        if let Err(e) = validate_create(input) {
            return Err(e);
        }
        let id = fresh_product_id();
        let ghost fresh = id@;
        let r = self.create_with_id(uow, input, id, now_millis);
        assert(fresh.len() == 36 && create_effect(
            stored(*old(uow)),
            sent(*old(uow)),
            stored(*uow),
            sent(*uow),
            new_product(*input, fresh, now_millis),
            r is Ok,
        ));
        r
    }

    /// Creates a product under the identifier `id`, stamped with `now_millis`.
    /// A refused request touches nothing; an identifier already in use fails.
    pub fn create_with_id<R: ProductRepository, B: MessageBroker>(
        &self,
        uow: &mut ProductUnitOfWork<R, B>,
        input: &CreateProductCommand,
        id: String,
        now_millis: i64,
    ) -> (r: Result<CreateProductResponse, String>)
        requires
            ready(*old(uow)),
        ensures
            ready(*final(uow)),
            !valid_create(*input) ==> r is Err && r->Err_0@ == rejection(*input) && *final(uow)
                == *old(uow),
            valid_create(*input) ==> create_effect(
                stored(*old(uow)),
                sent(*old(uow)),
                stored(*final(uow)),
                sent(*final(uow)),
                new_product(*input, id@, now_millis),
                r is Ok,
            ),
            r is Ok ==> r->Ok_0.id@ == id@,
            has_id(stored(*old(uow)), id@) ==> r is Err,
    {
        if let Err(e) = validate_create(input) {
            return Err(e);
        }
        let product = Product {
            id: id.clone(),
            name: input.name.clone(),
            price_cents: input.price_cents,
            description: input.description.clone(),
            available_inventory: 0,
            reserved_inventory: 0,
            stars: 0,
            number_of_reviews: 0,
            created_at_utc: now_millis,
            updated_at_utc: now_millis,
            version: 0,
        };
        let ghost p = product@;
        assert(p == new_product(*input, id@, now_millis));
        if let Err(e) = uow.begin_transaction() {
            return Err(e);
        }
        let created = uow.product_repository_mut().create(id, product);
        match created {
            Err(e) => Err(abandon(uow, e)),
            Ok(stored_product) => {
                proof {
                    lemma_push_fresh(stored(*old(uow)), p);
                }
                let event = Event::ProductCreatedEvent {
                    id: stored_product.id.clone(),
                    name: stored_product.name.clone(),
                    price_cents: stored_product.price_cents,
                };
                assert(event@ == created_event(p));
                let ghost before_commit = *uow;
                uow.stage_event(event);
                let committed = uow.commit();
                proof {
                    let m = message(created_event(p), PRODUCT_CREATED_TOPIC@);
                    assert(outbox(before_commit.pending().push(created_event(p))) =~= seq![m]);
                    assert(sent(*old(uow)) + seq![m] =~= sent(*old(uow)).push(m));
                    let s0 = sent(*old(uow));
                    let s1 = sent(*uow);
                    if s1.len() > s0.len() {
                        assert(seq![m].contains(s1[s0.len() as int]));
                        assert(s1 =~= s0.push(m));
                    } else {
                        assert(s1 =~= s1.subrange(0, s0.len() as int));
                    }
                }
                match committed {
                    Ok(()) => Ok(CreateProductResponse { id: stored_product.id }),
                    Err(e) => {
                        if uow.get_product_repository().in_transaction() {
                            Err(abandon(uow, e))
                        } else {
                            Err(e)
                        }
                    },
                }
            },
        }
    }
}

pub struct ModifyProductInventoryCommandHandler {}

impl ModifyProductInventoryCommandHandler {
    pub fn new() -> Self {
        ModifyProductInventoryCommandHandler {  }
    }
}

impl CommandHandler<ModifyProductInventoryCommand, EmptyResponse> for
    ModifyProductInventoryCommandHandler {
    /// Sets the available inventory of a stored product; publishes nothing.
    fn handle<R: ProductRepository, B: MessageBroker>(
        &self,
        uow: &mut ProductUnitOfWork<R, B>,
        input: &ModifyProductInventoryCommand,
    ) -> (r: Result<EmptyResponse, String>)
        ensures
            sent(*final(uow)) == sent(*old(uow)),
            !has_id(stored(*old(uow)), input.product_id@) ==> r is Err,
            r is Ok ==> has_id(stored(*old(uow)), input.product_id@) && stored(*final(uow))
                == replace_by_id(
                stored(*old(uow)),
                with_available(
                    lookup(stored(*old(uow)), input.product_id@),
                    input.new_inventory as nat,
                ),
            ),
            r is Err ==> stored(*final(uow)) == stored(*old(uow)),
    {
        let found = uow.get_product_repository().read(input.product_id.as_str());
        match found {
            Err(e) => Err(inventory_error("modifying", input.product_id.as_str(), e)),
            Ok(p) => {
                proof {
                    lemma_read_is_lookup(stored(*old(uow)), p@);
                }
                let mut changed = p;
                changed.available_inventory = input.new_inventory;
                let ghost q = changed@;
                assert(q == with_available(
                    lookup(stored(*old(uow)), input.product_id@),
                    input.new_inventory as nat,
                ));
                if let Err(e) = uow.begin_transaction() {
                    return Err(e);
                }
                let updated = uow.product_repository_mut().update(input.product_id.clone(), changed);
                match updated {
                    Err(e) => Err(abandon(uow, inventory_error("modifying", input.product_id.as_str(), e))),
                    Ok(_) => {
                        proof {
                            lemma_replace(stored(*old(uow)), q);
                        }
                        match commit_quietly(uow) {
                            Ok(()) => Ok(EmptyResponse {  }),
                            Err(e) => Err(e),
                        }
                    },
                }
            },
        }
    }
}

pub struct DecrementProductInventoryCommandHandler {}

impl DecrementProductInventoryCommandHandler {
    pub fn new() -> Self {
        DecrementProductInventoryCommandHandler {  }
    }
}

impl CommandHandler<DecrementProductReservedInventoryCommand, EmptyResponse> for
    DecrementProductInventoryCommandHandler {
    /// Releases one reserved unit of a stored product. Where none is reserved
    /// it fails and writes nothing.
    fn handle<R: ProductRepository, B: MessageBroker>(
        &self,
        uow: &mut ProductUnitOfWork<R, B>,
        input: &DecrementProductReservedInventoryCommand,
    ) -> (r: Result<EmptyResponse, String>)
        ensures
            sent(*final(uow)) == sent(*old(uow)),
            release_effect(stored(*old(uow)), stored(*final(uow)), input.product_id@, r is Ok),
            !has_id(stored(*old(uow)), input.product_id@) ==> r is Err,
            has_id(stored(*old(uow)), input.product_id@) && lookup(
                stored(*old(uow)),
                input.product_id@,
            ).reserved_inventory == 0 ==> r is Err,
    {
        let found = uow.get_product_repository().read(input.product_id.as_str());
        match found {
            Err(e) => Err(inventory_error("decrementing", input.product_id.as_str(), e)),
            Ok(p) => {
                proof {
                    lemma_read_is_lookup(stored(*old(uow)), p@);
                }
                let changed = match remove_reservation(p) {
                    Ok(q) => q,
                    Err(e) => {
                        return Err(inventory_error("decrementing", input.product_id.as_str(), e));
                    },
                };
                let ghost q = changed@;
                if let Err(e) = uow.begin_transaction() {
                    return Err(e);
                }
                let key = changed.id.clone();
                let updated = uow.product_repository_mut().update(key, changed);
                match updated {
                    Err(e) => Err(abandon(uow, inventory_error("decrementing", input.product_id.as_str(), e))),
                    Ok(_) => {
                        proof {
                            lemma_replace(stored(*old(uow)), q);
                        }
                        match commit_quietly(uow) {
                            Ok(()) => Ok(EmptyResponse {  }),
                            Err(e) => Err(e),
                        }
                    },
                }
            },
        }
    }
}

pub struct IncrementProdcuctInventoryCommandHandler {}

impl IncrementProdcuctInventoryCommandHandler {
    pub fn new() -> Self {
        IncrementProdcuctInventoryCommandHandler {  }
    }
}

impl CommandHandler<IncrementProdcuctReservedInventoryCommand, EmptyResponse> for
    IncrementProdcuctInventoryCommandHandler {
    /// Reserves one more unit of a stored product.
    fn handle<R: ProductRepository, B: MessageBroker>(
        &self,
        uow: &mut ProductUnitOfWork<R, B>,
        input: &IncrementProdcuctReservedInventoryCommand,
    ) -> (r: Result<EmptyResponse, String>)
        ensures
            sent(*final(uow)) == sent(*old(uow)),
            reserve_effect(stored(*old(uow)), stored(*final(uow)), input.product_id@, r is Ok),
            !has_id(stored(*old(uow)), input.product_id@) ==> r is Err,
            has_id(stored(*old(uow)), input.product_id@) && lookup(
                stored(*old(uow)),
                input.product_id@,
            ).reserved_inventory == u32::MAX ==> r is Err,
    {
        let found = uow.get_product_repository().read(input.product_id.as_str());
        match found {
            Err(e) => Err(inventory_error("incrementing", input.product_id.as_str(), e)),
            Ok(p) => {
                proof {
                    lemma_read_is_lookup(stored(*old(uow)), p@);
                }
                let changed = match add_reservation(p) {
                    Ok(q) => q,
                    Err(e) => {
                        return Err(inventory_error("incrementing", input.product_id.as_str(), e));
                    },
                };
                let ghost q = changed@;
                if let Err(e) = uow.begin_transaction() {
                    return Err(e);
                }
                let key = changed.id.clone();
                let updated = uow.product_repository_mut().update(key, changed);
                match updated {
                    Err(e) => Err(abandon(uow, inventory_error("incrementing", input.product_id.as_str(), e))),
                    Ok(_) => {
                        proof {
                            lemma_replace(stored(*old(uow)), q);
                        }
                        match commit_quietly(uow) {
                            Ok(()) => Ok(EmptyResponse {  }),
                            Err(e) => Err(e),
                        }
                    },
                }
            },
        }
    }
}

pub struct GetProductsQueryHandler {}

impl GetProductsQueryHandler {
    pub fn new() -> Self {
        GetProductsQueryHandler {  }
    }
}

impl QueryHandler<GetProductsQuery, GetProductsResponse> for GetProductsQueryHandler {
    /// Reads one product, as a list of one, or every product; opens no
    /// transaction.
    fn handle<R: ProductRepository, B: MessageBroker>(
        &self,
        uow: &ProductUnitOfWork<R, B>,
        input: Option<GetProductsQuery>,
    ) -> (r: Result<GetProductsResponse, String>)
        ensures
            match input {
                Some(q) => {
                    &&& r is Ok ==> has_id(stored(*uow), q.id@) && shows_all(
                        r->Ok_0.products@,
                        seq![lookup(stored(*uow), q.id@)],
                    )
                    &&& !has_id(stored(*uow), q.id@) ==> r is Err
                },
                None => r is Ok ==> shows_all(r->Ok_0.products@, stored(*uow)),
            },
    {
        let repository = uow.get_product_repository();
        match input {
            Some(q) => {
                match repository.read(q.id.as_str()) {
                    Ok(p) => {
                        proof {
                            lemma_read_is_lookup(stored(*uow), p@);
                        }
                        let mut products: Vec<ProductResponse> = Vec::new();
                        products.push(response_of(&p));
                        Ok(GetProductsResponse { products })
                    },
                    Err(e) => Err(e),
                }
            },
            None => {
                match repository.read_all() {
                    Ok(all) => {
                        let ghost ps = stored(*uow);
                        let mut products: Vec<ProductResponse> = Vec::new();
                        let mut i: usize = 0;
                        while i < all.len()
                            invariant
                                i <= all@.len(),
                                ps == views(all@),
                                products@.len() == i,
                                forall|k: int| 0 <= k < i ==> shows(#[trigger] products@[k], ps[k]),
                            decreases all@.len() - i,
                        {
                            products.push(response_of(&all[i]));
                            i = i + 1;
                        }
                        Ok(GetProductsResponse { products })
                    },
                    Err(e) => Err(e),
                }
            },
        }
    }
}

} // verus!
