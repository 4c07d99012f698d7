use vstd::prelude::*;
use vstd::string::*;
use crate::domain::{Product, ProductView};

verus! {

/// Where the document store lives and which collection holds the products.
#[derive(Debug)]
pub struct MongoDbInitializationInfo {
    pub uri: String,
    pub database: String,
    pub collection: String,
}

/// `s` holds a product with identifier `id`.
pub open spec fn has_id(s: Seq<ProductView>, id: Seq<char>) -> bool {
    exists|i: int| 0 <= i < s.len() && #[trigger] s[i].id == id
}

/// No two stored products share an identifier.
pub open spec fn unique_ids(s: Seq<ProductView>) -> bool {
    forall|i: int, j: int|
        0 <= i < s.len() && 0 <= j < s.len() && #[trigger] s[i].id == #[trigger] s[j].id ==> i == j
}

/// The product stored under `id` (meaningful where `has_id(s, id)`).
pub open spec fn lookup(s: Seq<ProductView>, id: Seq<char>) -> ProductView {
    s[choose|i: int| 0 <= i < s.len() && #[trigger] s[i].id == id]
}

/// `s` with the product that bears `p`'s identifier replaced by `p`.
pub open spec fn replace_by_id(s: Seq<ProductView>, p: ProductView) -> Seq<ProductView> {
    s.map_values(|q: ProductView| if q.id == p.id { p } else { q })
}

/// `s` without the product stored under `id`.
pub open spec fn remove_by_id(s: Seq<ProductView>, id: Seq<char>) -> Seq<ProductView> {
    s.filter(|q: ProductView| q.id != id)
}

pub open spec fn views(v: Seq<Product>) -> Seq<ProductView> {
    v.map_values(|p: Product| p@)
}

/// In a sequence with unique identifiers, the product found under `id` is `lookup(s, id)`.
pub proof fn lemma_lookup_unique(s: Seq<ProductView>, i: int)
    requires
        unique_ids(s),
        0 <= i < s.len(),
    ensures
        has_id(s, s[i].id),
        lookup(s, s[i].id) == s[i],
{
    let id = s[i].id;
    assert(s[i].id == id);
    let j = choose|j: int| 0 <= j < s.len() && #[trigger] s[j].id == id;
    assert(s[j].id == s[i].id);
}

/// Appending a product under a fresh identifier keeps identifiers unique.
pub proof fn lemma_push_fresh(s: Seq<ProductView>, p: ProductView)
    requires
        unique_ids(s),
        !has_id(s, p.id),
    ensures
        unique_ids(s.push(p)),
        has_id(s.push(p), p.id),
        lookup(s.push(p), p.id) == p,
{
    let t = s.push(p);
    assert forall|i: int, j: int|
        0 <= i < t.len() && 0 <= j < t.len() && #[trigger] t[i].id == #[trigger] t[j].id implies i
        == j by {
        if i < s.len() && j == s.len() {
            assert(s[i].id == p.id);
        } else if j < s.len() && i == s.len() {
            assert(s[j].id == p.id);
        } else if i < s.len() && j < s.len() {
            assert(s[i].id == s[j].id);
        }
    }
    lemma_lookup_unique(t, s.len() as int);
}

/// Replacing a stored product keeps identifiers unique and makes `p` the
/// product found under its identifier.
pub proof fn lemma_replace(s: Seq<ProductView>, p: ProductView)
    requires
        unique_ids(s),
        has_id(s, p.id),
    ensures
        unique_ids(replace_by_id(s, p)),
        has_id(replace_by_id(s, p), p.id),
        lookup(replace_by_id(s, p), p.id) == p,
        replace_by_id(s, p).len() == s.len(),
{
    let t = replace_by_id(s, p);
    assert forall|i: int, j: int|
        0 <= i < t.len() && 0 <= j < t.len() && #[trigger] t[i].id == #[trigger] t[j].id implies i
        == j by {
        if s[i].id == p.id {
            if s[j].id != p.id {
                assert(t[j] == s[j]);
            }
        } else {
            assert(t[i] == s[i]);
            if s[j].id == p.id {
                assert(t[j] == p);
            } else {
                assert(s[i].id == s[j].id);
            }
        }
    }
    let k = choose|k: int| 0 <= k < s.len() && #[trigger] s[k].id == p.id;
    assert(t[k] == p);
    lemma_lookup_unique(t, k);
}

/// The storage port for products.
///
/// `products` is what the store holds, in the order in which it yields
/// products. Reads need no transaction; every write happens inside one, and
/// `open_transaction` is the content that the store held when the open
/// transaction began. A store that does not describe these has contents
/// that nothing may be assumed of.
pub trait ProductRepository {
    closed spec fn products(&self) -> Seq<ProductView> {
        arbitrary()
    }

    closed spec fn open_transaction(&self) -> Option<Seq<ProductView>> {
        arbitrary()
    }

    fn in_transaction(&self) -> (r: bool)
        ensures
            r == self.open_transaction() is Some,
    ;

    fn begin_transaction(&mut self) -> (r: Result<(), String>)
        requires
            old(self).open_transaction() is None,
        ensures
            final(self).products() == old(self).products(),
            r is Ok ==> final(self).open_transaction() == Some(old(self).products()),
            r is Err ==> final(self).open_transaction() is None,
    ;

    /// Makes the writes of the open transaction durable. On failure the
    /// transaction stays open, and the caller must abort it.
    fn commit_transaction(&mut self) -> (r: Result<(), String>)
        requires
            old(self).open_transaction() is Some,
        ensures
            final(self).products() == old(self).products(),
            r is Ok ==> final(self).open_transaction() is None,
            r is Err ==> final(self).open_transaction() == old(self).open_transaction(),
    ;

    /// Discards the writes of the open transaction. An error only reports
    /// that the store did not confirm it: the writes are gone either way.
    fn abort_transaction(&mut self) -> (r: Result<(), String>)
        requires
            old(self).open_transaction() is Some,
        ensures
            final(self).open_transaction() is None,
            final(self).products() == old(self).open_transaction()->Some_0,
    ;

    /// Inserts `product` under `id`, then reads it back.
    fn create(&mut self, id: String, product: Product) -> (r: Result<Product, String>)
        requires
            old(self).open_transaction() is Some,
            product@.id == id@,
        ensures
            final(self).open_transaction() == old(self).open_transaction(),
            has_id(old(self).products(), id@) ==> r is Err,
            r is Ok ==> final(self).products() == old(self).products().push(product@) && r->Ok_0@
                == product@,
    ;

    fn read(&self, id: &str) -> (r: Result<Product, String>)
        ensures
            r is Ok ==> r->Ok_0@.id == id@ && self.products().contains(r->Ok_0@),
            !has_id(self.products(), id@) ==> r is Err,
    ;

    fn read_all(&self) -> (r: Result<Vec<Product>, String>)
        ensures
            r is Ok ==> views(r->Ok_0@) == self.products(),
    ;

    /// Replaces the product stored under `id` by `product`, then reads it back.
    fn update(&mut self, id: String, product: Product) -> (r: Result<Product, String>)
        requires
            old(self).open_transaction() is Some,
            product@.id == id@,
        ensures
            final(self).open_transaction() == old(self).open_transaction(),
            !has_id(old(self).products(), id@) ==> r is Err,
            r is Ok ==> final(self).products() == replace_by_id(old(self).products(), product@)
                && r->Ok_0@ == product@,
    ;

    fn delete(&mut self, id: &str) -> (r: Result<(), String>)
        requires
            old(self).open_transaction() is Some,
        ensures
            final(self).open_transaction() == old(self).open_transaction(),
            r is Ok ==> final(self).products() == remove_by_id(old(self).products(), id@),
    ;
}

fn missing_product_error(id: &str) -> (r: String) {
    let mut e = String::from_str("Product with id ");
    e.append(id);
    e.append(" did not exist");
    e
}

fn copy_products(v: &Vec<Product>) -> (r: Vec<Product>)
    ensures
        r@ == v@,
{
    let mut r: Vec<Product> = Vec::new();
    let mut i: usize = 0;
    while i < v.len()
        invariant
            i <= v@.len(),
            r@ == v@.subrange(0, i as int),
        decreases v@.len() - i,
    {
        r.push(v[i].clone());
        i = i + 1;
        assert(r@ =~= v@.subrange(0, i as int));
    }
    assert(v@.subrange(0, v@.len() as int) =~= v@);
    r
}

/// A repository held in memory, with transactions that restore a snapshot
/// when they are aborted.
pub struct InMemoryProductRepository {
    products: Vec<Product>,
    snapshot: Option<Vec<Product>>,
}

impl InMemoryProductRepository {
    pub fn new() -> (r: InMemoryProductRepository)
        ensures
            r.products().len() == 0,
            r.open_transaction() is None,
    {
        InMemoryProductRepository { products: Vec::new(), snapshot: None }
    }

    /// The position of the product stored under `id`, if any.
    fn position(&self, id: &String) -> (r: Option<usize>)
        ensures
            match r {
                Some(i) => i < self.products@.len() && self.products@[i as int]@.id == id@,
                None => !has_id(self.products(), id@),
            },
    {
        let mut i: usize = 0;
        while i < self.products.len()
            invariant
                i <= self.products@.len(),
                forall|k: int| 0 <= k < i ==> (#[trigger] self.products@[k])@.id != id@,
            decreases self.products@.len() - i,
        {
            if self.products[i].id == *id {
                return Some(i);
            }
            i = i + 1;
        }
        assert forall|k: int| 0 <= k < self.products().len() implies #[trigger] self.products()[k].id
            != id@ by {
            assert(self.products@[k]@.id != id@);
        }
        None
    }
}

impl ProductRepository for InMemoryProductRepository {
    closed spec fn products(&self) -> Seq<ProductView> {
        views(self.products@)
    }

    closed spec fn open_transaction(&self) -> Option<Seq<ProductView>> {
        match self.snapshot {
            Some(v) => Some(views(v@)),
            None => None,
        }
    }

    fn in_transaction(&self) -> (r: bool) {
        self.snapshot.is_some()
    }

    fn begin_transaction(&mut self) -> (r: Result<(), String>)
        ensures
            r is Ok,
    {
        self.snapshot = Some(copy_products(&self.products));
        Ok(())
    }

    fn commit_transaction(&mut self) -> (r: Result<(), String>)
        ensures
            r is Ok,
    {
        self.snapshot = None;
        Ok(())
    }

    fn abort_transaction(&mut self) -> (r: Result<(), String>)
        ensures
            r is Ok,
    {
        let restored = self.snapshot.take();
        match restored {
            Some(v) => {
                self.products = v;
            },
            None => {},
        }
        Ok(())
    }

    fn create(&mut self, id: String, product: Product) -> (r: Result<Product, String>)
        ensures
            r is Ok <==> !has_id(old(self).products(), id@),
    {
        match self.position(&id) {
            Some(i) => {
                assert(self.products()[i as int] == self.products@[i as int]@);
                let mut e = String::from_str("Product with id ");
                e.append(id.as_str());
                e.append(" already exists");
                Err(e)
            },
            None => {
                let stored = product.clone();
                self.products.push(product);
                assert(views(self.products@) =~= views(old(self).products@).push(stored@));
                Ok(stored)
            },
        }
    }

    fn read(&self, id: &str) -> (r: Result<Product, String>)
        ensures
            r is Ok <==> has_id(self.products(), id@),
    {
        match self.position(&id.to_owned()) {
            Some(i) => {
                assert(self.products()[i as int] == self.products@[i as int]@);
                Ok(self.products[i].clone())
            },
            None => Err(missing_product_error(id)),
        }
    }

    fn read_all(&self) -> (r: Result<Vec<Product>, String>)
        ensures
            r is Ok,
    {
        Ok(copy_products(&self.products))
    }

    fn update(&mut self, id: String, product: Product) -> (r: Result<Product, String>)
        ensures
            r is Ok <==> has_id(old(self).products(), id@),
    {
        match self.position(&id) {
            None => {
                return Err(missing_product_error(id.as_str()));
            },
            Some(i) => {
                assert(self.products()[i as int] == self.products@[i as int]@);
            },
        }
        let ghost before = self.products();
        let mut i: usize = 0;
        while i < self.products.len()
            invariant
                i <= self.products@.len(),
                self.products@.len() == before.len(),
                self.snapshot == old(self).snapshot,
                product@.id == id@,
                forall|k: int|
                    0 <= k < i ==> (#[trigger] self.products@[k])@ == replace_by_id(
                        before,
                        product@,
                    )[k],
                forall|k: int|
                    i <= k < self.products@.len() ==> (#[trigger] self.products@[k])@ == before[k],
            decreases self.products@.len() - i,
        {
            if self.products[i].id == id {
                self.products.set(i, product.clone());
            }
            i = i + 1;
        }
        assert(views(self.products@) =~= replace_by_id(before, product@));
        Ok(product)
    }

    fn delete(&mut self, id: &str) -> (r: Result<(), String>)
        ensures
            r is Ok,
    {
        let key = id.to_owned();
        let ghost before = self.products();
        let ghost keep = |q: ProductView| q.id != id@;
        let mut kept: Vec<Product> = Vec::new();
        let mut i: usize = 0;
        while i < self.products.len()
            invariant
                i <= self.products@.len(),
                before == views(self.products@),
                key@ == id@,
                keep == (|q: ProductView| q.id != id@),
                views(kept@) == before.subrange(0, i as int).filter(keep),
            decreases self.products@.len() - i,
        {
            proof {
                before.subrange(0, i as int).lemma_filter_push(before[i as int], keep);
                assert(before.subrange(0, i as int + 1) =~= before.subrange(0, i as int).push(
                    before[i as int],
                ));
            }
            if self.products[i].id != key {
                kept.push(self.products[i].clone());
                assert(views(kept@) =~= before.subrange(0, i as int + 1).filter(keep));
            }
            i = i + 1;
        }
        assert(before.subrange(0, before.len() as int) =~= before);
        self.products = kept;
        Ok(())
    }
}

} // verus!
