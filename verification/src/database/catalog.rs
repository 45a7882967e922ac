//! The catalog of products as the catalog store keeps it: one row per product id, a row
//! replaced in place when its product is stored again.

use crate::database::models::v2::{CreatingProduct, Product};
use crate::dlsite::dto::{DLsiteProductAgeCategory, DLsiteProductType};
use crate::text::str_eq;
use vstd::prelude::*;

verus! {

/// One row of the catalog, as contracts speak of it.
pub struct Row {
    pub id: Seq<char>,
    /// The owning account; `None` for a product that was found on disk.
    pub account_id: Option<i64>,
    pub ty: DLsiteProductType,
    pub age: DLsiteProductAgeCategory,
    pub title: Seq<char>,
    pub thumbnail: Seq<char>,
    pub group_id: Seq<char>,
    pub group_name: Seq<char>,
    pub registered_at: Option<i64>,
}

/// The row that a stored product is.
pub open spec fn row_of(product: Product) -> Row {
    Row {
        id: product.id@,
        account_id: product.account_id,
        ty: product.ty,
        age: product.age,
        title: product.title@,
        thumbnail: product.thumbnail@,
        group_id: product.group_id@,
        group_name: product.group_name@,
        registered_at: product.registered_at,
    }
}

/// The row that a product makes when it is stored for the first time.
pub open spec fn new_row(product: CreatingProduct) -> Row {
    Row {
        id: product.id@,
        account_id: product.account_id,
        ty: product.ty,
        age: product.age,
        title: product.title@,
        thumbnail: product.thumbnail@,
        group_id: product.group_id@,
        group_name: product.group_name@,
        registered_at: product.registered_at,
    }
}

/// The rows of stored products.
pub open spec fn rows_of(products: Seq<Product>) -> Seq<Row> {
    Seq::new(products.len(), |i: int| row_of(products[i]))
}

/// No two rows have the same product id.
pub open spec fn ids_distinct(rows: Seq<Row>) -> bool {
    forall|i: int, j: int|
        0 <= i < rows.len() && 0 <= j < rows.len() && i != j ==> (#[trigger] rows[i]).id != (
        #[trigger] rows[j]).id
}

/// `i` is the first row with the product id `id`.
pub open spec fn is_first_with_id(rows: Seq<Row>, id: Seq<char>, i: int) -> bool {
    &&& 0 <= i < rows.len()
    &&& rows[i].id == id
    &&& forall|j: int| 0 <= j < i ==> (#[trigger] rows[j]).id != id
}

/// The index of the first row with the product id `id`, if there is one.
pub open spec fn index_of(rows: Seq<Row>, id: Seq<char>) -> Option<int> {
    if exists|i: int| is_first_with_id(rows, id, i) {
        Some(choose|i: int| is_first_with_id(rows, id, i))
    } else {
        None
    }
}

/// The row `stored`, replaced by the newer `row` of the same product: everything is
/// taken from `row` but the owning account, which stays.
pub open spec fn replaced(stored: Row, row: Row) -> Row {
    Row { account_id: stored.account_id, ..row }
}

/// The catalog after `row` is stored: the row of the same product id replaced in place,
/// or, where there is none, `row` added at the end.
pub open spec fn upserted(rows: Seq<Row>, row: Row) -> Seq<Row> {
    match index_of(rows, row.id) {
        Some(i) => rows.update(i, replaced(rows[i], row)),
        None => rows.push(row),
    }
}

/// The catalog after every row of `batch` is stored, one after the other.
pub open spec fn upserted_all(rows: Seq<Row>, batch: Seq<Row>) -> Seq<Row>
    decreases batch.len(),
{
    if batch.len() == 0 {
        rows
    } else {
        upserted(upserted_all(rows, batch.drop_last()), batch.last())
    }
}

/// The rows of `rows` that are owned by an account, if `owned`, or by none, if not, in
/// their order.
pub open spec fn rows_where_owned(rows: Seq<Row>, owned: bool) -> Seq<Row>
    decreases rows.len(),
{
    if rows.len() == 0 {
        rows
    } else {
        let rest = rows_where_owned(rows.drop_last(), owned);
        if (rows.last().account_id is Some) == owned {
            rest.push(rows.last())
        } else {
            rest
        }
    }
}

/// The catalog of products.
#[derive(Debug, Clone)]
pub struct Catalog {
    pub products: Vec<Product>,
}

impl View for Catalog {
    type V = Seq<Row>;

    open spec fn view(&self) -> Seq<Row> {
        rows_of(self.products@)
    }
}

impl Catalog {
    /// No product id occurs twice.
    pub open spec fn wf(self) -> bool {
        ids_distinct(self@)
    }

    /// A catalog without products.
    pub fn new() -> (catalog: Self)
        ensures
            catalog@ == Seq::<Row>::empty(),
            catalog.wf(),
    {
        let catalog = Catalog { products: Vec::new() };
        assert(catalog@ =~= Seq::<Row>::empty());
        catalog
    }

    /// The number of products.
    pub fn len(&self) -> (len: usize)
        ensures
            len == self@.len(),
    {
        self.products.len()
    }

    /// The index of the product `id`, if the catalog has it.
    pub fn find(&self, id: &str) -> (found: Option<usize>)
        ensures
            match found {
                Some(i) => index_of(self@, id@) == Some(i as int),
                None => index_of(self@, id@) is None,
            },
    {
        let mut i: usize = 0;
        while i < self.products.len()
            invariant
                i <= self.products@.len(),
                forall|j: int| 0 <= j < i ==> (#[trigger] self@[j]).id != id@,
            decreases self.products@.len() - i,
        {
            if str_eq(self.products[i].id.as_str(), id) {
                proof {
                    assert(self@[i as int].id == id@);
                    assert(is_first_with_id(self@, id@, i as int));
                    let c = choose|c: int| is_first_with_id(self@, id@, c);
                    assert(is_first_with_id(self@, id@, c));
                    if c < i {
                        assert(self@[c].id != id@);
                    }
                    if i < c {
                        assert(self@[i as int].id != id@);
                    }
                }
                return Some(i);
            }
            i += 1;
        }
        proof {
            assert forall|c: int| !is_first_with_id(self@, id@, c) by {
                if 0 <= c < self@.len() {
                    assert(self@[c].id != id@);
                }
            }
        }
        None
    }

    /// Stores one product. A product that the catalog has already is replaced in place,
    /// its owning account kept; a new one is added at the end.
    pub fn insert_one(&mut self, product: &CreatingProduct)
        ensures
            final(self)@ == upserted(old(self)@, new_row(*product)),
    {
        match self.find(product.id) {
            Some(i) => {
                let account_id = self.products[i].account_id;
                let ghost before = self@;
                self.products.set(
                    i,
                    Product {
                        id: product.id.to_owned(),
                        account_id,
                        ty: product.ty.duplicate(),
                        age: product.age.duplicate(),
                        title: product.title.to_owned(),
                        thumbnail: product.thumbnail.to_owned(),
                        group_id: product.group_id.to_owned(),
                        group_name: product.group_name.to_owned(),
                        registered_at: product.registered_at,
                    },
                );
                assert(self@ =~= before.update(
                    i as int,
                    replaced(before[i as int], new_row(*product)),
                ));
            },
            None => {
                let ghost before = self@;
                self.products.push(
                    Product {
                        id: product.id.to_owned(),
                        account_id: product.account_id,
                        ty: product.ty.duplicate(),
                        age: product.age.duplicate(),
                        title: product.title.to_owned(),
                        thumbnail: product.thumbnail.to_owned(),
                        group_id: product.group_id.to_owned(),
                        group_name: product.group_name.to_owned(),
                        registered_at: product.registered_at,
                    },
                );
                assert(self@ =~= before.push(new_row(*product)));
            },
        }
    }

    /// Stores a batch of products, one after the other.
    pub fn insert_many(&mut self, products: &Vec<CreatingProduct>)
        ensures
            final(self)@ == upserted_all(
                old(self)@,
                Seq::new(products@.len(), |i: int| new_row(products@[i])),
            ),
    {
        let ghost batch = Seq::new(products@.len(), |i: int| new_row(products@[i]));
        let mut k: usize = 0;
        while k < products.len()
            invariant
                k <= products@.len(),
                batch == Seq::new(products@.len(), |i: int| new_row(products@[i])),
                self@ == upserted_all(old(self)@, batch.take(k as int)),
            decreases products@.len() - k,
        {
            proof {
                assert(batch.take(k + 1).drop_last() =~= batch.take(k as int));
                assert(batch.take(k + 1).last() == new_row(products@[k as int]));
            }
            self.insert_one(&products[k]);
            k += 1;
        }
        assert(batch.take(k as int) =~= batch);
    }

    fn remove_where_owned(&mut self, owned: bool)
        ensures
            final(self)@ == rows_where_owned(old(self)@, !owned),
    {
        let mut kept: Vec<Product> = Vec::new();
        let ghost before = self@;
        let ghost total = self.products@.len();
        while self.products.len() > 0
            invariant
                self.products@.len() <= total,
                total == before.len(),
                self@ == before.take(self.products@.len() as int),
                rows_of(kept@).len() == kept@.len(),
                rows_where_owned(before, !owned) == rows_where_owned(self@, !owned) + rows_of(
                    kept@,
                ).reverse(),
            decreases self.products@.len(),
        {
            let ghost current = self@;
            let ghost stack = rows_of(kept@);
            let product = self.products.pop().unwrap();
            proof {
                assert(self@ =~= current.drop_last());
                assert(row_of(product) == current.last());
                assert(self@ =~= before.take(self.products@.len() as int));
            }
            if product.account_id.is_some() != owned {
                kept.push(product);
                proof {
                    assert(rows_of(kept@) =~= stack.push(current.last()));
                    assert(rows_of(kept@).reverse() =~= seq![current.last()] + stack.reverse());
                    assert(rows_where_owned(current, !owned) =~= rows_where_owned(self@, !owned)
                        + seq![current.last()]);
                    assert(rows_where_owned(before, !owned) =~= rows_where_owned(self@, !owned)
                        + rows_of(kept@).reverse());
                }
            }
        }
        proof {
            assert(self@.len() == 0);
            assert(rows_where_owned(self@, !owned) =~= Seq::<Row>::empty());
            assert(rows_where_owned(before, !owned) =~= rows_of(kept@).reverse());
        }
        let ghost stack = rows_of(kept@);
        while kept.len() > 0
            invariant
                rows_of(kept@).len() == kept@.len(),
                stack.len() >= kept@.len(),
                rows_of(kept@) == stack.take(kept@.len() as int),
                self@ == stack.reverse().take(stack.len() - kept@.len()),
            decreases kept@.len(),
        {
            let ghost pile = rows_of(kept@);
            let ghost done = self@;
            let product = kept.pop().unwrap();
            proof {
                assert(row_of(product) == pile.last());
                assert(rows_of(kept@) =~= pile.drop_last());
                assert(rows_of(kept@) =~= stack.take(kept@.len() as int));
            }
            self.products.push(product);
            proof {
                assert(self@ =~= done.push(pile.last()));
                assert(self@ =~= stack.reverse().take(stack.len() - kept@.len()));
            }
        }
        assert(self@ =~= stack.reverse());
    }

    /// Removes every product that an account owns; what was found on disk stays, in its
    /// order.
    pub fn remove_many_owned(&mut self)
        ensures
            final(self)@ == rows_where_owned(old(self)@, false),
    {
        self.remove_where_owned(true)
    }

    /// Removes every product that no account owns; what accounts own stays, in its order.
    pub fn remove_many_not_owned(&mut self)
        ensures
            final(self)@ == rows_where_owned(old(self)@, true),
    {
        self.remove_where_owned(false)
    }
}

/// Storing a product keeps the product ids distinct, leaves every other row as it was,
/// and makes the catalog larger by one exactly where the product is new.
pub proof fn law_upsert_keeps_ids_distinct(rows: Seq<Row>, row: Row)
    requires
        ids_distinct(rows),
    ensures
        ids_distinct(upserted(rows, row)),
        upserted(rows, row).len() == rows.len() + (if index_of(rows, row.id) is None {
            1int
        } else {
            0int
        }),
        forall|j: int|
            0 <= j < rows.len() && rows[j].id != row.id ==> #[trigger] upserted(rows, row)[j]
                == rows[j],
        index_of(upserted(rows, row), row.id) is Some,
{
    let after = upserted(rows, row);
    match index_of(rows, row.id) {
        Some(i) => {
            assert(is_first_with_id(rows, row.id, i));
            assert(is_first_with_id(after, row.id, i));
            assert forall|a: int, b: int|
                0 <= a < after.len() && 0 <= b < after.len() && a != b implies (
            #[trigger] after[a]).id != (#[trigger] after[b]).id by {
                assert(after[a].id == rows[a].id);
                assert(after[b].id == rows[b].id);
            }
        },
        None => {
            assert forall|c: int| 0 <= c < rows.len() implies (#[trigger] rows[c]).id != row.id by {
                lemma_absent_id(rows, row.id, c);
            }
            assert(is_first_with_id(after, row.id, rows.len() as int));
            assert forall|a: int, b: int|
                0 <= a < after.len() && 0 <= b < after.len() && a != b implies (
            #[trigger] after[a]).id != (#[trigger] after[b]).id by {
                if a < rows.len() {
                    assert(after[a] == rows[a]);
                }
                if b < rows.len() {
                    assert(after[b] == rows[b]);
                }
            }
        },
    }
}

/// Where no row is the first with an id, no row has that id at all.
pub proof fn lemma_absent_id(rows: Seq<Row>, id: Seq<char>, c: int)
    requires
        index_of(rows, id) is None,
        0 <= c < rows.len(),
    ensures
        rows[c].id != id,
    decreases c,
{
    if rows[c].id == id {
        if forall|j: int| 0 <= j < c ==> (#[trigger] rows[j]).id != id {
            assert(is_first_with_id(rows, id, c));
        } else {
            let j = choose|j: int| 0 <= j < c && (#[trigger] rows[j]).id == id;
            lemma_absent_id(rows, id, j);
        }
    }
}

/// Idempotence: a product that is stored twice, the second time with another title,
/// has exactly one row afterwards, and that row carries the later title. The second
/// storing adds no row.
pub proof fn law_upsert_twice_keeps_one_row(rows: Seq<Row>, first: Row, second: Row)
    requires
        ids_distinct(rows),
        first.id == second.id,
    ensures
        ({
            let once = upserted(rows, first);
            let twice = upserted(once, second);
            &&& ids_distinct(twice)
            &&& twice.len() == once.len()
            &&& exists|i: int|
                {
                    &&& 0 <= i < twice.len()
                    &&& (#[trigger] twice[i]).id == second.id
                    &&& twice[i].title == second.title
                    &&& forall|j: int|
                        0 <= j < twice.len() && (#[trigger] twice[j]).id == second.id ==> j == i
                }
        }),
{
    let once = upserted(rows, first);
    let twice = upserted(once, second);
    law_upsert_keeps_ids_distinct(rows, first);
    law_upsert_keeps_ids_distinct(once, second);
    let i = index_of(once, second.id)->0;
    assert(is_first_with_id(once, second.id, i));
    assert(twice[i].id == second.id && twice[i].title == second.title);
    assert forall|j: int| 0 <= j < twice.len() && (#[trigger] twice[j]).id == second.id implies j
        == i by {
        if j != i {
            assert(twice[i].id != twice[j].id);
        }
    }
}

} // verus!
