//! The sample sales figures that a fresh database is seeded with.

use vstd::prelude::*;

verus! {

/// How many sample rows there are: five months of four regions selling two
/// products.
pub const SAMPLE_ROW_COUNT: usize = 40;

/// One sales figure, ready to be inserted: every field is there, none can
/// be null. The database assigns `id` and `created_at` itself.
///
/// `sales_amount` is a whole number of currency units; the column it goes
/// into stores it as a real.
#[derive(Clone, Copy, Debug, PartialEq, Eq)]
pub struct SaleRecord {
    pub region: &'static str,
    pub product: &'static str,
    pub month: &'static str,
    pub sales_amount: i64,
    pub quantity: i64,
}

/// The mathematical content of a [`SaleRecord`].
pub ghost struct SaleView {
    pub region: Seq<char>,
    pub product: Seq<char>,
    pub month: Seq<char>,
    pub sales_amount: int,
    pub quantity: int,
}

impl View for SaleRecord {
    type V = SaleView;

    open spec fn view(&self) -> SaleView {
        SaleView {
            region: self.region@,
            product: self.product@,
            month: self.month@,
            sales_amount: self.sales_amount as int,
            quantity: self.quantity as int,
        }
    }
}

/// The regions, in the order in which each month lists them.
pub open spec fn region_name(region: int) -> Seq<char> {
    if region == 0 {
        "North"@
    } else if region == 1 {
        "South"@
    } else if region == 2 {
        "East"@
    } else {
        "West"@
    }
}

/// The two products, in the order in which each region lists them.
pub open spec fn product_name(product: int) -> Seq<char> {
    if product == 0 {
        "Product A"@
    } else {
        "Product B"@
    }
}

/// The months covered, in calendar order.
pub open spec fn month_name(month: int) -> Seq<char> {
    if month == 0 {
        "January"@
    } else if month == 1 {
        "February"@
    } else if month == 2 {
        "March"@
    } else if month == 3 {
        "April"@
    } else {
        "May"@
    }
}

/// January's sales amount of one product in one region.
pub open spec fn january_amount(region: int, product: int) -> int {
    if region == 0 {
        if product == 0 { 15000 } else { 12000 }
    } else if region == 1 {
        if product == 0 { 18000 } else { 14000 }
    } else if region == 2 {
        if product == 0 { 16000 } else { 13000 }
    } else {
        if product == 0 { 17000 } else { 11000 }
    }
}

/// January's quantity of one product in one region.
pub open spec fn january_quantity(region: int, product: int) -> int {
    if region == 0 {
        if product == 0 { 100 } else { 80 }
    } else if region == 1 {
        if product == 0 { 120 } else { 90 }
    } else if region == 2 {
        if product == 0 { 110 } else { 85 }
    } else {
        if product == 0 { 115 } else { 75 }
    }
}

/// The figure for one month, region and product: every month adds 1000 to
/// the amount and 5 to the quantity of the month before.
pub open spec fn sale_of(month: int, region: int, product: int) -> SaleView {
    SaleView {
        region: region_name(region),
        product: product_name(product),
        month: month_name(month),
        sales_amount: january_amount(region, product) + 1000 * month,
        quantity: january_quantity(region, product) + 5 * month,
    }
}

/// The sample row at position `k`: months run slowest, then regions, then
/// products.
pub open spec fn sample_row(k: int) -> SaleView {
    sale_of(k / 8, (k % 8) / 2, k % 2)
}

/// The 40 sample rows in insertion order.
pub open spec fn sample_rows() -> Seq<SaleView> {
    Seq::new(SAMPLE_ROW_COUNT as nat, |k: int| sample_row(k))
}

/// The views of a list of records, element by element.
pub open spec fn sale_views(records: Seq<SaleRecord>) -> Seq<SaleView> {
    records.map_values(|r: SaleRecord| r@)
}

fn sale(
    region: &'static str,
    product: &'static str,
    month: &'static str,
    sales_amount: i64,
    quantity: i64,
) -> (r: SaleRecord)
    ensures
        r.region == region,
        r.product == product,
        r.month == month,
        r.sales_amount == sales_amount,
        r.quantity == quantity,
{
    SaleRecord { region, product, month, sales_amount, quantity }
}

/// The sample rows, in the order in which they are inserted.
pub fn sample_sales() -> (rows: Vec<SaleRecord>)
    ensures
        sale_views(rows@) == sample_rows(),
{
    let rows = vec![
        sale("North", "Product A", "January", 15000, 100),
        sale("North", "Product B", "January", 12000, 80),
        sale("South", "Product A", "January", 18000, 120),
        sale("South", "Product B", "January", 14000, 90),
        sale("East", "Product A", "January", 16000, 110),
        sale("East", "Product B", "January", 13000, 85),
        sale("West", "Product A", "January", 17000, 115),
        sale("West", "Product B", "January", 11000, 75),
        sale("North", "Product A", "February", 16000, 105),
        sale("North", "Product B", "February", 13000, 85),
        sale("South", "Product A", "February", 19000, 125),
        sale("South", "Product B", "February", 15000, 95),
        sale("East", "Product A", "February", 17000, 115),
        sale("East", "Product B", "February", 14000, 90),
        sale("West", "Product A", "February", 18000, 120),
        sale("West", "Product B", "February", 12000, 80),
        sale("North", "Product A", "March", 17000, 110),
        sale("North", "Product B", "March", 14000, 90),
        sale("South", "Product A", "March", 20000, 130),
        sale("South", "Product B", "March", 16000, 100),
        sale("East", "Product A", "March", 18000, 120),
        sale("East", "Product B", "March", 15000, 95),
        sale("West", "Product A", "March", 19000, 125),
        sale("West", "Product B", "March", 13000, 85),
        sale("North", "Product A", "April", 18000, 115),
        sale("North", "Product B", "April", 15000, 95),
        sale("South", "Product A", "April", 21000, 135),
        sale("South", "Product B", "April", 17000, 105),
        sale("East", "Product A", "April", 19000, 125),
        sale("East", "Product B", "April", 16000, 100),
        sale("West", "Product A", "April", 20000, 130),
        sale("West", "Product B", "April", 14000, 90),
        sale("North", "Product A", "May", 19000, 120),
        sale("North", "Product B", "May", 16000, 100),
        sale("South", "Product A", "May", 22000, 140),
        sale("South", "Product B", "May", 18000, 110),
        sale("East", "Product A", "May", 20000, 130),
        sale("East", "Product B", "May", 17000, 105),
        sale("West", "Product A", "May", 21000, 135),
        sale("West", "Product B", "May", 15000, 95),
    ];
    assert(sale_views(rows@) =~= sample_rows());
    rows
}

/// Region names are pairwise different.
pub proof fn lemma_region_names_differ(a: int, b: int)
    requires
        0 <= a < 4,
        0 <= b < 4,
        a != b,
    ensures
        region_name(a) != region_name(b),
{
    reveal_strlit("North");
    reveal_strlit("South");
    reveal_strlit("East");
    reveal_strlit("West");
    assert(region_name(a)[0] != region_name(b)[0]);
}

/// The two product names are different.
pub proof fn lemma_product_names_differ()
    ensures
        product_name(0) != product_name(1),
{
    reveal_strlit("Product A");
    reveal_strlit("Product B");
    assert(product_name(0)[8] != product_name(1)[8]);
}

/// Month names are pairwise different.
pub proof fn lemma_month_names_differ(a: int, b: int)
    requires
        0 <= a < 5,
        0 <= b < 5,
        a != b,
    ensures
        month_name(a) != month_name(b),
{
    reveal_strlit("January");
    reveal_strlit("February");
    reveal_strlit("March");
    reveal_strlit("April");
    reveal_strlit("May");
    if month_name(a).len() == month_name(b).len() {
        assert(month_name(a)[0] != month_name(b)[0]);
    }
}

/// The sample rows hold each of the five months, four regions and two
/// products together exactly once: the figure for a combination stands at
/// position `8 * month + 2 * region + product` and nowhere else.
pub proof fn lemma_one_row_per_combination(month: int, region: int, product: int)
    requires
        0 <= month < 5,
        0 <= region < 4,
        0 <= product < 2,
    ensures
        sample_rows().len() == 40,
        sample_rows()[8 * month + 2 * region + product] == sale_of(month, region, product),
        forall|k: int|
            0 <= k < 40 && #[trigger] sample_rows()[k] == sale_of(month, region, product) ==> k
                == 8 * month + 2 * region + product,
{
    assert forall|k: int|
        0 <= k < 40 && #[trigger] sample_rows()[k] == sale_of(
            month,
            region,
            product,
        ) implies k == 8 * month + 2 * region + product by {
        let (m, r, p) = (k / 8, (k % 8) / 2, k % 2);
        if m != month {
            lemma_month_names_differ(m, month);
        }
        if r != region {
            lemma_region_names_differ(r, region);
        }
        if p != product {
            lemma_product_names_differ();
        }
    }
}

} // verus!
