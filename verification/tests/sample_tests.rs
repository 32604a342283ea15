use askadb_query_engine::sample::{sample_sales, SaleRecord, SAMPLE_ROW_COUNT};

const REGIONS: [&str; 4] = ["North", "South", "East", "West"];
const PRODUCTS: [&str; 2] = ["Product A", "Product B"];
const MONTHS: [&str; 5] = ["January", "February", "March", "April", "May"];
const JANUARY_AMOUNTS: [i64; 8] = [15000, 12000, 18000, 14000, 16000, 13000, 17000, 11000];
const JANUARY_QUANTITIES: [i64; 8] = [100, 80, 120, 90, 110, 85, 115, 75];

#[test]
fn there_are_forty_sample_rows() {
    assert_eq!(SAMPLE_ROW_COUNT, 40);
    assert_eq!(sample_sales().len(), 40);
}

#[test]
fn the_first_and_last_rows_are_as_listed() {
    let rows = sample_sales();
    assert_eq!(
        rows[0],
        SaleRecord {
            region: "North",
            product: "Product A",
            month: "January",
            sales_amount: 15000,
            quantity: 100,
        }
    );
    assert_eq!(
        rows[39],
        SaleRecord {
            region: "West",
            product: "Product B",
            month: "May",
            sales_amount: 15000,
            quantity: 95,
        }
    );
}

#[test]
fn a_row_in_the_middle_is_as_listed() {
    let rows = sample_sales();
    assert_eq!(
        rows[18],
        SaleRecord {
            region: "South",
            product: "Product A",
            month: "March",
            sales_amount: 20000,
            quantity: 130,
        }
    );
}

#[test]
fn every_row_follows_the_monthly_steps() {
    let rows = sample_sales();
    for (k, row) in rows.iter().enumerate() {
        let month = k / 8;
        let slot = k % 8;
        assert_eq!(row.month, MONTHS[month]);
        assert_eq!(row.region, REGIONS[slot / 2]);
        assert_eq!(row.product, PRODUCTS[slot % 2]);
        assert_eq!(row.sales_amount, JANUARY_AMOUNTS[slot] + 1000 * month as i64);
        assert_eq!(row.quantity, JANUARY_QUANTITIES[slot] + 5 * month as i64);
    }
}

#[test]
fn every_combination_occurs_exactly_once() {
    let rows = sample_sales();
    for month in MONTHS {
        for region in REGIONS {
            for product in PRODUCTS {
                let hits = rows
                    .iter()
                    .filter(|r| r.month == month && r.region == region && r.product == product)
                    .count();
                assert_eq!(hits, 1);
            }
        }
    }
}

#[test]
fn sample_sales_is_the_same_every_time() {
    assert_eq!(sample_sales(), sample_sales());
}
