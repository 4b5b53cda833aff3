use payments_engine::report::{header, render_amount, row};
use payments_engine::{handle_transaction, Client, Database, Transaction, TransactionType};

#[test]
fn amounts_have_four_digits_behind_the_point() {
    assert_eq!(render_amount(0), "0.0000");
    assert_eq!(render_amount(1), "0.0001");
    assert_eq!(render_amount(15_000), "1.5000");
    assert_eq!(render_amount(123_456), "12.3456");
    assert_eq!(render_amount(120_340), "12.0340");
    assert_eq!(render_amount(9_999), "0.9999");
    assert_eq!(render_amount(10_000), "1.0000");
    assert_eq!(render_amount(1_000_000_000), "100000.0000");
}

#[test]
fn negative_amounts_have_a_minus_sign() {
    assert_eq!(render_amount(-1), "-0.0001");
    assert_eq!(render_amount(-15_000), "-1.5000");
    assert_eq!(render_amount(i64::MIN as i128), "-922337203685477.5808");
    assert_eq!(render_amount(i64::MAX as i128), "922337203685477.5807");
    assert_eq!(render_amount(i128::MIN), "-17014118346046923173168730371588410.5728");
    assert_eq!(render_amount(i128::MAX), "17014118346046923173168730371588410.5727");
}

#[test]
fn header_names_the_columns() {
    assert_eq!(
        header(),
        format!(
            "{:>7}, {:>12}, {:>12}, {:>12}, {:>12}",
            "client", "available", "held", "total", "locked"
        )
    );
    assert_eq!(header(), " client,    available,         held,        total,       locked");
}

#[test]
fn row_shows_an_account() {
    let mut db = Database::default();
    let deposit = |txn_id: u32, amount: u64| Transaction {
        transaction_type: TransactionType::Deposit,
        client_id: 12,
        txn_id,
        amount: Some(amount),
    };
    let dispute = Transaction {
        transaction_type: TransactionType::Dispute,
        client_id: 12,
        txn_id: 1,
        amount: None,
    };
    handle_transaction(&mut db, deposit(1, 10_000)).unwrap();
    handle_transaction(&mut db, deposit(2, 25_000)).unwrap();
    handle_transaction(&mut db, dispute).unwrap();
    assert_eq!(
        row(12, &db.clients[&12]),
        "     12,       2.5000,       1.0000,       3.5000,        false"
    );
}

#[test]
fn row_of_a_locked_account() {
    let client = Client { available: -5, held: 0, locked: true, disputed: Default::default() };
    assert_eq!(
        row(65_535, &client),
        "  65535,      -0.0005,       0.0000,      -0.0005,         true"
    );
}

#[test]
fn wide_amounts_are_not_cut() {
    let client =
        Client { available: i64::MAX, held: i64::MAX, locked: false, disputed: Default::default() };
    assert_eq!(
        row(0, &client),
        "      0, 922337203685477.5807, 922337203685477.5807, 1844674407370955.1614,        false"
    );
}

#[test]
fn amount_written_down_is_read_back() {
    for v in [0u64, 1, 9, 10, 9_999, 10_000, 10_001, 123_456, 1_000_000_007, u64::MAX - 1, u64::MAX] {
        let text: Vec<char> = render_amount(v as i128).chars().collect();
        assert_eq!(payments_engine::decimal::parse_amount(&text), Some(v));
    }
}
