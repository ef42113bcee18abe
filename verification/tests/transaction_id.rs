use hedera::{EntityId, ParseError, Timestamp, TransactionId};

fn id(num: u64, seconds: i64, nanos: u32, nonce: Option<i32>, scheduled: bool) -> TransactionId {
    TransactionId {
        account_id: EntityId::new(0, 0, num),
        valid_start: Timestamp { seconds, nanos },
        nonce,
        scheduled,
    }
}

#[test]
fn text_of_a_transaction_id() {
    assert_eq!(id(5005, 1_600_000_000, 42, None, false).to_string(), "0.0.5005@1600000000.42");
    assert_eq!(id(5005, 1_600_000_000, 42, None, true).to_string(), "0.0.5005@1600000000.42?scheduled");
    assert_eq!(id(5005, 1_600_000_000, 42, Some(3), false).to_string(), "0.0.5005@1600000000.42/3");
    assert_eq!(
        id(5005, 1_600_000_000, 42, Some(-3), true).to_string(),
        "0.0.5005@1600000000.42?scheduled/-3"
    );
    assert_eq!(id(2, 0, 0, Some(0), false).to_string(), "0.0.2@0.0/0");
    assert_eq!(id(2, -1, 999_999_999, None, false).to_string(), "0.0.2@-1.999999999");
}

#[test]
fn transaction_id_is_read_from_its_text() {
    assert_eq!(TransactionId::from_str("0.0.5005@1600000000.42"), Ok(id(5005, 1_600_000_000, 42, None, false)));
    assert_eq!(
        TransactionId::from_str("0.0.5005@1600000000.42?scheduled"),
        Ok(id(5005, 1_600_000_000, 42, None, true))
    );
    assert_eq!(TransactionId::from_str("0.0.5005@1600000000.42/7"), Ok(id(5005, 1_600_000_000, 42, Some(7), false)));
    assert_eq!(
        TransactionId::from_str("0.0.5005@1600000000.42?scheduled/7"),
        Ok(id(5005, 1_600_000_000, 42, Some(7), true))
    );
}

#[test]
fn transaction_ids_are_read_back_from_their_text() {
    for scheduled in [false, true] {
        for nonce in [None, Some(0), Some(1), Some(-1), Some(i32::MAX), Some(i32::MIN)] {
            for (seconds, nanos) in [
                (0, 0),
                (1_600_000_000, 1),
                (-1_600_000_000, 999_999_999),
                (253_402_300_799, 999_999_999),
                (-377_705_116_800, 0),
            ] {
                let id = TransactionId {
                    account_id: EntityId::new(u64::MAX, 7, 0),
                    valid_start: Timestamp { seconds, nanos },
                    nonce,
                    scheduled,
                };
                assert_eq!(TransactionId::from_str(&id.to_string()), Ok(id), "{}", id.to_string());
            }
        }
    }
}

#[test]
fn separators_stand_for_one_another() {
    let expected = Ok(id(5, 100, 1, Some(7), true));
    for s in [
        "0.0.5@100.1?scheduled/7",
        "0.0.5@100.1/7?scheduled",
        "0.0.5/100.1@scheduled?7",
        "0.0.5?100.1?scheduled?7",
        "0.0.5@100.1@7@scheduled",
    ] {
        assert_eq!(TransactionId::from_str(s), expected, "{:?}", s);
    }
    assert_eq!(TransactionId::from_str("0.0.5@100.1/7/8"), Ok(id(5, 100, 1, Some(8), false)));
    assert_eq!(TransactionId::from_str("0.0.5@100.1?scheduled?scheduled"), Ok(id(5, 100, 1, None, true)));
    assert_eq!(TransactionId::from_str("0.0.5@100.1/+7"), Ok(id(5, 100, 1, Some(7), false)));
}

#[test]
fn text_is_parted_at_its_first_three_separators() {
    assert_eq!(TransactionId::from_str("0.0.5@100.1?scheduled/7/8"), Err(ParseError::InvalidNonce));
    assert_eq!(TransactionId::from_str("0.0.5@100.1/7?scheduled/"), Err(ParseError::InvalidNonce));
    assert_eq!(TransactionId::from_str("0.0.5@100.1/7/"), Err(ParseError::InvalidNonce));
    assert_eq!(TransactionId::from_str("0.0.5@100.1/"), Err(ParseError::InvalidNonce));
    assert_eq!(TransactionId::from_str("0.0.5@100.1//7"), Err(ParseError::InvalidNonce));
}

#[test]
fn nanoseconds_of_the_start_carry_into_its_seconds() {
    assert_eq!(TransactionId::from_str("0.0.5@100.2000000000"), Ok(id(5, 102, 0, None, false)));
    assert_eq!(TransactionId::from_str("0.0.5@100.-1"), Ok(id(5, 99, 999_999_999, None, false)));
    assert_eq!(TransactionId::from_str("0.0.5@+100.+1"), Ok(id(5, 100, 1, None, false)));
    assert_eq!(id(5, 102, 0, None, false).to_string(), "0.0.5@102.0");
}

#[test]
fn text_without_an_account_is_refused() {
    for s in ["", "@100.1", "0.0@100.1", "x@100.1", "0.0.5.6@100.1", "0.0.-5@100.1", "0.0.5 @100.1"] {
        assert_eq!(TransactionId::from_str(s), Err(ParseError::InvalidAccountId), "{:?}", s);
    }
}

#[test]
fn text_without_a_start_is_refused() {
    for s in ["0.0.5", "0.0.5@", "0.0.5@100", "0.0.5@100/7", "0.0.5@?scheduled", "0.0.5@scheduled"] {
        assert_eq!(TransactionId::from_str(s), Err(ParseError::MissingValidStart), "{:?}", s);
    }
}

#[test]
fn start_that_is_no_number_is_refused() {
    for s in ["0.0.5@.1", "0.0.5@x.1", "0.0.5@1e3.1", "0.0.5@9223372036854775808.1", "0.0.5@ 1.1"] {
        assert_eq!(TransactionId::from_str(s), Err(ParseError::InvalidSeconds), "{:?}", s);
    }
    for s in ["0.0.5@1.", "0.0.5@1.x", "0.0.5@1.2.3", "0.0.5@1.9223372036854775808", "0.0.5@.", "0.0.5@1.1 "] {
        let expected = if s == "0.0.5@." { ParseError::InvalidSeconds } else { ParseError::InvalidNanos };
        assert_eq!(TransactionId::from_str(s), Err(expected), "{:?}", s);
    }
}

#[test]
fn start_outside_the_calendar_is_refused() {
    for s in [
        "0.0.5@253402300800.0",
        "0.0.5@-377705116801.0",
        "0.0.5@253402300799.1000000000",
        "0.0.5@-377705116800.-1",
        "0.0.5@9223372036854775807.0",
    ] {
        assert_eq!(TransactionId::from_str(s), Err(ParseError::ValidStartOutOfRange), "{:?}", s);
    }
    assert_eq!(
        TransactionId::from_str("0.0.5@253402300799.999999999"),
        Ok(id(5, 253_402_300_799, 999_999_999, None, false))
    );
    assert_eq!(TransactionId::from_str("0.0.5@-377705116800.0"), Ok(id(5, -377_705_116_800, 0, None, false)));
}

#[test]
fn nonce_that_is_no_number_is_refused() {
    for s in [
        "0.0.5@1.1/",
        "0.0.5@1.1/x",
        "0.0.5@1.1/2147483648",
        "0.0.5@1.1/-2147483649",
        "0.0.5@1.1?Scheduled",
        "0.0.5@1.1?scheduled ",
        "0.0.5@1.1?",
        "0.0.5@1.1/1.5",
    ] {
        assert_eq!(TransactionId::from_str(s), Err(ParseError::InvalidNonce), "{:?}", s);
    }
}

#[test]
fn defects_of_a_text_are_reported_in_order() {
    assert_eq!(TransactionId::from_str("x@y/z"), Err(ParseError::InvalidAccountId));
    assert_eq!(TransactionId::from_str("0.0.5@y/z"), Err(ParseError::MissingValidStart));
    assert_eq!(TransactionId::from_str("0.0.5@y.z/z"), Err(ParseError::InvalidSeconds));
    assert_eq!(TransactionId::from_str("0.0.5@1.z/z"), Err(ParseError::InvalidNanos));
    assert_eq!(TransactionId::from_str("0.0.5@253402300800.1/z"), Err(ParseError::ValidStartOutOfRange));
    assert_eq!(TransactionId::from_str("0.0.5@1.1/z"), Err(ParseError::InvalidNonce));
}

#[test]
fn start_lies_the_lead_before_now() {
    let account = EntityId::new(0, 0, 1001);
    let now = Timestamp { seconds: 1_700_000_000, nanos: 400_000_000 };
    assert_eq!(
        TransactionId::starting(account, now, 5_000_000_000),
        id(1001, 1_699_999_995, 400_000_000, None, false)
    );
    assert_eq!(
        TransactionId::starting(account, now, 7_999_999_999),
        id(1001, 1_699_999_992, 400_000_001, None, false)
    );
    assert_eq!(TransactionId::starting(account, now, 0), id(1001, 1_700_000_000, 400_000_000, None, false));
    assert_eq!(
        TransactionId::starting(account, now, 400_000_001),
        id(1001, 1_699_999_999, 999_999_999, None, false)
    );
}

#[test]
fn start_is_now_where_the_calendar_ends() {
    let account = EntityId::new(0, 0, 1001);
    let first = Timestamp { seconds: -377_705_116_800, nanos: 5 };
    assert_eq!(TransactionId::starting(account, first, 6), id(1001, -377_705_116_800, 5, None, false));
    assert_eq!(TransactionId::starting(account, first, 5), id(1001, -377_705_116_800, 0, None, false));
}

#[test]
fn generated_id_starts_a_few_seconds_ago() {
    let account = EntityId::new(0, 0, 1001);
    for _ in 0..200 {
        let before = time::OffsetDateTime::now_utc().unix_timestamp_nanos();
        let id = TransactionId::generate(account);
        let after = time::OffsetDateTime::now_utc().unix_timestamp_nanos();
        assert_eq!(id.account_id, account);
        assert_eq!(id.nonce, None);
        assert!(!id.scheduled);
        assert!(id.valid_start.nanos < 1_000_000_000);
        let start = id.valid_start.seconds as i128 * 1_000_000_000 + id.valid_start.nanos as i128;
        assert!(before - 8_000_000_000 < start, "{} starts too early", id.to_string());
        assert!(start <= after - 5_000_000_000, "{} starts too late", id.to_string());
    }
}

#[test]
fn generated_ids_differ_in_their_lead() {
    let account = EntityId::new(0, 0, 1001);
    let first = TransactionId::generate(account);
    let differs = (0..200).any(|_| TransactionId::generate(account).valid_start != first.valid_start);
    assert!(differs);
}
