use boxes_store::db::{Db, FindFilter, Record};

#[test]
fn test_db() {
    let mut db = Db::new(":memory:").unwrap();

    // Look for a record, but the db is empty.
    match db.find(FindFilter::PublicIpAndMessage(
        "127.0.0.1".to_owned(),
        "<fingerprint>.knilxof.org".to_owned(),
    )) {
        Ok(vec) => {
            assert!(vec.is_empty());
        }
        Err(err) => {
            println!("Unexpected error: {:?}", err);
            assert!(false);
        }
    }
    let now = Db::seconds_from_epoch();

    let mut r = Record {
        public_ip: "127.0.0.1".to_owned(),
        message: "<fingerprint>.knilxof.org".to_owned(),
        tunnel_configured: false,
        timestamp: now,
    };

    // Add this new record.
    match db.add(r) {
        Ok(n) => {
            assert_eq!(n, 1);
        } // We expect one row to change.
        Err(err) => {
            println!("Unexpected error: {:?}", err);
            assert!(false);
        }
    }
    // Check that we find it.
    match db.find(FindFilter::PublicIpAndMessage(
        "127.0.0.1".to_owned(),
        "<fingerprint>.knilxof.org".to_owned(),
    )) {
        Ok(records) => {
            assert_eq!(records.len(), 1);
            assert_eq!(records[0].timestamp, now);
        }
        Err(err) => {
            println!("Unexpected error: {:?}", err);
            assert!(false);
        }
    }

    // Add another record with the same public IP, but a different local one.
    r = Record {
        public_ip: "127.0.0.1".to_owned(),
        message: "<another_fingerprint>.knilxof.org".to_owned(),
        tunnel_configured: true,
        timestamp: now,
    };
    match db.add(r) {
        Ok(n) => {
            assert!(n == 1);
        } // We expect one row to change.
        Err(err) => {
            println!("Unexpected error: {:?}", err);
            assert!(false);
        }
    }

    // Now search for all the records with this public IP. Will find 2.
    match db.find(FindFilter::PublicIp("127.0.0.1".to_owned())) {
        Ok(records) => {
            assert_eq!(records.len(), 2);
            assert_eq!(records[0].tunnel_configured, false);
            assert_eq!(records[1].tunnel_configured, true);
            assert_eq!(records[0].message, "<fingerprint>.knilxof.org");
            assert_eq!(records[1].message, "<another_fingerprint>.knilxof.org");
        }
        Err(err) => {
            println!("Unexpected error: {:?}", err);
            assert!(false);
        }
    }

    // Fake travelling in the future, and evict both records.
    match db.delete_older_than(now + 2) {
        Ok(count) => assert_eq!(count, 2),
        Err(err) => {
            println!("Unexpected error: {:?}", err);
            assert!(false);
        }
    }
    db.clear().unwrap();
}

#[test]
fn cleared_store_lookup_is_empty() {
    let mut db = Db::new(":memory:").unwrap();
    let r = Record {
        public_ip: "10.0.0.7".to_owned(),
        message: "left.over".to_owned(),
        tunnel_configured: true,
        timestamp: 5,
    };
    assert_eq!(db.add(r).unwrap(), 1);
    db.clear().unwrap();
    let found = db
        .find(FindFilter::PublicIpAndMessage(
            "10.0.0.7".to_owned(),
            "left.over".to_owned(),
        ))
        .unwrap();
    assert!(found.is_empty());
    let by_ip = db.find(FindFilter::PublicIp("10.0.0.7".to_owned())).unwrap();
    assert!(by_ip.is_empty());
}

#[test]
fn add_then_find_round_trip() {
    let mut db = Db::new(":memory:").unwrap();
    let r = Record {
        public_ip: "192.168.1.4".to_owned(),
        message: "box.example.org".to_owned(),
        tunnel_configured: true,
        timestamp: 1234,
    };
    assert_eq!(db.add(r).unwrap(), 1);
    let found = db
        .find(FindFilter::PublicIpAndMessage(
            "192.168.1.4".to_owned(),
            "box.example.org".to_owned(),
        ))
        .unwrap();
    assert_eq!(found.len(), 1);
    assert_eq!(found[0].public_ip, "192.168.1.4");
    assert_eq!(found[0].message, "box.example.org");
    assert_eq!(found[0].tunnel_configured, true);
    assert_eq!(found[0].timestamp, 1234);
}

#[test]
fn two_records_one_ip_in_insertion_order() {
    let mut db = Db::new(":memory:").unwrap();
    let first = Record {
        public_ip: "127.0.0.1".to_owned(),
        message: "abc.example.org".to_owned(),
        tunnel_configured: false,
        timestamp: 77,
    };
    let second = Record {
        public_ip: "127.0.0.1".to_owned(),
        message: "xyz.example.org".to_owned(),
        tunnel_configured: true,
        timestamp: 77,
    };
    assert_eq!(db.add(first).unwrap(), 1);
    assert_eq!(db.add(second).unwrap(), 1);
    let found = db.find(FindFilter::PublicIp("127.0.0.1".to_owned())).unwrap();
    assert_eq!(found.len(), 2);
    assert_eq!(found[0].message, "abc.example.org");
    assert_eq!(found[0].tunnel_configured, false);
    assert_eq!(found[1].message, "xyz.example.org");
    assert_eq!(found[1].tunnel_configured, true);
}

#[test]
fn eviction_boundary_is_strict() {
    let mut db = Db::new(":memory:").unwrap();
    let now = 1000;
    for message in ["a.example.org", "b.example.org"] {
        let r = Record {
            public_ip: "127.0.0.1".to_owned(),
            message: message.to_owned(),
            tunnel_configured: false,
            timestamp: now,
        };
        assert_eq!(db.add(r).unwrap(), 1);
    }
    // Threshold equal to the rows' timestamp: strict less-than keeps both.
    assert_eq!(db.delete_older_than(now).unwrap(), 0);
    assert_eq!(
        db.find(FindFilter::PublicIp("127.0.0.1".to_owned()))
            .unwrap()
            .len(),
        2
    );
    // A later threshold removes both.
    assert_eq!(db.delete_older_than(now + 2).unwrap(), 2);
    assert!(db
        .find(FindFilter::PublicIp("127.0.0.1".to_owned()))
        .unwrap()
        .is_empty());
    // Evicting again when nothing is eligible is a count of 0, not an error.
    assert_eq!(db.delete_older_than(now + 2).unwrap(), 0);
}

#[test]
fn single_quote_survives_round_trip() {
    let mut db = Db::new(":memory:").unwrap();
    let r = Record {
        public_ip: "127.0.0.1".to_owned(),
        message: "it's.example.org".to_owned(),
        tunnel_configured: true,
        timestamp: 9,
    };
    assert_eq!(db.add(r).unwrap(), 1);
    let found = db
        .find(FindFilter::PublicIpAndMessage(
            "127.0.0.1".to_owned(),
            "it's.example.org".to_owned(),
        ))
        .unwrap();
    assert_eq!(found.len(), 1);
    assert_eq!(found[0].message, "it's.example.org");
    assert_eq!(found[0].timestamp, 9);
}

#[test]
fn update_overwrites_matching_rows() {
    let mut db = Db::new(":memory:").unwrap();
    let r = Record {
        public_ip: "10.1.1.1".to_owned(),
        message: "m.example.org".to_owned(),
        tunnel_configured: false,
        timestamp: 50,
    };
    assert_eq!(db.add(r).unwrap(), 1);
    let newer = Record {
        public_ip: "10.1.1.1".to_owned(),
        message: "m.example.org".to_owned(),
        tunnel_configured: true,
        timestamp: 60,
    };
    assert_eq!(db.update(newer).unwrap(), 1);
    let found = db
        .find(FindFilter::PublicIpAndMessage(
            "10.1.1.1".to_owned(),
            "m.example.org".to_owned(),
        ))
        .unwrap();
    assert_eq!(found.len(), 1);
    assert_eq!(found[0].tunnel_configured, true);
    assert_eq!(found[0].timestamp, 60);
}

#[test]
fn update_with_no_match_reports_zero_rows() {
    let mut db = Db::new(":memory:").unwrap();
    let r = Record {
        public_ip: "10.1.1.1".to_owned(),
        message: "absent.example.org".to_owned(),
        tunnel_configured: true,
        timestamp: 50,
    };
    assert_eq!(db.update(r).unwrap(), 0);
}

#[test]
fn seconds_from_epoch_is_not_negative() {
    let now = Db::seconds_from_epoch();
    assert!(now > 0);
}
