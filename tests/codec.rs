use data_access_kit_replication::checkpoint::{parse_checkpoint, CheckpointFault, Position};
use data_access_kit_replication::decimal::{format_u64, parse_u64, IntTextError};

#[test]
fn formats_integers_in_base_ten() {
    assert_eq!(format_u64(0), "0");
    assert_eq!(format_u64(7), "7");
    assert_eq!(format_u64(45678), "45678");
    assert_eq!(format_u64(u64::MAX), "18446744073709551615");
}

#[test]
fn parses_integers_like_std() {
    assert_eq!(parse_u64("45678"), Ok(45678));
    assert_eq!(parse_u64("+5"), Ok(5));
    assert_eq!(parse_u64("007"), Ok(7));
    assert_eq!(parse_u64("18446744073709551615"), Ok(u64::MAX));
    assert_eq!(parse_u64(""), Err(IntTextError::Empty));
    assert_eq!(parse_u64("+"), Err(IntTextError::InvalidDigit));
    assert_eq!(parse_u64("-1"), Err(IntTextError::InvalidDigit));
    assert_eq!(parse_u64("12a"), Err(IntTextError::InvalidDigit));
    assert_eq!(parse_u64("18446744073709551616"), Err(IntTextError::Overflow));
    for text in ["", "+", "12a", "18446744073709551616", "99999999999999999999x"] {
        assert_eq!(parse_u64(text).is_ok(), text.parse::<u64>().is_ok());
    }
}

#[test]
fn int_error_messages_match_std() {
    assert_eq!(IntTextError::Empty.message(), "".parse::<u64>().unwrap_err().to_string());
    assert_eq!(IntTextError::InvalidDigit.message(), "x".parse::<u64>().unwrap_err().to_string());
    assert_eq!(
        IntTextError::Overflow.message(),
        "18446744073709551616".parse::<u64>().unwrap_err().to_string()
    );
}

#[test]
fn parses_gtid_checkpoint() {
    let p = parse_checkpoint("gtid:3E11FA47-71CA-11E1-9E33-C80AA9429562:23").unwrap();
    assert_eq!(p, Position::Gtid { set: "3E11FA47-71CA-11E1-9E33-C80AA9429562:23".to_string() });
}

#[test]
fn parses_file_checkpoint_at_last_colon() {
    let p = parse_checkpoint("file:mysql-bin.000123:45678").unwrap();
    assert_eq!(p, Position::FilePos { file: "mysql-bin.000123".to_string(), offset: 45678 });
    let q = parse_checkpoint("file:a:b:12").unwrap();
    assert_eq!(q, Position::FilePos { file: "a:b".to_string(), offset: 12 });
}

#[test]
fn rejects_unknown_checkpoint_prefix() {
    let e = parse_checkpoint("pos:12").unwrap_err();
    assert_eq!(e.fault, CheckpointFault::UnknownPrefix);
    assert_eq!(e.message(), "Invalid checkpoint format: 'pos:12'. Must start with 'gtid:' or 'file:'");
}

#[test]
fn rejects_file_checkpoint_without_offset() {
    let e = parse_checkpoint("file:mysql-bin.000001").unwrap_err();
    assert_eq!(e.fault, CheckpointFault::MissingOffset);
    assert_eq!(e.message(), "Invalid file checkpoint format: 'file:mysql-bin.000001'");
}

#[test]
fn rejects_non_numeric_offset() {
    let e = parse_checkpoint("file:mysql-bin.000001:abc").unwrap_err();
    assert_eq!(e.fault, CheckpointFault::BadOffset(IntTextError::InvalidDigit));
    assert_eq!(
        e.message(),
        "Invalid binlog position in checkpoint 'file:mysql-bin.000001:abc': invalid digit found in string"
    );
}

#[test]
fn checkpoint_round_trips() {
    let positions = vec![
        Position::Gtid { set: "uuid:1-100,uuid2:1-200".to_string() },
        Position::Gtid { set: String::new() },
        Position::FilePos { file: "mysql-bin.000001".to_string(), offset: 4 },
        Position::FilePos { file: "odd:name".to_string(), offset: u64::MAX },
    ];
    for p in positions {
        let text = p.to_checkpoint();
        assert_eq!(parse_checkpoint(&text).unwrap(), p);
    }
    assert_eq!(
        Position::FilePos { file: "mysql-bin.000001".to_string(), offset: 120 }.to_checkpoint(),
        "file:mysql-bin.000001:120"
    );
}
