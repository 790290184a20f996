use diesel_full_text_search::{DecodeError, PgTsVector, PgTsVectorEntry};

fn entry(lexeme: &str, positions: &[u16]) -> PgTsVectorEntry {
    PgTsVectorEntry {
        lexeme: lexeme.to_owned(),
        positions: positions.to_vec(),
    }
}

fn wire(entries: &[PgTsVectorEntry]) -> Vec<u8> {
    let mut bytes = Vec::new();
    bytes.extend_from_slice(&(entries.len() as u32).to_be_bytes());
    for e in entries {
        bytes.extend_from_slice(e.lexeme.as_bytes());
        bytes.push(0);
        bytes.extend_from_slice(&(e.positions.len() as u16).to_be_bytes());
        for p in &e.positions {
            bytes.extend_from_slice(&p.to_be_bytes());
        }
    }
    bytes
}

#[test]
fn test_tsvector_from_sql_with_positions() {
    // to_tsvector('a fat cat sat on a mat and ate a fat rat'), as the server sends it
    let bytes: Vec<u8> = vec![
        0, 0, 0, 6, //
        b'a', b't', b'e', 0, 0, 1, 0, 9, //
        b'c', b'a', b't', 0, 0, 1, 0, 3, //
        b'f', b'a', b't', 0, 0, 2, 0, 2, 0, 11, //
        b'm', b'a', b't', 0, 0, 1, 0, 7, //
        b'r', b'a', b't', 0, 0, 1, 0, 12, //
        b's', b'a', b't', 0, 0, 1, 0, 4,
    ];
    let result = PgTsVector::from_sql(&bytes).expect("a well-formed value");

    let expected = PgTsVector {
        entries: vec![
            PgTsVectorEntry {
                lexeme: "ate".to_owned(),
                positions: vec![9],
            },
            PgTsVectorEntry {
                lexeme: "cat".to_owned(),
                positions: vec![3],
            },
            PgTsVectorEntry {
                lexeme: "fat".to_owned(),
                positions: vec![2, 11],
            },
            PgTsVectorEntry {
                lexeme: "mat".to_owned(),
                positions: vec![7],
            },
            PgTsVectorEntry {
                lexeme: "rat".to_owned(),
                positions: vec![12],
            },
            PgTsVectorEntry {
                lexeme: "sat".to_owned(),
                positions: vec![4],
            },
        ],
    };

    assert_eq!(expected, result);
}

#[test]
fn test_tsvector_from_sql_without_positions() {
    // 'a fat cat sat on a mat and ate a fat rat'::tsvector, as the server sends it
    let mut bytes: Vec<u8> = vec![0, 0, 0, 9];
    for lexeme in ["a", "and", "ate", "cat", "fat", "mat", "on", "rat", "sat"] {
        bytes.extend_from_slice(lexeme.as_bytes());
        bytes.extend_from_slice(&[0, 0, 0]);
    }
    let result = PgTsVector::from_sql(&bytes).expect("a well-formed value");

    let expected = PgTsVector {
        entries: vec![
            PgTsVectorEntry {
                lexeme: "a".to_owned(),
                positions: vec![],
            },
            PgTsVectorEntry {
                lexeme: "and".to_owned(),
                positions: vec![],
            },
            PgTsVectorEntry {
                lexeme: "ate".to_owned(),
                positions: vec![],
            },
            PgTsVectorEntry {
                lexeme: "cat".to_owned(),
                positions: vec![],
            },
            PgTsVectorEntry {
                lexeme: "fat".to_owned(),
                positions: vec![],
            },
            PgTsVectorEntry {
                lexeme: "mat".to_owned(),
                positions: vec![],
            },
            PgTsVectorEntry {
                lexeme: "on".to_owned(),
                positions: vec![],
            },
            PgTsVectorEntry {
                lexeme: "rat".to_owned(),
                positions: vec![],
            },
            PgTsVectorEntry {
                lexeme: "sat".to_owned(),
                positions: vec![],
            },
        ],
    };

    assert_eq!(expected, result);
}

#[test]
fn decodes_cat_and_rat() {
    let bytes = [
        0, 0, 0, 2, b'c', b'a', b't', 0, 0, 1, 0, 3, b'r', b'a', b't', 0, 0, 1, 0, 12,
    ];
    assert_eq!(
        PgTsVector::from_sql(&bytes),
        Ok(PgTsVector {
            entries: vec![entry("cat", &[3]), entry("rat", &[12])],
        })
    );
}

#[test]
fn zero_count_decodes_to_no_entries() {
    assert_eq!(
        PgTsVector::from_sql(&[0, 0, 0, 0]),
        Ok(PgTsVector { entries: vec![] })
    );
}

#[test]
fn empty_buffer_is_truncated() {
    assert_eq!(PgTsVector::from_sql(&[]), Err(DecodeError::Truncated));
}

#[test]
fn short_count_is_truncated() {
    assert_eq!(PgTsVector::from_sql(&[0, 0, 0]), Err(DecodeError::Truncated));
}

#[test]
fn missing_positions_are_truncated() {
    // three positions declared, one supplied
    let bytes = [0, 0, 0, 1, b'c', b'a', b't', 0, 0, 3, 0, 3];
    assert_eq!(PgTsVector::from_sql(&bytes), Err(DecodeError::Truncated));
}

#[test]
fn half_a_position_is_truncated() {
    let bytes = [0, 0, 0, 1, b'c', b'a', b't', 0, 0, 1, 0];
    assert_eq!(PgTsVector::from_sql(&bytes), Err(DecodeError::Truncated));
}

#[test]
fn missing_position_count_is_truncated() {
    assert_eq!(
        PgTsVector::from_sql(&[0, 0, 0, 1, b'c', b'a', b't', 0]),
        Err(DecodeError::Truncated)
    );
    assert_eq!(
        PgTsVector::from_sql(&[0, 0, 0, 1, b'c', b'a', b't', 0, 0]),
        Err(DecodeError::Truncated)
    );
}

#[test]
fn missing_terminator_is_truncated() {
    assert_eq!(
        PgTsVector::from_sql(&[0, 0, 0, 1, b'c', b'a', b't']),
        Err(DecodeError::Truncated)
    );
}

#[test]
fn missing_record_is_truncated() {
    let bytes = [0, 0, 0, 2, b'c', b'a', b't', 0, 0, 1, 0, 3];
    assert_eq!(PgTsVector::from_sql(&bytes), Err(DecodeError::Truncated));
}

#[test]
fn every_proper_prefix_is_truncated() {
    let whole = wire(&[entry("cat", &[3]), entry("fat", &[2, 11]), entry("on", &[])]);
    for len in 0..whole.len() {
        assert_eq!(
            PgTsVector::from_sql(&whole[..len]),
            Err(DecodeError::Truncated),
            "prefix of {} bytes",
            len
        );
    }
    assert!(PgTsVector::from_sql(&whole).is_ok());
}

#[test]
fn trailing_bytes_are_refused() {
    let bytes = [0, 0, 0, 1, b'c', b'a', b't', 0, 0, 1, 0, 3, 7];
    assert_eq!(PgTsVector::from_sql(&bytes), Err(DecodeError::TrailingBytes));
    assert_eq!(
        PgTsVector::from_sql(&[0, 0, 0, 0, 0]),
        Err(DecodeError::TrailingBytes)
    );
}

#[test]
fn invalid_utf8_is_refused() {
    let bytes = [0, 0, 0, 1, 0xff, 0xfe, 0, 0, 0];
    assert_eq!(PgTsVector::from_sql(&bytes), Err(DecodeError::InvalidUtf8));
}

#[test]
fn invalid_utf8_comes_before_the_missing_count() {
    let bytes = [0, 0, 0, 1, 0xc3, 0];
    assert_eq!(PgTsVector::from_sql(&bytes), Err(DecodeError::InvalidUtf8));
}

#[test]
fn first_malformed_record_decides() {
    // the first record is not UTF-8, the second is cut short
    let bytes = [0, 0, 0, 2, 0xff, 0, 0, 0, b'a', 0, 0];
    assert_eq!(PgTsVector::from_sql(&bytes), Err(DecodeError::InvalidUtf8));
    // the first record is good, the second is not UTF-8, and bytes follow it
    let bytes = [0, 0, 0, 2, b'a', 0, 0, 0, 0xff, 0, 0, 0, 9];
    assert_eq!(PgTsVector::from_sql(&bytes), Err(DecodeError::InvalidUtf8));
    // the first record is good, the second has no end
    let bytes = [0, 0, 0, 2, b'a', 0, 0, 0, 0xff];
    assert_eq!(PgTsVector::from_sql(&bytes), Err(DecodeError::Truncated));
    // a position that looks like the next record belongs to the first
    let bytes = [0, 0, 0, 2, b'a', 0, 0, 1, 0xff, 0];
    assert_eq!(PgTsVector::from_sql(&bytes), Err(DecodeError::Truncated));
}

#[test]
fn multibyte_lexemes_are_decoded() {
    let bytes = [
        0, 0, 0, 1, 0xc3, 0xa9, 0x74, 0xc3, 0xa9, 0, 0, 1, 0, 1,
    ];
    assert_eq!(
        PgTsVector::from_sql(&bytes),
        Ok(PgTsVector {
            entries: vec![entry("été", &[1])],
        })
    );
}

#[test]
fn empty_lexeme_is_decoded() {
    assert_eq!(
        PgTsVector::from_sql(&[0, 0, 0, 1, 0, 0, 0]),
        Ok(PgTsVector {
            entries: vec![entry("", &[])],
        })
    );
}

#[test]
fn numbers_are_read_most_significant_byte_first() {
    let bytes = [0, 0, 0, 1, b'x', 0, 0, 2, 0x01, 0x02, 0xff, 0xfe];
    assert_eq!(
        PgTsVector::from_sql(&bytes),
        Ok(PgTsVector {
            entries: vec![entry("x", &[0x0102, 0xfffe])],
        })
    );
}

#[test]
fn count_is_read_most_significant_byte_first() {
    // 256 entries without text or positions
    let mut bytes = vec![0, 0, 1, 0];
    for _ in 0..256 {
        bytes.extend_from_slice(&[0, 0, 0]);
    }
    let decoded = PgTsVector::from_sql(&bytes).expect("a well-formed value");
    assert_eq!(decoded.entries.len(), 256);
    assert!(decoded.entries.iter().all(|e| e == &entry("", &[])));
    // the same count read the other way round would ask for 65536 entries
    assert_eq!(
        PgTsVector::from_sql(&[0, 1, 0, 0, 0, 0, 0]),
        Err(DecodeError::Truncated)
    );
}

#[test]
fn huge_count_without_records_is_truncated() {
    assert_eq!(
        PgTsVector::from_sql(&[0xff, 0xff, 0xff, 0xff]),
        Err(DecodeError::Truncated)
    );
}

#[test]
fn positions_keep_their_order() {
    let value = PgTsVector {
        entries: vec![entry("b", &[9, 2, 2, 40000]), entry("a", &[])],
    };
    assert_eq!(PgTsVector::from_sql(&wire(&value.entries)), Ok(value));
}

#[test]
fn decoding_undoes_encoding() {
    let value = PgTsVector {
        entries: vec![
            entry("ate", &[9]),
            entry("", &[]),
            entry("fat", &[2, 11]),
            entry("naïve", &[65535, 0]),
            entry("on", &[]),
        ],
    };
    assert_eq!(PgTsVector::from_sql(&wire(&value.entries)), Ok(value));
}

#[test]
fn many_positions_are_decoded() {
    let positions: Vec<u16> = (0..=65534u16).collect();
    let value = PgTsVector {
        entries: vec![entry("w", &positions)],
    };
    assert_eq!(PgTsVector::from_sql(&wire(&value.entries)), Ok(value));
}
