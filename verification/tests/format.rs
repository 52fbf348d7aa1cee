//! Hexadecimal formatting, the obligation table, and nonce aggregation
//! errors.

use committee_presign::hexfmt::{hex4, hex_encode};
use committee_presign::presign::nonce_aggregation;
use committee_presign::table::obligation_table;
use committee_presign::types::{Error, GraphTx, HashScope};

#[test]
fn hex_encode_exact() {
    assert_eq!(hex_encode(&vec![]), b"".to_vec());
    assert_eq!(hex_encode(&vec![0x00, 0x1f, 0xab, 0xff]), b"001fabff".to_vec());
}

#[test]
fn hex4_matches_std_formatting() {
    for n in [0usize, 1, 9, 10, 15, 16, 255, 0x1f2, 0xabcd, 0xffff, 0x10000, 0x12345, usize::MAX]
    {
        assert_eq!(hex4(n), format!("{:04x}", n).into_bytes());
    }
}

#[test]
fn obligation_table_is_the_fixed_five() {
    let t = obligation_table();
    assert_eq!(t.len(), 5);
    let expected = [
        (GraphTx::Take1, 0usize, 0usize, HashScope::All),
        (GraphTx::Take2, 0, 1, HashScope::All),
        (GraphTx::Take2, 2, 2, HashScope::All),
        (GraphTx::AssertFinal, 0, 3, HashScope::All),
        (GraphTx::Disprove, 0, 4, HashScope::Single),
    ];
    for (i, ob) in t.iter().enumerate() {
        assert_eq!(ob.tx, expected[i].0);
        assert_eq!(ob.input_index, expected[i].1);
        assert_eq!(ob.nonce_index, expected[i].2);
        assert_eq!(ob.sighash, expected[i].3);
    }
}

#[test]
fn hash_scope_tags() {
    assert_eq!(HashScope::All.tag_byte(), 0x01);
    assert_eq!(HashScope::Single.tag_byte(), 0x03);
}

#[test]
fn malformed_nonce_is_rejected() {
    let r = nonce_aggregation(&vec![vec![0u8; 66]]);
    assert_eq!(r.unwrap_err(), Error::MalformedNonce);
}
