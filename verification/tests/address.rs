use base58::FromBase58;
use bitcoincore_rpc::bitcoin::Address;
use chainhook_event_observer::address::{
    build_p2pkh_script, build_p2sh_script, count_leading_ones, decode_address,
    decode_address_hash, extract_hash,
};
use chainhook_event_observer::error::ChainhookError;
use std::str::FromStr;

const P2PKH_ADDRESS: &str = "1A1zP1eP5QGefi2DMPTfTL5SLmv7DivfNa";
const P2PKH_HASH: [u8; 20] = [
    0x62, 0xe9, 0x07, 0xb1, 0x5c, 0xbf, 0x27, 0xd5, 0x42, 0x53, 0x99, 0xeb, 0xf6, 0xf0, 0xfb, 0x50,
    0xeb, 0xb8, 0x8f, 0x18,
];
const P2SH_ADDRESS: &str = "3J98t1WpEZ73CNmQviecrnyiWrnqRhWNLy";
const P2SH_HASH: [u8; 20] = [
    0xb4, 0x72, 0xa2, 0x66, 0xd0, 0xbd, 0x89, 0xc1, 0x37, 0x06, 0xa4, 0x13, 0x2c, 0xcf, 0xb1, 0x6f,
    0x7c, 0x3b, 0x9f, 0xcb,
];

#[test]
fn decode_address_hash_takes_the_twenty_bytes_after_the_version() {
    assert_eq!(decode_address_hash(P2PKH_ADDRESS), Ok(P2PKH_HASH.to_vec()));
    assert_eq!(decode_address_hash(P2SH_ADDRESS), Ok(P2SH_HASH.to_vec()));
}

#[test]
fn decode_address_hash_does_not_hand_the_text_back() {
    let hash = decode_address_hash(P2PKH_ADDRESS).unwrap();
    assert_eq!(hash.len(), 20);
    assert_ne!(hash, P2PKH_ADDRESS.as_bytes().to_vec());
}

#[test]
fn decode_address_hash_rejects_text_that_is_not_base58() {
    for text in ["0", "O", "I", "l", "1A1zP1eP5QGefi2DMPTfTL5SLmv7Divf0a", "s!5<", "caf\u{e9}"] {
        assert_eq!(decode_address_hash(text), Err(ChainhookError::InvalidAddressEncoding));
    }
}

#[test]
fn decode_address_hash_rejects_fewer_than_twenty_one_bytes() {
    assert_eq!(decode_address_hash(""), Err(ChainhookError::InvalidAddressEncoding));
    assert_eq!(decode_address_hash("ZiCa"), Err(ChainhookError::InvalidAddressEncoding));
    // Twenty leading `1`s decode to twenty zero bytes: one short.
    let twenty = "1".repeat(20);
    assert_eq!(decode_address_hash(&twenty), Err(ChainhookError::InvalidAddressEncoding));
    let twenty_one = "1".repeat(21);
    assert_eq!(decode_address_hash(&twenty_one), Ok(vec![0u8; 20]));
}

#[test]
fn decode_address_hash_takes_text_of_any_length() {
    assert_eq!(decode_address_hash(&"1".repeat(132)), Ok(vec![0u8; 20]));
    assert_eq!(decode_address_hash(&"1".repeat(133)), Ok(vec![0u8; 20]));
    assert_eq!(decode_address_hash(&"1".repeat(5000)), Ok(vec![0u8; 20]));
    let mixed = format!("{}{}", "1".repeat(120), "z".repeat(40));
    assert_eq!(decode_address_hash(&mixed), Ok(vec![0u8; 20]));
    let long = "z".repeat(140);
    let decoded = long.from_base58().unwrap();
    assert_eq!(decoded.len(), 103);
    assert_eq!(decode_address_hash(&long), Ok(decoded[1..21].to_vec()));
    assert_eq!(decode_address(&long), Ok(decoded));
}

#[test]
fn decode_address_fails_where_the_digits_cannot_be_decoded() {
    for text in ["z".repeat(181), "z".repeat(400), format!("{}{}", "1".repeat(10), "z".repeat(181))] {
        assert_eq!(decode_address(&text), Err(ChainhookError::InvalidAddressEncoding));
        assert_eq!(decode_address_hash(&text), Err(ChainhookError::InvalidAddressEncoding));
    }
    for text in ["10", "111O", "1\u{e9}", "11 ", "z1l"] {
        assert_eq!(decode_address(text), Err(ChainhookError::InvalidAddressEncoding));
    }
}

#[test]
fn decode_address_puts_a_zero_byte_for_each_leading_one() {
    assert_eq!(decode_address(""), Ok(vec![]));
    assert_eq!(decode_address("ZiCa"), Ok(b"abc".to_vec()));
    assert_eq!(decode_address("1ZiCa"), Ok(b"\0abc".to_vec()));
    assert_eq!(decode_address("1111ZiCa"), Ok(b"\0\0\0\0abc".to_vec()));
    assert_eq!(decode_address("Zi1Ca"), "Zi1Ca".from_base58().map_err(|_| ChainhookError::InvalidAddressEncoding));
    assert_eq!(decode_address("1"), Ok(vec![0]));
    assert_eq!(decode_address("3yxU3u1igY8WkgtjK92fbJQCd4BZiiT1v25f"), Ok(b"abcdefghijklmnopqrstuvwxyz".to_vec()));
}

#[test]
fn count_leading_ones_stops_at_the_first_other_character() {
    assert_eq!(count_leading_ones(""), 0);
    assert_eq!(count_leading_ones("1"), 1);
    assert_eq!(count_leading_ones("111"), 3);
    assert_eq!(count_leading_ones("11z1"), 2);
    assert_eq!(count_leading_ones("z111"), 0);
    assert_eq!(count_leading_ones("\u{e9}1"), 0);
    assert_eq!(count_leading_ones("1\u{1f600}1"), 1);
}

#[test]
fn decode_address_agrees_with_both_decoders() {
    let digits = ["z", "2", "Z", "1", "A9", "x1"];
    for length in 0usize..=60 {
        for ones in 0..=length {
            for digit in digits {
                let tail: String = digit.repeat(length).chars().take(length - ones).collect();
                let text = format!("{}{}", "1".repeat(ones), tail);
                let ours = decode_address(&text);
                let theirs = text.from_base58().map_err(|_| ChainhookError::InvalidAddressEncoding);
                assert_eq!(ours, theirs, "{}", text);
                let other = bitcoincore_rpc::bitcoin::util::base58::from(&text).map_err(|_| ChainhookError::InvalidAddressEncoding);
                assert_eq!(ours, other, "{}", text);
            }
        }
    }
    for text in ["1".repeat(300), format!("{}{}", "1".repeat(200), "z".repeat(100)), "z".repeat(170)] {
        let other = bitcoincore_rpc::bitcoin::util::base58::from(&text).map_err(|_| ChainhookError::InvalidAddressEncoding);
        assert_eq!(decode_address(&text), other);
    }
}

#[test]
fn extract_hash_skips_the_first_byte() {
    let decoded: Vec<u8> = (0u8..25).collect();
    let expected: Vec<u8> = (1u8..21).collect();
    assert_eq!(extract_hash(&decoded), Ok(&expected[..]));
    let exact: Vec<u8> = (0u8..21).collect();
    assert_eq!(extract_hash(&exact), Ok(&expected[..]));
}

#[test]
fn extract_hash_needs_twenty_one_bytes() {
    let short: Vec<u8> = (0u8..20).collect();
    assert_eq!(extract_hash(&short), Err(ChainhookError::InvalidAddressEncoding));
    assert_eq!(extract_hash(&[]), Err(ChainhookError::InvalidAddressEncoding));
}

#[test]
fn build_p2pkh_script_wraps_the_hash() {
    let mut expected = vec![0x76, 0xa9, 0x14];
    expected.extend_from_slice(&P2PKH_HASH);
    expected.extend_from_slice(&[0x88, 0xac]);
    assert_eq!(build_p2pkh_script(&P2PKH_HASH), expected);
}

#[test]
fn build_p2sh_script_wraps_the_hash() {
    let mut expected = vec![0xa9, 0x14];
    expected.extend_from_slice(&P2SH_HASH);
    expected.push(0x87);
    assert_eq!(build_p2sh_script(&P2SH_HASH), expected);
}

#[test]
fn built_scripts_are_those_of_the_addresses() {
    let p2pkh = Address::from_str(P2PKH_ADDRESS).unwrap().script_pubkey();
    assert_eq!(build_p2pkh_script(&P2PKH_HASH), p2pkh.as_bytes().to_vec());
    let p2sh = Address::from_str(P2SH_ADDRESS).unwrap().script_pubkey();
    assert_eq!(build_p2sh_script(&P2SH_HASH), p2sh.as_bytes().to_vec());
}

#[test]
fn decode_address_hash_answers_for_every_short_text() {
    for length in 0usize..=132 {
        for ones in 0..=length {
            for digit in ["z", "2", "Z"] {
                let text = format!("{}{}", "1".repeat(ones), digit.repeat(length - ones));
                let decoded = decode_address_hash(&text);
                if ones >= 21 {
                    assert_eq!(decoded, Ok(vec![0u8; 20]), "{}", text);
                }
                if length < 21 {
                    assert_eq!(decoded, Err(ChainhookError::InvalidAddressEncoding), "{}", text);
                }
            }
        }
    }
    let widest = "\u{1f600}".repeat(132);
    assert_eq!(decode_address_hash(&widest), Err(ChainhookError::InvalidAddressEncoding));
}
