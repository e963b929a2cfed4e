use libeldenring::aob_scans::{aobs, resolve_signature, ScanError};
use libeldenring::pattern::{into_needle, token_byte};
use libeldenring::relative::resolve_relative;
use libeldenring::scan::{naive_search, window_matches};

fn reference_needle(pattern: &str) -> Vec<Option<u8>> {
    pattern
        .split(' ')
        .map(|byte| match byte {
            "?" | "??" => None,
            x => u8::from_str_radix(x, 16).ok(),
        })
        .collect()
}

#[test]
fn needle_reads_bytes_and_wildcards() {
    assert_eq!(
        into_needle("48 8B 05 ?? ?? ?? ?? 4c"),
        vec![Some(0x48), Some(0x8B), Some(0x05), None, None, None, None, Some(0x4c)]
    );
    assert_eq!(into_needle("?"), vec![None]);
    assert_eq!(into_needle("??"), vec![None]);
    assert_eq!(into_needle("00"), vec![Some(0)]);
    assert_eq!(into_needle("ff FF fF"), vec![Some(255), Some(255), Some(255)]);
}

#[test]
fn needle_of_odd_texts() {
    // No token at all is one empty token, and an empty token is a wildcard.
    assert_eq!(into_needle(""), vec![None]);
    assert_eq!(into_needle(" "), vec![None, None]);
    assert_eq!(into_needle("48  8B"), vec![Some(0x48), None, Some(0x8B)]);
    assert_eq!(into_needle("48 "), vec![Some(0x48), None]);
    // A sign in front is read, a sign alone is not.
    assert_eq!(into_needle("+f + -1"), vec![Some(15), None, None]);
    // Leading zeros do not count; numbers above a byte are no bytes.
    assert_eq!(into_needle("0000ff 100 1ff 0x10"), vec![Some(255), None, None, None]);
    assert_eq!(into_needle("4G zz é 7"), vec![None, None, None, Some(7)]);
}

#[test]
fn needle_agrees_with_std_parsing() {
    let texts = [
        "48 8B 05 ?? ?? ?? ?? 48 85 C0",
        "",
        "  ",
        "+1 +ff +100 ++1 - + 0 00 000 fff",
        "? ?? ??? a A aB Ab g 1g 9 10 é1 ｆｆ",
        "\t12 12\t 12\n",
    ];
    for text in texts {
        assert_eq!(into_needle(text), reference_needle(text), "{:?}", text);
    }
    for (_, pattern) in aobs() {
        assert_eq!(into_needle(pattern), reference_needle(pattern));
    }
}

#[test]
fn token_byte_reads_a_stretch() {
    let chars: Vec<char> = "xx7fyy".chars().collect();
    assert_eq!(token_byte(&chars, 2, 4), Some(0x7f));
    assert_eq!(token_byte(&chars, 2, 3), Some(7));
    assert_eq!(token_byte(&chars, 2, 2), None);
    assert_eq!(token_byte(&chars, 1, 4), None);
}

#[test]
fn search_finds_first_window() {
    let bytes = [0u8, 1, 2, 3, 1, 2, 3];
    assert_eq!(naive_search(&bytes, &[Some(1), None, Some(3)]), Some(1));
    assert_eq!(naive_search(&bytes, &[Some(3), Some(1)]), Some(3));
    assert_eq!(naive_search(&bytes, &[Some(3), Some(3)]), None);
    assert_eq!(naive_search(&bytes, &[None]), Some(0));
    assert_eq!(naive_search(&bytes, &[Some(3)]), Some(3));
}

#[test]
fn search_at_the_edges() {
    let bytes = [9u8, 8, 7];
    assert_eq!(naive_search(&bytes, &[Some(9), Some(8), Some(7)]), Some(0));
    assert_eq!(naive_search(&bytes, &[Some(8), Some(7)]), Some(1));
    assert_eq!(naive_search(&bytes, &[Some(7)]), Some(2));
    // A needle longer than the buffer fits nowhere, wildcards or not.
    assert_eq!(naive_search(&bytes, &[None, None, None, None]), None);
    assert_eq!(naive_search(&[], &[None]), None);
}

#[test]
fn exact_pattern_is_found_where_it_stands() {
    // The bytes of the pattern stand at 5 and nowhere before.
    let needle = [Some(0xde), Some(0xad), Some(0xbe), Some(0xef)];
    for k in 0..20usize {
        let mut bytes = vec![0xdeu8; 32];
        bytes[k..k + 4].copy_from_slice(&[0xde, 0xad, 0xbe, 0xef]);
        assert_eq!(naive_search(&bytes, &needle), Some(k));
    }
}

#[test]
fn wildcard_matches_every_byte() {
    let needle = [Some(0x48), None, Some(0x05), None];
    for value in 0..=255u8 {
        let bytes = [0x11, 0x48, value, 0x05, value.wrapping_mul(7), 0x22];
        assert_eq!(naive_search(&bytes, &needle), Some(1));
        assert!(window_matches(&bytes, &needle, 1));
        assert!(!window_matches(&bytes, &needle, 0));
    }
}

#[test]
fn relative_address_forward() {
    let mut bytes = vec![0u8; 0x200];
    bytes[0x103..0x107].copy_from_slice(&[0x50, 0, 0, 0]);
    assert_eq!(resolve_relative(&bytes, 0x100), Some(0x157));
}

#[test]
fn relative_address_backward() {
    let mut bytes = vec![0u8; 0x200];
    bytes[0x103..0x107].copy_from_slice(&[0xf0, 0xff, 0xff, 0xff]);
    // 0x100 + 7 - 16
    assert_eq!(resolve_relative(&bytes, 0x100), Some(0xf7));
    bytes[0x103..0x107].copy_from_slice(&0xffff_fff4u32.to_le_bytes());
    assert_eq!(resolve_relative(&bytes, 0x100), Some(0xfb));
}

#[test]
fn relative_address_is_exact_for_every_sign() {
    let len = 0x1000usize;
    for (m, d) in [(0usize, 0i32), (0, -7), (0x10, 0x7f0), (0x800, -0x807), (0xff0, 9), (5, 1000)] {
        let mut bytes = vec![0xccu8; len];
        bytes[m + 3..m + 7].copy_from_slice(&d.to_le_bytes());
        let expected = m as i64 + 7 + d as i64;
        assert!(0 <= expected && expected <= len as i64);
        assert_eq!(resolve_relative(&bytes, m), Some(expected as usize));
    }
}

#[test]
fn relative_address_outside_the_module_fails() {
    let len = 0x100usize;
    let mut bytes = vec![0u8; len];
    // One byte before the start.
    bytes[0x13..0x17].copy_from_slice(&(-0x18i32).to_le_bytes());
    assert_eq!(resolve_relative(&bytes, 0x10), None);
    bytes[0x13..0x17].copy_from_slice(&(-0x17i32).to_le_bytes());
    assert_eq!(resolve_relative(&bytes, 0x10), Some(0));
    // The end of the module is the last offset that counts.
    bytes[0x13..0x17].copy_from_slice(&(0xe9i32).to_le_bytes());
    assert_eq!(resolve_relative(&bytes, 0x10), Some(0x100));
    bytes[0x13..0x17].copy_from_slice(&(0xeai32).to_le_bytes());
    assert_eq!(resolve_relative(&bytes, 0x10), None);
    bytes[0x13..0x17].copy_from_slice(&i32::MAX.to_le_bytes());
    assert_eq!(resolve_relative(&bytes, 0x10), None);
    bytes[0x13..0x17].copy_from_slice(&i32::MIN.to_le_bytes());
    assert_eq!(resolve_relative(&bytes, 0x10), None);
}

#[test]
fn relative_address_needs_the_whole_instruction() {
    let bytes = vec![0u8; 16];
    assert_eq!(resolve_relative(&bytes, 9), Some(16));
    assert_eq!(resolve_relative(&bytes, 10), None);
    assert_eq!(resolve_relative(&bytes, 16), None);
    assert_eq!(resolve_relative(&bytes, 17), None);
    assert_eq!(resolve_relative(&bytes, usize::MAX), None);
    assert_eq!(resolve_relative(&[], 0), None);
}

#[test]
fn signature_resolves_through_its_first_match() {
    let mut bytes = vec![0xccu8; 0x80];
    bytes[0x20..0x27].copy_from_slice(&[0x48, 0x8b, 0x05, 0x10, 0, 0, 0]);
    bytes[0x40..0x47].copy_from_slice(&[0x48, 0x8b, 0x05, 0x20, 0, 0, 0]);
    assert_eq!(resolve_signature(&bytes, "48 8B 05 ?? ?? ?? ??"), Ok(0x37));
    assert_eq!(resolve_signature(&bytes, "48 8B 05 20"), Ok(0x67));
    assert_eq!(resolve_signature(&bytes, "48 8B 0D"), Err(ScanError::NotFound));
    assert_eq!(
        resolve_signature(&bytes, "CC CC 48 8B 05 20"),
        Err(ScanError::RelativeAddressOverflow)
    );
}
