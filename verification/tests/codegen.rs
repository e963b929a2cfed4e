use libeldenring::aob_scans::{aobs, collect_report, find_aobs, ScanError};
use libeldenring::codegen::{
    codegen_base_addresses, codegen_struct, codegen_version, get_base_addresses, push_field_line,
    push_offset_line, push_rebase_line,
};
use libeldenring::text::{chars_of, digit_str, push_decimal, push_decimal_2, push_hex, same_text};
use libeldenring::version::Version;

const FIELDS: [&str; 22] = [
    "chr_dbg_flags",
    "csfd4_virtual_memory_flag",
    "cs_flipper",
    "cs_lua_event_manager",
    "cs_menu_man",
    "cs_menu_man_imp",
    "cs_net_man",
    "cs_regulation_manager",
    "cs_session_manager",
    "damage_ctrl",
    "field_area",
    "game_data_man",
    "game_man",
    "group_mask",
    "hit_ins",
    "map_item_man",
    "menu_man_ins",
    "msg_repository",
    "solo_param_repository",
    "world_chr_man",
    "world_chr_man_dbg",
    "world_chr_man_imp",
];

fn expected_struct() -> String {
    let mut text = String::from("pub struct BaseAddresses {\n");
    for field in FIELDS {
        text.push_str(&format!("    pub {}: usize,\n", field));
    }
    text.push_str("}\n\n");
    text.push_str("impl BaseAddresses {\n");
    text.push_str("    pub fn with_module_base_addr(self, base: usize) -> BaseAddresses {\n");
    text.push_str("        BaseAddresses {\n");
    for field in FIELDS {
        text.push_str(&format!("            {}: self.{} + base,\n", field, field));
    }
    text.push_str("        }\n    }\n}\n\n");
    text
}

#[test]
fn version_is_written_with_two_digits_in_the_middle() {
    assert_eq!(Version(1, 2, 0).to_fromsoft_string(), "1.02.0");
    assert_eq!(Version(1, 3, 2).to_fromsoft_string(), "1.03.2");
    assert_eq!(Version(1, 10, 1).to_fromsoft_string(), "1.10.1");
    assert_eq!(Version(0, 0, 0).to_fromsoft_string(), "0.00.0");
    assert_eq!(Version(12, 345, 67).to_fromsoft_string(), "12.345.67");
    assert_eq!(
        Version(u32::MAX, 9, u32::MAX).to_fromsoft_string(),
        "4294967295.09.4294967295"
    );
}

#[test]
fn version_is_read_from_the_file_version_words() {
    assert_eq!(Version::from_file_version(0x0001_0003, 0x0002_0000), Version(1, 3, 2));
    assert_eq!(Version::from_file_version(0x0001_0002, 0x0000_ffff), Version(1, 2, 0));
    assert_eq!(
        Version::from_file_version(0xffff_fffe, 0x8000_1234),
        Version(0xffff, 0xfffe, 0x8000)
    );
    assert_eq!(Version::from_file_version(0, 0), Version(0, 0, 0));
}

#[test]
fn numbers_are_written_in_decimal_and_hexadecimal() {
    for n in [0u64, 1, 9, 10, 11, 99, 100, 255, 256, 4096, 0xdead_beef, u64::MAX] {
        let mut decimal = String::from("<");
        push_decimal(&mut decimal, n);
        assert_eq!(decimal, format!("<{}", n));
        let mut padded = String::new();
        push_decimal_2(&mut padded, n);
        assert_eq!(padded, format!("{:02}", n));
        let mut hex = String::from("0x");
        push_hex(&mut hex, n);
        assert_eq!(hex, format!("0x{:x}", n));
    }
    for d in 0..16u8 {
        assert_eq!(digit_str(d), format!("{:x}", d));
    }
}

#[test]
fn texts_are_compared_by_their_characters() {
    assert!(same_text("", ""));
    assert!(same_text("WorldChrMan", "WorldChrMan"));
    assert!(!same_text("WorldChrMan", "WorldChrManDbg"));
    assert!(!same_text("WorldChrMan", "WorldChrMam"));
    assert!(!same_text("a", ""));
    assert!(same_text("é中\u{10ffff}", "é中\u{10ffff}"));
    assert_eq!(chars_of("aé中"), vec!['a', 'é', '中']);
    assert_eq!(chars_of(""), Vec::<char>::new());
}

#[test]
fn lines_of_the_generated_source() {
    let mut text = String::from("{");
    push_field_line(&mut text, "game_man");
    assert_eq!(text, "{    pub game_man: usize,\n");
    let mut text = String::new();
    push_rebase_line(&mut text, "game_man");
    assert_eq!(text, "            game_man: self.game_man + base,\n");
    push_offset_line(&mut text, "hit_ins", 0x3c0_ffee);
    assert_eq!(
        text,
        "            game_man: self.game_man + base,\n    hit_ins: 0x3c0ffee,\n"
    );
    let mut text = String::new();
    push_offset_line(&mut text, "", 0);
    assert_eq!(text, "    : 0x0,\n");
}

#[test]
fn table_type_has_a_field_for_each_signature() {
    assert_eq!(codegen_struct(), expected_struct());
}

#[test]
fn fields_are_named_in_snake_case() {
    let generated = codegen_struct();
    for (entry, field) in aobs().iter().zip(FIELDS) {
        assert_eq!(heck::AsSnakeCase(entry.0).to_string(), field);
        assert!(generated.contains(&format!("    pub {}: usize,\n", field)));
        assert!(!generated.contains(entry.0));
    }
}

#[test]
fn constant_of_a_build() {
    let table = vec![("CSFlipper", 0x3c4_1230usize), ("ChrDbgFlags", 0), ("WorldChrMan", 255)];
    assert_eq!(
        codegen_version(&Version(1, 3, 2), &table),
        "pub const BASE_ADDRESSES_1_03_2: BaseAddresses = BaseAddresses {\n    \
         cs_flipper: 0x3c41230,\n    chr_dbg_flags: 0x0,\n    world_chr_man: 0xff,\n};\n\n"
    );
    assert_eq!(
        codegen_version(&Version(1, 12, 0), &Vec::new()),
        "pub const BASE_ADDRESSES_1_12_0: BaseAddresses = BaseAddresses {\n};\n\n"
    );
    assert_eq!(
        codegen_version(&Version(0, 0, 0), &vec![("XMLHttpRequest", usize::MAX)]),
        format!(
            "pub const BASE_ADDRESSES_0_00_0: BaseAddresses = BaseAddresses {{\n    \
             xml_http_request: 0x{:x},\n}};\n\n",
            usize::MAX
        )
    );
}

#[test]
fn tables_of_all_builds_follow_the_type() {
    let mut first = vec![0xccu8; 0x400];
    first[0x100..0x107].copy_from_slice(&[0x48, 0x8b, 0x05, 0x10, 0, 0, 0]);
    first[0x107..0x112].copy_from_slice(&[0x48, 0x85, 0xc0, 0x74, 0x05, 0x48, 0x8b, 0x40, 0x58, 0xc3, 0xc3]);
    let builds = vec![(Version(1, 2, 0), first.clone()), (Version(1, 3, 0), Vec::new())];
    let generated = get_base_addresses(&builds);
    let expected = expected_struct()
        + "pub const BASE_ADDRESSES_1_02_0: BaseAddresses = BaseAddresses {\n    \
           game_data_man: 0x117,\n};\n\n"
        + "pub const BASE_ADDRESSES_1_03_0: BaseAddresses = BaseAddresses {\n};\n\n";
    assert_eq!(generated.source, expected);
    assert_eq!(generated.reports.len(), 2);
    assert_eq!(generated.reports[0].0, Version(1, 2, 0));
    assert_eq!(generated.reports[1].0, Version(1, 3, 0));
    assert_eq!(generated.reports[0].1.offsets, vec![("GameDataMan", 0x117)]);
    assert_eq!(generated.reports[0].1.failures.len(), 21);
    assert_eq!(generated.reports[1].1.failures.len(), 22);
    assert_eq!(generated.reports[0].1.offsets, find_aobs(&first).offsets);
    assert_eq!(get_base_addresses(&Vec::new()).source, expected_struct());
}

#[test]
fn tables_are_written_in_the_order_given() {
    let outcomes = vec![
        ("WorldChrMan", Ok(0x30usize)),
        ("CSNetMan", Err(ScanError::NotFound)),
        ("ChrDbgFlags", Ok(0x10)),
        ("CSFlipper", Ok(0x20)),
        ("HitIns", Err(ScanError::RelativeAddressOverflow)),
    ];
    let report = collect_report(&outcomes);
    assert_eq!(
        report.offsets,
        vec![("CSFlipper", 0x20), ("ChrDbgFlags", 0x10), ("WorldChrMan", 0x30)]
    );
    assert_eq!(
        report.failures,
        vec![("CSNetMan", ScanError::NotFound), ("HitIns", ScanError::RelativeAddressOverflow)]
    );
    let tables = vec![
        (Version(1, 3, 1), report),
        (Version(1, 2, 3), collect_report(&vec![("GameMan", Ok(1))])),
    ];
    assert_eq!(
        codegen_base_addresses(&tables),
        expected_struct()
            + "pub const BASE_ADDRESSES_1_03_1: BaseAddresses = BaseAddresses {\n    \
               cs_flipper: 0x20,\n    chr_dbg_flags: 0x10,\n    world_chr_man: 0x30,\n};\n\n"
            + "pub const BASE_ADDRESSES_1_02_3: BaseAddresses = BaseAddresses {\n    \
               game_man: 0x1,\n};\n\n"
    );
    assert_eq!(codegen_base_addresses(&Vec::new()), expected_struct());
}
