use led_circle::chip_id::{decode_idcode, jep106_designer, Designer, IdCode};

#[test]
fn stmicro_id_registers_match() {
    assert_eq!(jep106_designer(0x04, 0x0A, 0x00), Designer::StMicro);
    assert_eq!(jep106_designer(0xFFFF_FF04, 0xFFFF_FF0A, 0xFFFF_FFF0), Designer::StMicro);
}

#[test]
fn missing_jep106_code_is_reported() {
    assert_eq!(jep106_designer(0x04, 0x02, 0x00), Designer::CodeNotFound);
}

#[test]
fn other_designer_carries_page_and_code() {
    assert_eq!(jep106_designer(0x04, 0x0A, 0x01), Designer::Other { page: 1, code: 0x20 });
    assert_eq!(jep106_designer(0xB0, 0x0B, 0x04), Designer::Other { page: 4, code: 0x3B });
}

#[test]
fn idcode_fields_are_split() {
    assert_eq!(
        decode_idcode(0x2003_6422),
        IdCode { raw: 0x2003_6422, dev_id: 0x422, rev_id: 0x2003 }
    );
    assert_eq!(decode_idcode(0), IdCode { raw: 0, dev_id: 0, rev_id: 0 });
}
