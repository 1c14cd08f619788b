use cargo_cpp_shared::naming::conform;

#[test]
fn conform_replaces_whitespace_and_lowercases() {
    assert_eq!(conform("My Lib"), "my_lib");
}

#[test]
fn conform_twice_is_conform_once() {
    for name in ["My Lib", " A\tB\nC ", "already_conforming", "", "MiXeD  CaSe", "Grüße Gott"] {
        let once = conform(name);
        assert_eq!(conform(&once), once);
    }
}

#[test]
fn conform_does_not_trim() {
    assert_eq!(conform("  Acme Corp "), "__acme_corp_");
}

#[test]
fn conform_replaces_every_kind_of_whitespace() {
    assert_eq!(conform("a\tb\nc\rd\u{000B}e\u{000C}f"), "a_b_c_d_e_f");
    assert_eq!(conform("a\u{00A0}b\u{2003}c\u{3000}d\u{0085}e"), "a_b_c_d_e");
    assert_eq!(conform("a\u{200B}b"), "a\u{200B}b");
}

#[test]
fn conform_lowercases_beyond_ascii() {
    assert_eq!(conform("ÄÖÜ Straße"), "äöü_straße");
}

#[test]
fn conform_keeps_other_characters() {
    assert_eq!(conform("a-b.c/d@E"), "a-b.c/d@e");
    assert_eq!(conform("[\\]^_`{|}~@"), "[\\]^_`{|}~@");
}

fn white_space(c: char) -> bool {
    matches!(
        c as u32,
        0x09..=0x0D
            | 0x20
            | 0x85
            | 0xA0
            | 0x1680
            | 0x2000..=0x200A
            | 0x2028
            | 0x2029
            | 0x202F
            | 0x205F
            | 0x3000
    )
}

#[test]
fn exactly_the_white_space_characters_become_underscores() {
    for code in 0..=0x10FFFFu32 {
        if let Some(c) = char::from_u32(code) {
            let text = format!("a{c}b");
            let out = conform(&text);
            if white_space(c) || c == '_' {
                assert_eq!(out, "a_b", "U+{code:04X}");
            } else {
                assert_ne!(out, "a_b", "U+{code:04X}");
            }
        }
    }
}

#[test]
fn ascii_is_conformed_character_by_character() {
    let mut text = String::new();
    let mut expected = String::new();
    for code in 0..=0x7Fu8 {
        let c = code as char;
        text.push(c);
        expected.push(if white_space(c) {
            '_'
        } else if c.is_ascii_uppercase() {
            (code + 0x20) as char
        } else {
            c
        });
    }
    assert_eq!(conform(&text), expected);
}

#[test]
fn conform_twice_is_conform_once_on_every_character() {
    for code in 0..=0x10FFFFu32 {
        if let Some(c) = char::from_u32(code) {
            for text in [format!("{c}"), format!("A{c} "), format!("{c}b")] {
                let once = conform(&text);
                assert_eq!(conform(&once), once, "U+{code:04X}");
            }
        }
    }
}
