//! Tests of the case converter.

use breadx_keysyms::convert_case;

#[test]
fn latin_basic_pairs() {
    assert_eq!(convert_case(0x0041), (0x0041, 0x0061)); // A
    assert_eq!(convert_case(0x0061), (0x0041, 0x0061)); // a
    assert_eq!(convert_case(0x005a), (0x005a, 0x007a)); // Z
    assert_eq!(convert_case(0x007a), (0x005a, 0x007a)); // z
}

#[test]
fn uncased_value_folds_to_itself() {
    assert_eq!(convert_case(0x01000000), (0x01000000, 0x01000000));
    assert_eq!(convert_case(0x0030), (0x0030, 0x0030)); // digit 0
    assert_eq!(convert_case(0xffbe), (0xffbe, 0xffbe)); // F1
    assert_eq!(convert_case(0x0000), (0x0000, 0x0000)); // NO_SYMBOL
}

#[test]
fn latin1_accented_pairs() {
    assert_eq!(convert_case(0x00c0), (0x00c0, 0x00e0)); // Agrave
    assert_eq!(convert_case(0x00e0), (0x00c0, 0x00e0)); // agrave
    assert_eq!(convert_case(0x00d6), (0x00d6, 0x00f6)); // Odiaeresis
    // The multiplication and division signs split the letter blocks and
    // have no case pair.
    assert_eq!(convert_case(0x00d7), (0x00d7, 0x00d7));
    assert_eq!(convert_case(0x00f7), (0x00f7, 0x00f7));
    assert_eq!(convert_case(0x00d8), (0x00d8, 0x00f8)); // Ooblique
    assert_eq!(convert_case(0x00fe), (0x00de, 0x00fe)); // thorn
    // ssharp has no uppercase keysym.
    assert_eq!(convert_case(0x00df), (0x00df, 0x00df));
}

#[test]
fn latin2_pairs_and_singletons() {
    assert_eq!(convert_case(0x01a1), (0x01a1, 0x01b1)); // Aogonek
    assert_eq!(convert_case(0x01b1), (0x01a1, 0x01b1)); // aogonek
    assert_eq!(convert_case(0x01a3), (0x01a3, 0x01b3)); // Lstroke
    assert_eq!(convert_case(0x01b3), (0x01a3, 0x01b3)); // lstroke
    assert_eq!(convert_case(0x01ae), (0x01ae, 0x01be)); // Zcaron
    assert_eq!(convert_case(0x01c0), (0x01c0, 0x01e0)); // Racute
    assert_eq!(convert_case(0x01fe), (0x01de, 0x01fe)); // tcedilla
}

#[test]
fn latin34_pairs() {
    assert_eq!(convert_case(0x02a1), (0x02a1, 0x02b1)); // Hstroke
    assert_eq!(convert_case(0x02bc), (0x02ac, 0x02bc)); // jcircumflex
    assert_eq!(convert_case(0x03a3), (0x03a3, 0x03b3)); // Rcedilla
    assert_eq!(convert_case(0x03bd), (0x03bd, 0x03bf)); // ENG
    assert_eq!(convert_case(0x03bf), (0x03bd, 0x03bf)); // eng
    assert_eq!(convert_case(0x03c0), (0x03c0, 0x03e0)); // Amacron
    assert_eq!(convert_case(0x03fe), (0x03de, 0x03fe)); // umacron
}

#[test]
fn cyrillic_pairs() {
    // In Cyrillic keysym blocks the lowercase letters sit below the
    // uppercase ones.
    assert_eq!(convert_case(0x06b1), (0x06b1, 0x06a1)); // Serbian_DJE
    assert_eq!(convert_case(0x06a1), (0x06b1, 0x06a1)); // Serbian_dje
    assert_eq!(convert_case(0x06e0), (0x06e0, 0x06c0)); // Cyrillic_YU
    assert_eq!(convert_case(0x06c0), (0x06e0, 0x06c0)); // Cyrillic_yu
    assert_eq!(convert_case(0x06ff), (0x06ff, 0x06df)); // Cyrillic_HARDSIGN
}

#[test]
fn greek_pairs_and_exceptions() {
    assert_eq!(convert_case(0x07a1), (0x07a1, 0x07b1)); // Greek_ALPHAaccent
    assert_eq!(convert_case(0x07b1), (0x07a1, 0x07b1)); // Greek_alphaaccent
    assert_eq!(convert_case(0x07bb), (0x07ab, 0x07bb)); // Greek_omegaaccent
    // The two accent-plus-dieresis vowels have no uppercase keysym.
    assert_eq!(convert_case(0x07b6), (0x07b6, 0x07b6));
    assert_eq!(convert_case(0x07ba), (0x07ba, 0x07ba));
    assert_eq!(convert_case(0x07c1), (0x07c1, 0x07e1)); // Greek_ALPHA
    assert_eq!(convert_case(0x07e1), (0x07c1, 0x07e1)); // Greek_alpha
    assert_eq!(convert_case(0x07f2), (0x07d2, 0x07f2)); // Greek_sigma
    // The final small sigma has no uppercase keysym.
    assert_eq!(convert_case(0x07f3), (0x07f3, 0x07f3));
    assert_eq!(convert_case(0x07f9), (0x07d9, 0x07f9)); // Greek_omega
}

#[test]
fn armenian_even_odd_toggle() {
    assert_eq!(convert_case(0x14b2), (0x14b2, 0x14b3)); // Armenian_AYB
    assert_eq!(convert_case(0x14b3), (0x14b2, 0x14b3)); // Armenian_ayb
    assert_eq!(convert_case(0x14fe), (0x14fe, 0x14ff)); // Armenian_FE
    assert_eq!(convert_case(0x14ff), (0x14fe, 0x14ff)); // Armenian_fe
}

#[test]
fn case_fold_idempotent_over_tables() {
    let ranges: [(u32, u32); 9] = [
        (0x0041, 0x007a),
        (0x00c0, 0x00ff),
        (0x01a1, 0x01ff),
        (0x02a1, 0x02fe),
        (0x03a3, 0x03fe),
        (0x06a1, 0x06ff),
        (0x07a1, 0x07f9),
        (0x14b2, 0x14ff),
        (0xff00, 0xffff),
    ];
    for (lo, hi) in ranges {
        for k in lo..=hi {
            let (upper, lower) = convert_case(k);
            assert_eq!(convert_case(lower).1, lower, "lower not idempotent at {k:#x}");
            assert_eq!(convert_case(upper).0, upper, "upper not idempotent at {k:#x}");
        }
    }
}
