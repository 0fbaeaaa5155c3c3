use osc_chatbox::smalltext::to_superscript;

#[test]
fn superscript_digits_and_percent() {
    assert_eq!(to_superscript("0123456789"), "⁰¹²³⁴⁵⁶⁷⁸⁹");
    assert_eq!(to_superscript("37%"), "³⁷﹪");
    assert_eq!(to_superscript("+-=()"), "⁺⁻⁼⁽⁾");
}

#[test]
fn superscript_keeps_other_characters() {
    assert_eq!(to_superscript("8192/16384mb"), "⁸¹⁹²/¹⁶³⁸⁴mb");
    assert_eq!(to_superscript(""), "");
    assert_eq!(to_superscript("down:1.5mb/s"), "down:¹.⁵mb/s");
}
