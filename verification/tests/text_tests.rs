use sdof_dynamics::sampling::response_sample_count;
use sdof_dynamics::fnv::{hash_words, FNV_OFFSET_BASIS};
use sdof_dynamics::text::{chars_of, replace_text, tint_equation_svg, trim_number_text};

#[test]
fn trims_trailing_zeros() {
    assert_eq!(trim_number_text("0.0100"), "0.01");
    assert_eq!(trim_number_text("1.0000"), "1");
    assert_eq!(trim_number_text("10.0000"), "10");
    assert_eq!(trim_number_text("2.5000"), "2.5");
    assert_eq!(trim_number_text("0.1234"), "0.1234");
    assert_eq!(trim_number_text("-0.0000"), "-0");
    assert_eq!(trim_number_text(""), "");
}

#[test]
fn trims_like_the_formatted_float() {
    for v in [0.01f64, 1.0, 0.05, 0.1, 0.2, 0.5, 0.025, 1.1, 100.0] {
        let s = format!("{:.4}", v);
        let expected = s.trim_end_matches('0').trim_end_matches('.').to_string();
        assert_eq!(trim_number_text(&s), expected);
    }
}

#[test]
fn chars_in_order() {
    assert_eq!(chars_of("aζb"), vec!['a', 'ζ', 'b']);
}

#[test]
fn replaces_every_occurrence() {
    assert_eq!(replace_text("a-b-c", "-", "+"), "a+b+c");
    assert_eq!(replace_text("aaaa", "aa", "b"), "bb");
    assert_eq!(replace_text("aaa", "aa", "b"), "ba");
    assert_eq!(replace_text("no match", "xyz", "q"), "no match");
    assert_eq!(replace_text("", "x", "y"), "");
    assert_eq!(replace_text("ωxω", "ω", "omega"), "omegaxomega");
}

#[test]
fn replace_agrees_with_std() {
    let cases = [
        ("fill=\"currentColor\" stroke=\"currentColor\"", "currentColor"),
        ("abcabcab", "abc"),
        ("xxxxx", "xx"),
    ];
    for (text, pat) in cases.iter() {
        assert_eq!(replace_text(text, pat, "#1"), text.replace(pat, "#1"));
    }
}

#[test]
fn tints_svg_for_dark_theme() {
    let svg = "<svg style=\"color: ;\" fill=\"currentColor\"><g stroke=\"currentColor\"/></svg>";
    assert_eq!(
        tint_equation_svg(svg, true),
        "<svg style=\"color: #c8c8d2;\" fill=\"#c8c8d2\"><g stroke=\"#c8c8d2\"/></svg>"
    );
}

#[test]
fn tints_svg_for_light_theme() {
    let svg = "<svg style=\"color: ;\" fill=\"currentColor\"/>";
    assert_eq!(
        tint_equation_svg(svg, false),
        "<svg style=\"color: ;\" fill=\"#28282f\"/>"
    );
}

#[test]
fn hash_of_no_words_is_offset_basis() {
    assert_eq!(hash_words(&[]), FNV_OFFSET_BASIS);
    assert_eq!(FNV_OFFSET_BASIS, 0xcbf29ce484222325);
}

#[test]
fn hash_known_values() {
    assert_eq!(hash_words(&[0]), 0xaf63bd4c8601b7df);
    assert_eq!(hash_words(&[1, 2, 3]), 0xd0aa6218672cf5ab);
    let bits: Vec<u64> = [1.0f64, 100.0, 2.0].iter().map(|v| v.to_bits()).collect();
    assert_eq!(hash_words(&bits), 0x49cc12186c0f2fb7);
}

#[test]
fn hash_tells_parameter_changes_apart() {
    let a: Vec<u64> = [1.0f64, 100.0, 2.0].iter().map(|v| v.to_bits()).collect();
    let b: Vec<u64> = [1.0f64, 100.0, 2.5].iter().map(|v| v.to_bits()).collect();
    assert_ne!(hash_words(&a), hash_words(&b));
    assert_eq!(hash_words(&a), hash_words(&a.clone()));
}

#[test]
fn sample_count_bounds() {
    assert_eq!(response_sample_count(0), 3);
    assert_eq!(response_sample_count(1), 3);
    assert_eq!(response_sample_count(2), 3);
    assert_eq!(response_sample_count(3), 4);
    assert_eq!(response_sample_count(2000), 2001);
    assert_eq!(response_sample_count(2999), 3000);
    assert_eq!(response_sample_count(6000), 3000);
    assert_eq!(response_sample_count(usize::MAX - 1), 3000);
}
