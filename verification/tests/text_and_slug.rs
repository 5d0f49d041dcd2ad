use aurelis::ids::sorted_unique_ids;
use aurelis::slug::generate_slug;
use aurelis::text::{char_vec, parse_i16, push_i64, push_u64, split_text};

#[test]
fn integers_render_in_decimal() {
    let mut s = String::from("x=");
    push_i64(&mut s, -32768);
    assert_eq!(s, "x=-32768");
    let mut t = String::new();
    push_i64(&mut t, i64::MIN);
    assert_eq!(t, i64::MIN.to_string());
    let mut u = String::new();
    push_u64(&mut u, 0);
    push_u64(&mut u, 1200);
    assert_eq!(u, "01200");
}

#[test]
fn i16_parsing_matches_std() {
    for text in ["0", "12", "-7", "+5", "32767", "-32768", "32768", "-32769", "", "-", "+", "1a", " 1", "007", "99999999999"] {
        assert_eq!(parse_i16(text), text.parse::<i16>().ok(), "{text}");
    }
}

#[test]
fn split_matches_std() {
    for text in ["a:b:c", "", ":", "a::", "socket_gem:weapon:material:3:0"] {
        let expected: Vec<String> = text.split(':').map(|s| s.to_string()).collect();
        assert_eq!(split_text(text, ':'), expected);
    }
    assert_eq!(char_vec("héllo"), vec!['h', 'é', 'l', 'l', 'o']);
}

#[test]
fn ids_are_sorted_and_unique() {
    assert_eq!(sorted_unique_ids(&vec![5, 1, 5, 3, 1]), vec![1, 3, 5]);
    assert_eq!(sorted_unique_ids(&vec![]), Vec::<u128>::new());
}

#[test]
fn slugs_collapse_separators() {
    assert_eq!(generate_slug("Forest Wolf"), "forest_wolf");
    assert_eq!(generate_slug("  --Big__Bad  Wolf!!  "), "big_bad_wolf");
    assert_eq!(generate_slug("Goblin #2"), "goblin_2");
    assert_eq!(generate_slug("___"), "invalid_slug");
    assert_eq!(generate_slug(""), "invalid_slug");
    assert_eq!(generate_slug("Ünïcode"), "n_code");
}

#[test]
fn slugs_are_cut_to_64_characters() {
    let long = "a".repeat(70);
    assert_eq!(generate_slug(&long), "a".repeat(64));
    let cut_after_underscore = format!("{}_{}", "b".repeat(63), "c".repeat(10));
    let slug = generate_slug(&cut_after_underscore);
    assert_eq!(slug.len(), 64);
    assert!(slug.ends_with('_'));
}

#[test]
fn slugs_are_stable() {
    for name in ["Forest Wolf", "Goblin #2", "x"] {
        let once = generate_slug(name);
        assert_eq!(generate_slug(&once), once);
    }
}
