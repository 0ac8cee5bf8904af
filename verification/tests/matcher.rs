use rns::matcher::{
    find_group, get_gift_code, is_plausible_code, sanitize_markdown, select_code, GIFT_PATTERN,
};

fn score(code: &str) -> f64 {
    let mut lower = 0;
    let mut upper = 0;
    let mut numeric = 0;
    for c in code.chars() {
        if c.is_ascii_digit() {
            numeric += 1;
        } else if c.is_uppercase() {
            upper += 1;
        } else {
            lower += 1;
        }
    }
    let length = code.len() as f64;
    let error = (26_f64 / 62_f64 - lower as f64 / length).abs()
        + (26_f64 / 62_f64 - upper as f64 / length).abs()
        + (10_f64 / 62_f64 - numeric as f64 / length).abs();
    1_f64 / (1_f64 + (error * 25_f64 - 15_f64).exp())
}

fn code_of(lower: usize, upper: usize, numeric: usize) -> String {
    let mut code = String::new();
    for i in 0..lower {
        code.push((b'a' + (i % 26) as u8) as char);
    }
    for i in 0..upper {
        code.push((b'A' + (i % 26) as u8) as char);
    }
    for i in 0..numeric {
        code.push((b'0' + (i % 10) as u8) as char);
    }
    code
}

#[test]
fn sanitize_removes_markdown_characters() {
    assert_eq!(sanitize_markdown("**dis`cord**.gift/~~abc~~ |x|_y_"), "discord.gift/abc xy");
}

#[test]
fn sanitize_keeps_clean_text() {
    assert_eq!(sanitize_markdown("discord.gift/Ab3dEf6hIjKlMnO2"), "discord.gift/Ab3dEf6hIjKlMnO2");
    assert_eq!(sanitize_markdown(""), "");
}

#[test]
fn sanitize_keeps_other_characters() {
    assert_eq!(sanitize_markdown("a-b+c#d ω ›"), "a-b+c#d ω ›");
}

#[test]
fn sanitize_of_markdown_alone_is_empty() {
    assert_eq!(sanitize_markdown("*_`~|"), "");
}

#[test]
fn balanced_code_is_plausible() {
    assert!(is_plausible_code("Ab3dEf6hIjKlMnO2"));
}

#[test]
fn one_sided_code_is_not_plausible() {
    assert!(!is_plausible_code("aaaaaaaaaaaaaaaa"));
    assert!(!is_plausible_code("AAAAAAAAAAAAAAAA"));
    assert!(!is_plausible_code("1111111111111111"));
}

#[test]
fn plausibility_at_the_boundary_of_sixteen() {
    assert!(is_plausible_code("abcdefghijABC123"));
    assert!(!is_plausible_code("abcdeABCDEFGHIJK"));
}

#[test]
fn plausibility_at_the_boundary_of_twenty_four() {
    assert!(is_plausible_code("abcdefghABCDEF0123456789"));
    assert!(!is_plausible_code("abcdefABCDEFGHIJKLMNOPQ1"));
}

#[test]
fn codes_of_the_wrong_length_are_not_plausible() {
    assert!(!is_plausible_code("Ab3dEf6hIjKlMnO"));
    assert!(!is_plausible_code("Ab3dEf6hIjKlMnO2Ab3dEf6hI"));
    assert!(!is_plausible_code(""));
}

#[test]
fn codes_with_other_characters_are_not_plausible() {
    assert!(!is_plausible_code("Ab3dEf6hIjKlMn-2"));
    assert!(!is_plausible_code("Ab3dEf6hIjKlMnÖ2"));
    assert!(!is_plausible_code("Ab3dEf6h IjKlMn2"));
}

#[test]
fn plausibility_agrees_with_the_score_over_nine_tenths() {
    for length in 16..=24_usize {
        for lower in 0..=length {
            for upper in 0..=(length - lower) {
                let numeric = length - lower - upper;
                let code = code_of(lower, upper, numeric);
                assert_eq!(is_plausible_code(&code), score(&code) > 0.9_f64, "{}", code);
            }
        }
    }
}

#[test]
fn select_keeps_a_plausible_code() {
    assert_eq!(
        select_code(Some("Ab3dEf6hIjKlMnO2".to_string())),
        Some("Ab3dEf6hIjKlMnO2".to_string())
    );
}

#[test]
fn select_drops_an_implausible_code() {
    assert_eq!(select_code(Some("aaaaaaaaaaaaaaaa".to_string())), None);
    assert_eq!(select_code(None), None);
}

#[test]
fn gift_code_is_found_behind_each_address() {
    for address in ["discord.com/gifts/", "discordapp.com/gifts/", "discord.gift/"] {
        let content = format!("look: https://{}Ab3dEf6hIjKlMnO2 !", address);
        assert_eq!(get_gift_code(&content), Ok(Some("Ab3dEf6hIjKlMnO2".to_string())));
    }
}

#[test]
fn gift_code_is_found_through_markdown() {
    assert_eq!(
        get_gift_code("||dis**cord.gift/Ab3dEf6h**IjKl_MnO2||"),
        Ok(Some("Ab3dEf6hIjKlMnO2".to_string()))
    );
}

#[test]
fn gift_code_may_follow_spaces() {
    assert_eq!(
        get_gift_code("discord.gift/   Ab3dEf6hIjKlMnO2"),
        Ok(Some("Ab3dEf6hIjKlMnO2".to_string()))
    );
}

#[test]
fn gift_code_takes_at_most_twenty_four_characters() {
    assert_eq!(
        get_gift_code("discord.gift/abcdefghABCDEF0123456789abcdef"),
        Ok(Some("abcdefghABCDEF0123456789".to_string()))
    );
}

#[test]
fn gift_code_ends_at_the_first_other_character() {
    assert_eq!(
        get_gift_code("discord.gift/Ab3dEf6hIjKlMnO2, enjoy"),
        Ok(Some("Ab3dEf6hIjKlMnO2".to_string()))
    );
}

#[test]
fn dot_in_the_address_stands_for_any_character() {
    assert_eq!(
        get_gift_code("discord-gift/Ab3dEf6hIjKlMnO2"),
        Ok(Some("Ab3dEf6hIjKlMnO2".to_string()))
    );
}

#[test]
fn first_address_in_the_text_wins() {
    assert_eq!(
        get_gift_code("discord.gift/Ab3dEf6hIjKlMnO2 discord.gift/Zy9xWv8uTsRqPo7n"),
        Ok(Some("Ab3dEf6hIjKlMnO2".to_string()))
    );
}

#[test]
fn short_codes_are_not_found() {
    assert_eq!(get_gift_code("discord.gift/Ab3dEf6hIjKlMnO"), Ok(None));
}

#[test]
fn text_without_an_address_holds_no_code() {
    assert_eq!(get_gift_code("Ab3dEf6hIjKlMnO2"), Ok(None));
    assert_eq!(get_gift_code(""), Ok(None));
    assert_eq!(get_gift_code("discord.gg/Ab3dEf6hIjKlMnO2"), Ok(None));
}

#[test]
fn implausible_codes_are_dropped() {
    assert_eq!(get_gift_code("discord.gift/aaaaaaaaaaaaaaaa"), Ok(None));
}

#[test]
fn find_group_gives_the_text_of_a_group() {
    assert_eq!(find_group("a(b+)(c?)", "xxabbbd", 0), Ok(Some("abbb".to_string())));
    assert_eq!(find_group("a(b+)(c?)", "xxabbbd", 1), Ok(Some("bbb".to_string())));
    assert_eq!(find_group("a(b+)(c?)", "xxabbbd", 2), Ok(Some(String::new())));
}

#[test]
fn find_group_without_match_or_group_gives_nothing() {
    assert_eq!(find_group("a(b+)", "xyz", 1), Ok(None));
    assert_eq!(find_group("a(b+)", "ab", 2), Ok(None));
    assert_eq!(find_group("a(b)|c", "c", 1), Ok(None));
}

#[test]
fn find_group_takes_the_leftmost_match() {
    assert_eq!(find_group("[0-9]+", "ab 12 cd 345", 0), Ok(Some("12".to_string())));
}

#[test]
fn find_group_with_a_broken_pattern_gives_the_reason() {
    match find_group("a(b", "ab", 0) {
        Err(error) => assert!(!error.reason.is_empty()),
        Ok(found) => panic!("{:?}", found),
    }
}

#[test]
fn gift_pattern_finds_address_and_code() {
    let text = "see discordapp.com/gifts/ Ab3dEf6hIjKlMnO2!";
    assert_eq!(find_group(GIFT_PATTERN, text, 1), Ok(Some("discordapp.com/gifts/".to_string())));
    assert_eq!(find_group(GIFT_PATTERN, text, 2), Ok(Some("Ab3dEf6hIjKlMnO2".to_string())));
    assert_eq!(
        find_group(GIFT_PATTERN, text, 0),
        Ok(Some("discordapp.com/gifts/ Ab3dEf6hIjKlMnO2".to_string()))
    );
}
