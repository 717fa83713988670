use escape_room::mentions::{parse_user_mentions, InvalidUserId};

/// The same scan written with the regex the bot's command parser used.
fn by_regex(text: &str) -> Option<(String, Vec<u64>)> {
    let re = regex::Regex::new(r"(<@!?(\d+)>)|(\d{16,20})").unwrap();
    let mut ids = Vec::new();
    let mut last_end = 0;
    for caps in re.captures_iter(text) {
        let digits = caps.get(2).or_else(|| caps.get(3)).unwrap().as_str();
        if let Ok(id) = digits.parse::<std::num::NonZeroU64>() {
            ids.push(id.get());
        }
        last_end = caps.get(0).unwrap().end();
    }
    if ids.is_empty() {
        None
    } else {
        Some((text[last_end..].trim_start().to_string(), ids))
    }
}

fn parsed(text: &str) -> Option<(String, Vec<u64>)> {
    parse_user_mentions(text).map(|(rest, ids)| (rest.to_string(), ids))
}

#[test]
fn mentions_and_bare_ids() {
    assert_eq!(
        parsed("<@123> <@!456> 1234567890123456789 rest of it"),
        Some(("rest of it".to_string(), vec![123, 456, 1234567890123456789]))
    );
    assert_eq!(parsed("nobody here"), None);
    assert_eq!(parsed(""), None);
    assert_eq!(parsed("<@0>"), None);
    assert_eq!(parsed("<@99999999999999999999> <@5>  x"), Some(("x".to_string(), vec![5])));
    assert_eq!(InvalidUserId.message(), "No valid User IDs or mentions were found.");
}

#[test]
fn mentions_agree_with_the_regex() {
    let cases = [
        "<@123>",
        "<@!123> trailing",
        "<@12a> 1234567890123456",
        "123456789012345",
        "1234567890123456",
        "123456789012345678901234567",
        "<@<@7>>",
        "<@!>",
        "<@!!9>",
        "x<@1>y<@2>z",
        "   <@42>\u{3000}\tnext",
        "00000000000000000000",
        "<@18446744073709551615> <@18446744073709551616>",
        "é<@3>ü 1111111111111111é",
        "<@\u{661}\u{662}> <@5> after",
        "111111111111111\u{661}22 tail",
    ];
    for case in cases {
        assert_eq!(parsed(case), by_regex(case), "{case}");
    }
}
