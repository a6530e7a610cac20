use dbl::decimal::{parse_u64, to_decimal};
use dbl::types::{BotId, GuildId, UserId};

#[test]
fn decimal_text_of_numbers() {
    assert_eq!(to_decimal(0), "0");
    assert_eq!(to_decimal(7), "7");
    assert_eq!(to_decimal(10), "10");
    assert_eq!(to_decimal(565_030_624_499_466_240), "565030624499466240");
    assert_eq!(to_decimal(u64::MAX), "18446744073709551615");
}

#[test]
fn parse_accepts_what_std_accepts() {
    assert_eq!(parse_u64("0"), Some(0));
    assert_eq!(parse_u64("+12"), Some(12));
    assert_eq!(parse_u64("007"), Some(7));
    assert_eq!(parse_u64("18446744073709551615"), Some(u64::MAX));
}

#[test]
fn parse_rejects_what_std_rejects() {
    for s in ["", "+", "-1", "12a", " 1", "1.5", "18446744073709551616", "99999999999999999999"] {
        assert_eq!(parse_u64(s), None, "{}", s);
        assert!(s.parse::<u64>().is_err());
    }
}

#[test]
fn parse_agrees_with_std_on_samples() {
    for s in ["1", "+0", "42", "4294967296", "18446744073709551614", "++1", "1+", "٣"] {
        assert_eq!(parse_u64(s), s.parse::<u64>().ok(), "{}", s);
    }
}

#[test]
fn identifier_text_round_trip() {
    for v in [0u64, 1, 9, 10, 99, 100, 565_030_624_499_466_240, u64::MAX] {
        let bot = BotId::from(v);
        assert_eq!(BotId::from_text(&bot.to_string()), Some(bot));
        let user = UserId::from(v);
        assert_eq!(UserId::from_text(&user.to_string()), Some(user));
        let guild = GuildId::from(v);
        assert_eq!(GuildId::from_text(&guild.to_string()), Some(guild));
    }
}

#[test]
fn identifier_accessors() {
    let bot = BotId(565_030_624_499_466_240);
    assert_eq!(bot.as_u64(), 565_030_624_499_466_240);
    assert_eq!(bot.to_string(), "565030624499466240");
    assert_eq!(UserId::from_text("abc"), None);
    assert_eq!(GuildId::from_text("+5"), Some(GuildId(5)));
}
