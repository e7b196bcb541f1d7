use shame_bot::get_formatted_message;
use shame_bot::ids::ChannelId;
use shame_bot::ids::GuildId;
use shame_bot::ids::RoleId;
use shame_bot::ids::UserId;
use shame_bot::message::mention_of;
use shame_bot::message::notice;
use shame_bot::message::notices;
use shame_bot::text::chars_of;
use shame_bot::text::string_of;
use shame_bot::text::substitute;
use shame_bot::types::NewKenneling;
use shame_bot::util::stefan_traits::relative_timestamp;
use shame_bot::util::stefan_traits::GetRelativeTimestamp;

fn draft(kenneled_at: u64, kennel_length: u64) -> NewKenneling {
    NewKenneling {
        guild_id: GuildId(1),
        author_id: UserId(7),
        victim_id: UserId(42),
        role_id: RoleId(3),
        kenneled_at,
        kennel_length,
        msg_announce_id: None,
        kennel_msg_id: None,
    }
}

#[test]
fn every_mark_is_filled_in() {
    let text = get_formatted_message(
        "$victim was kenneled by $kenneler for $time, back $return",
        &UserId(42),
        &UserId(7),
        "3m",
        "<t:100:R>",
    );
    assert_eq!(text, "<@42> was kenneled by <@7> for 3m, back <t:100:R>");
}

#[test]
fn marks_may_stand_in_any_order() {
    let text = get_formatted_message(
        "$return $time $kenneler $victim",
        &UserId(42),
        &UserId(7),
        "3m",
        "soon",
    );
    assert_eq!(text, "soon 3m <@7> <@42>");
}

#[test]
fn a_message_without_marks_stays() {
    let text = get_formatted_message("To the kennel!", &UserId(42), &UserId(7), "3m", "soon");
    assert_eq!(text, "To the kennel!");
    assert_eq!(get_formatted_message("", &UserId(42), &UserId(7), "3m", "soon"), "");
}

#[test]
fn a_mark_may_come_more_than_once() {
    let text = get_formatted_message(
        "$victim! $victim! $time and $time",
        &UserId(42),
        &UserId(7),
        "3m",
        "soon",
    );
    assert_eq!(text, "<@42>! <@42>! 3m and 3m");
}

#[test]
fn a_dollar_alone_is_no_mark() {
    let text = get_formatted_message("$ $vict $TIME $kennel", &UserId(42), &UserId(7), "3m", "soon");
    assert_eq!(text, "$ $vict $TIME $kennel");
}

#[test]
fn what_is_written_for_one_mark_is_not_taken_for_another() {
    let text = get_formatted_message("$time", &UserId(42), &UserId(7), "$return", "X");
    assert_eq!(text, "$return");
    let text = get_formatted_message("$return", &UserId(42), &UserId(7), "3m", "$time");
    assert_eq!(text, "$time");
    let text = get_formatted_message(
        "$time $return $victim",
        &UserId(42),
        &UserId(7),
        "$return $victim",
        "$kenneler $time",
    );
    assert_eq!(text, "$return $victim $kenneler $time <@42>");
}

#[test]
fn a_member_is_shown_by_a_mention() {
    assert_eq!(string_of(&mention_of(42)), "<@42>");
    assert_eq!(string_of(&mention_of(u64::MAX)), "<@18446744073709551615>");
}

#[test]
fn a_time_is_shown_as_a_distance() {
    assert_eq!(relative_timestamp(0), "<t:0:R>");
    assert_eq!(relative_timestamp(1_700_000_000), "<t:1700000000:R>");
    assert_eq!(1_700_000_000u64.discord_relative_timestamp(), "<t:1700000000:R>");
    assert_eq!(
        (u64::MAX as u128 + 1).discord_relative_timestamp(),
        "<t:18446744073709551616:R>"
    );
}

#[test]
fn a_notice_names_the_length_and_the_release() {
    let text = notice("$victim: $time, back $return ($kenneler)", &draft(1000, 9420));
    assert_eq!(text, "<@42>: 2h 37m, back <t:10420:R> (<@7>)");
    assert_eq!(notice("$time", &draft(0, 2)), "2s");
    assert_eq!(notice("$time", &draft(0, 86400 + 1)), "1day 1s");
}

#[test]
fn the_release_of_a_notice_does_not_wrap() {
    let text = notice("$return", &draft(u64::MAX, u64::MAX));
    assert_eq!(text, "<t:36893488147419103230:R>");
}

#[test]
fn notices_go_where_the_guild_has_set_them() {
    let announce = String::from("$victim is out for $time");
    let kennel = String::from("welcome, $victim");
    let d = draft(0, 60);

    let all = notices(Some(&announce), Some(ChannelId(9)), Some(&kennel), &d);
    assert_eq!(all.announcement, Some(String::from("<@42> is out for 1m")));
    assert_eq!(all.kennel, Some((ChannelId(9), String::from("welcome, <@42>"))));

    let no_channel = notices(Some(&announce), None, Some(&kennel), &d);
    assert_eq!(no_channel.announcement, Some(String::from("<@42> is out for 1m")));
    assert_eq!(no_channel.kennel, None);

    let no_message = notices(None, Some(ChannelId(9)), None, &d);
    assert_eq!(no_message.announcement, None);
    assert_eq!(no_message.kennel, None);

    let only_kennel = notices(None, Some(ChannelId(9)), Some(&kennel), &d);
    assert_eq!(only_kennel.announcement, None);
    assert_eq!(only_kennel.kennel, Some((ChannelId(9), String::from("welcome, <@42>"))));
}

#[test]
fn lengths_are_written_as_the_formatter_writes_them() {
    for secs in [1u64, 2, 59, 60, 61, 3599, 3600, 86_399, 86_400, 2_630_016, 31_557_600, u64::MAX] {
        let expected =
            humantime::format_duration(std::time::Duration::from_secs(secs)).to_string();
        assert_eq!(notice("$time", &draft(0, secs)), expected);
    }
}

#[test]
fn values_without_marks_are_filled_in_as_std_replaces() {
    let messages = ["", "$victim", "$victim$kenneler$time$return", "$$victim", "$time$time", "plain"];
    for message in messages {
        let expected = message
            .replace("$victim", "<@42>")
            .replace("$kenneler", "<@7>")
            .replace("$time", "3m")
            .replace("$return", "<t:9:R>");
        assert_eq!(
            get_formatted_message(message, &UserId(42), &UserId(7), "3m", "<t:9:R>"),
            expected
        );
    }
}

#[test]
fn the_marks_may_be_looked_for_in_any_order() {
    let pairs = [
        ("$victim", "<@42>"),
        ("$kenneler", "<@7>"),
        ("$time", "$return $victim"),
        ("$return", "$time $kenneler"),
    ];
    let messages = [
        "$victim$kenneler$time$return",
        "$return $time $kenneler $victim",
        "$$time $vic$victim $returnn",
        "no marks",
    ];
    for message in messages {
        let expected = get_formatted_message(
            message,
            &UserId(42),
            &UserId(7),
            "$return $victim",
            "$time $kenneler",
        );
        for a in 0..4 {
            for b in 0..4 {
                for c in 0..4 {
                    for d in 0..4 {
                        let order = [a, b, c, d];
                        if (0..4).any(|k| !order.contains(&k)) {
                            continue;
                        }
                        let marks: Vec<(Vec<char>, Vec<char>)> = order
                            .iter()
                            .map(|k| (chars_of(pairs[*k].0), chars_of(pairs[*k].1)))
                            .collect();
                        let filled = string_of(&substitute(&chars_of(message), &marks));
                        assert_eq!(filled, expected, "{:?} {:?}", message, order);
                    }
                }
            }
        }
    }
}
