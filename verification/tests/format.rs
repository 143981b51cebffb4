use server_status::format::{display_name, render_online, Templates};
use server_status::outcome::PollOutcome;

fn templates(online: &str, offline: &str) -> Templates {
    Templates { online: online.to_string(), offline: offline.to_string() }
}

fn reachable(online: u32, max: u32) -> PollOutcome {
    PollOutcome::Reachable { online, max }
}

fn unreachable(reason: &str) -> PollOutcome {
    PollOutcome::Unreachable { reason: reason.to_string() }
}

#[test]
fn both_counts_are_put_in() {
    assert_eq!(render_online("Players: $ONLINE/$MAX", 3, 20), "Players: 3/20");
}

#[test]
fn more_players_than_admitted_are_shown_as_they_are() {
    assert_eq!(render_online("Players: $ONLINE/$MAX", 25, 20), "Players: 25/20");
    assert_eq!(render_online("$ONLINE of $MAX", u32::MAX, 0), "4294967295 of 0");
}

#[test]
fn empty_server_shows_zero() {
    assert_eq!(render_online("$ONLINE/$MAX online", 0, 0), "0/0 online");
}

#[test]
fn template_without_placeholders_is_the_name() {
    assert_eq!(render_online("Server is up", 3, 20), "Server is up");
    assert_eq!(render_online("", 3, 20), "");
}

#[test]
fn template_with_one_placeholder() {
    assert_eq!(render_online("$ONLINE playing", 12, 50), "12 playing");
    assert_eq!(render_online("room for $MAX", 12, 50), "room for 50");
}

#[test]
fn placeholders_in_either_order_and_more_than_once() {
    assert_eq!(render_online("max $MAX, now $ONLINE", 4, 8), "max 8, now 4");
    assert_eq!(render_online("$ONLINE$ONLINE $MAX$MAX", 1, 2), "11 22");
    assert_eq!(render_online("$ONLINE$MAX", 10, 20), "1020");
}

#[test]
fn a_placeholder_ends_where_its_name_ends() {
    assert_eq!(render_online("$ONLINES", 5, 9), "5S");
    assert_eq!(render_online("$MAXIMUM", 5, 9), "9IMUM");
    assert_eq!(render_online("$$MAX", 5, 9), "$9");
    assert_eq!(render_online("$$ONLINE", 5, 9), "$5");
}

#[test]
fn what_only_looks_like_a_placeholder_stays() {
    assert_eq!(render_online("$online $max", 5, 9), "$online $max");
    assert_eq!(render_online("$ONLIN $MA", 5, 9), "$ONLIN $MA");
    assert_eq!(render_online("ONLINE MAX $", 5, 9), "ONLINE MAX $");
    assert_eq!(render_online("$ ONLINE", 5, 9), "$ ONLINE");
}

#[test]
fn a_count_put_in_is_not_read_as_a_placeholder() {
    assert_eq!(render_online("$$ONLINEMAX", 5, 9), "$5MAX");
    assert_eq!(render_online("$M$ONLINEAX", 5, 9), "$M5AX");
}

#[test]
fn text_of_more_than_one_byte_stays_in_place() {
    assert_eq!(render_online("🟢 $ONLINE/$MAX spielen", 7, 30), "🟢 7/30 spielen");
}

#[test]
fn largest_counts_are_written_in_full() {
    assert_eq!(
        render_online("$ONLINE/$MAX", u32::MAX, u32::MAX),
        "4294967295/4294967295"
    );
}

#[test]
fn name_is_at_most_five_halves_of_the_template() {
    let templates = ["$MAX", "$MAX$MAX$MAX", "$ONLINE", "$ONLINE/$MAX", "a$MAXb", "plain", ""];
    for template in templates {
        let name = render_online(template, u32::MAX, u32::MAX);
        assert!(2 * name.chars().count() <= 5 * template.chars().count());
    }
    assert_eq!(render_online("$MAX", 0, u32::MAX).chars().count(), 10);
}

#[test]
fn render_agrees_with_two_standard_replacements() {
    let templates = [
        "",
        "Players: $ONLINE/$MAX",
        "$ONLINE/$MAX online",
        "$MAX$ONLINE$MAX",
        "$$ONLINE$MAX$",
        "$ONLINE$ONLINE",
        "$$ONLINEMAX",
        "$M$ONLINEAX",
        "$MA$ONLINEX",
        "$O$MAXNLINE",
        "$ONLINEMAX $MAXONLINE",
        "no placeholder",
        "🟢 $ONLINE von $MAX",
        "$",
        "$$$",
    ];
    let counts = [0u32, 1, 9, 10, 57, 100, 65535, u32::MAX];
    for template in templates {
        for online in counts {
            for max in counts {
                let expected = template
                    .replace("$ONLINE", &online.to_string())
                    .replace("$MAX", &max.to_string());
                assert_eq!(render_online(template, online, max), expected);
            }
        }
    }
}

#[test]
fn reachable_server_shows_the_online_template() {
    let texts = templates("Players: $ONLINE/$MAX", "Server offline");
    assert_eq!(display_name(&reachable(3, 20), &texts), "Players: 3/20");
}

#[test]
fn unreachable_server_shows_the_offline_text() {
    let texts = templates("Players: $ONLINE/$MAX", "Server offline");
    assert_eq!(display_name(&unreachable("connection refused"), &texts), "Server offline");
}

#[test]
fn offline_text_does_not_depend_on_the_reason() {
    let texts = templates("$ONLINE/$MAX", "Server offline");
    for reason in ["", "connection refused", "the query timed out", "$ONLINE", "Server online"] {
        assert_eq!(display_name(&unreachable(reason), &texts), "Server offline");
    }
}

#[test]
fn offline_text_is_not_a_template() {
    let texts = templates("$ONLINE/$MAX", "offline ($ONLINE/$MAX)");
    assert_eq!(display_name(&unreachable("refused"), &texts), "offline ($ONLINE/$MAX)");
    let empty = templates("$ONLINE/$MAX", "");
    assert_eq!(display_name(&unreachable("refused"), &empty), "");
}

#[test]
fn templates_are_left_as_they_were() {
    let texts = templates("Players: $ONLINE/$MAX", "Server offline");
    let before = texts.clone();
    let _ = display_name(&reachable(1, 2), &texts);
    let _ = display_name(&unreachable("x"), &texts);
    assert_eq!(texts, before);
}
