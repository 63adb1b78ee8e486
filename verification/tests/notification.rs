use entropy_shell::effect::Effect;
use entropy_shell::notification::{
    assemble_url, close_notification, notification_label, notification_url, show_notification,
    NOTIFICATION_HEIGHT, NOTIFICATION_MARGIN, NOTIFICATION_WIDTH, TASKBAR_RESERVE,
};
use entropy_shell::text::to_decimal;

#[test]
fn decimal_of_small_numbers() {
    assert_eq!(to_decimal(0), "0");
    assert_eq!(to_decimal(7), "7");
    assert_eq!(to_decimal(9), "9");
    assert_eq!(to_decimal(10), "10");
    assert_eq!(to_decimal(101), "101");
    assert_eq!(to_decimal(12345), "12345");
    assert_eq!(to_decimal(1234567890), "1234567890");
}

#[test]
fn decimal_of_the_largest_number() {
    assert_eq!(to_decimal(u128::MAX), "340282366920938463463374607431768211455");
    assert_eq!(to_decimal(u128::MAX), format!("{}", u128::MAX));
}

#[test]
fn decimal_agrees_with_std_on_powers_of_ten() {
    let mut n: u128 = 1;
    for _ in 0..38 {
        assert_eq!(to_decimal(n), format!("{}", n));
        assert_eq!(to_decimal(n - 1), format!("{}", n - 1));
        n *= 10;
    }
}

#[test]
fn label_is_prefix_and_milliseconds() {
    assert_eq!(notification_label(0), "notification-0");
    assert_eq!(notification_label(1700000000123), "notification-1700000000123");
}

#[test]
fn url_of_plain_parameters() {
    assert_eq!(
        notification_url("Done", "ok", "info"),
        "/notification.html?title=Done&body=ok&type=info"
    );
}

#[test]
fn url_keeps_unreserved_characters() {
    assert_eq!(
        notification_url("AZaz09", "-._~", ""),
        "/notification.html?title=AZaz09&body=-._~&type="
    );
}

#[test]
fn url_encodes_reserved_characters() {
    assert_eq!(
        notification_url("Hello World", "a&b=c?d/e", "warn%"),
        "/notification.html?title=Hello%20World&body=a%26b%3Dc%3Fd%2Fe&type=warn%25"
    );
}

#[test]
fn url_encodes_the_bytes_of_wide_characters() {
    assert_eq!(
        notification_url("\u{1F47E} Exterminate!", "\u{e9}", "\u{7f6e}"),
        "/notification.html?title=%F0%9F%91%BE%20Exterminate%21&body=%C3%A9&type=%E7%BD%AE"
    );
}

#[test]
fn url_encodes_control_and_edge_bytes() {
    assert_eq!(
        notification_url("\u{0}\n\u{7f}", "/:@[`{", "+ "),
        "/notification.html?title=%00%0A%7F&body=%2F%3A%40%5B%60%7B&type=%2B%20"
    );
}

#[test]
fn assembled_url_takes_parameters_as_they_are() {
    assert_eq!(
        assemble_url("a%20b", "", "x"),
        "/notification.html?title=a%20b&body=&type=x"
    );
}

#[test]
fn notification_window_is_fixed_but_for_label_and_url() {
    let window = show_notification("Build", "finished: 100%", "success", 42);
    assert_eq!(window.label, "notification-42");
    assert_eq!(window.url, "/notification.html?title=Build&body=finished%3A%20100%25&type=success");
    assert_eq!(window.title, "Entropy Notification");
    assert_eq!(window.width, 320);
    assert_eq!(window.height, 100);
    assert!(!window.resizable);
    assert!(!window.decorations);
    assert!(window.always_on_top);
    assert!(window.skip_taskbar);
    assert!(!window.focused);
}

#[test]
fn notification_measures() {
    assert_eq!(NOTIFICATION_WIDTH, 320);
    assert_eq!(NOTIFICATION_HEIGHT, 100);
    assert_eq!(NOTIFICATION_MARGIN, 20);
    assert_eq!(TASKBAR_RESERVE, 50);
}

#[test]
fn closing_a_present_notification_closes_it() {
    assert_eq!(close_notification(true), vec![Effect::Close]);
}

#[test]
fn closing_an_unknown_notification_does_nothing() {
    assert_eq!(close_notification(false), Vec::<Effect>::new());
    assert_eq!(close_notification(false), Vec::<Effect>::new());
}

#[test]
fn labels_of_different_instants_differ() {
    let instants: [u128; 7] = [0, 1, 9, 10, 11, 100, 1700000000123];
    for a in instants {
        for b in instants {
            assert_eq!(notification_label(a) == notification_label(b), a == b);
        }
    }
}

#[test]
fn encoded_parameters_hold_no_delimiter() {
    let url = notification_url("a&b=c", "?x#y/z", "&type=error");
    let query = &url["/notification.html?".len()..];
    let parts: Vec<&str> = query.split('&').collect();
    assert_eq!(parts, vec!["title=a%26b%3Dc", "body=%3Fx%23y%2Fz", "type=%26type%3Derror"]);
}

#[test]
fn every_byte_is_kept_or_escaped_in_upper_case() {
    for byte in 0u8..128 {
        let text = String::from_utf8(vec![byte]).unwrap();
        let url = notification_url(&text, "", "");
        let kept = byte.is_ascii_alphanumeric() || b"-._~".contains(&byte);
        let encoded = if kept { text.clone() } else { format!("%{:02X}", byte) };
        assert_eq!(url, format!("/notification.html?title={}&body=&type=", encoded));
    }
}
