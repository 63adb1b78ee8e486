//! Transient notification windows: what each one looks like, the address
//! of its content and the label under which it can be closed again.

use vstd::prelude::*;
use vstd::string::*;
use vstd::utf8::*;

use crate::effect::Effect;
use crate::text::{decimal, law_decimal_is_injective, to_decimal};

verus! {

/// Width of a notification window, in logical pixels.
pub const NOTIFICATION_WIDTH: u32 = 320;

/// Height of a notification window, in logical pixels.
pub const NOTIFICATION_HEIGHT: u32 = 100;

/// Gap kept between a notification window and the right and bottom edges
/// of the screen, in logical pixels.
pub const NOTIFICATION_MARGIN: u32 = 20;

/// Further gap kept at the bottom of the screen for a taskbar, in logical
/// pixels.
pub const TASKBAR_RESERVE: u32 = 50;

/// Whether a byte stands for itself in a percent-encoded text: ASCII
/// letters and digits, `-`, `.`, `_` and `~`.
pub open spec fn is_unreserved(byte: u8) -> bool {
    ||| 0x30 <= byte <= 0x39
    ||| 0x41 <= byte <= 0x5A
    ||| 0x61 <= byte <= 0x7A
    ||| byte == 0x2D
    ||| byte == 0x2E
    ||| byte == 0x5F
    ||| byte == 0x7E
}

/// The upper-case hexadecimal digit for a value below sixteen.
pub open spec fn hex_digit(value: u8) -> char
    recommends
        value < 16,
{
    if value < 10 {
        (0x30 + value) as char
    } else {
        (0x37 + value) as char
    }
}

/// One byte, percent-encoded: itself where it is unreserved, else `%` and
/// its two hexadecimal digits.
pub open spec fn percent_encoded_byte(byte: u8) -> Seq<char> {
    if is_unreserved(byte) {
        seq![byte as char]
    } else {
        seq!['%', hex_digit(byte / 16), hex_digit(byte % 16)]
    }
}

/// A byte string, percent-encoded byte by byte.
pub open spec fn percent_encoded_bytes(bytes: Seq<u8>) -> Seq<char>
    decreases bytes.len(),
{
    if bytes.len() == 0 {
        Seq::empty()
    } else {
        percent_encoded_bytes(bytes.drop_last()) + percent_encoded_byte(bytes.last())
    }
}

/// A text, percent-encoded over its UTF-8 bytes.
pub open spec fn percent_encoded(text: Seq<char>) -> Seq<char> {
    percent_encoded_bytes(encode_utf8(text))
}

/// The address of a notification's content: the page and the three
/// parameters, each percent-encoded.
pub open spec fn notification_url_of(
    title: Seq<char>,
    body: Seq<char>,
    kind: Seq<char>,
) -> Seq<char> {
    url_of_encoded(percent_encoded(title), percent_encoded(body), percent_encoded(kind))
}

/// The address of a notification's content, given its three parameters in
/// encoded form.
pub open spec fn url_of_encoded(title: Seq<char>, body: Seq<char>, kind: Seq<char>) -> Seq<char> {
    "/notification.html?title="@ + title + "&body="@ + body + "&type="@ + kind
}

/// The label of the notification window made at the given instant.
pub open spec fn notification_label_of(millis: nat) -> Seq<char> {
    "notification-"@ + decimal(millis)
}

/// Whether a character can occur in a percent-encoded text: `%` or an
/// unreserved ASCII character (the hexadecimal digits are among them).
pub open spec fn is_encoded_char(c: char) -> bool {
    c == '%' || (c as u32 <= 0x7F && is_unreserved(c as u8))
}

/// Every character of an encoded byte string is `%` or unreserved.
proof fn lemma_encoded_bytes_chars(bytes: Seq<u8>)
    ensures
        forall|i: int|
            0 <= i < percent_encoded_bytes(bytes).len() ==> is_encoded_char(
                #[trigger] percent_encoded_bytes(bytes)[i],
            ),
    decreases bytes.len(),
{
    if bytes.len() > 0 {
        lemma_encoded_bytes_chars(bytes.drop_last());
        let front = percent_encoded_bytes(bytes.drop_last());
        let back = percent_encoded_byte(bytes.last());
        assert forall|i: int| 0 <= i < back.len() implies is_encoded_char(#[trigger] back[i]) by {
            let byte = bytes.last();
            if !is_unreserved(byte) {
                assert(byte / 16 < 16 && byte % 16 < 16);
            }
        }
        assert forall|i: int| 0 <= i < (front + back).len() implies is_encoded_char(
            #[trigger] (front + back)[i],
        ) by {
            if i >= front.len() {
                assert((front + back)[i] == back[i - front.len()]);
            }
        }
    }
}

/// An encoded parameter holds none of the characters that delimit the
/// parts of the content address, so the three parameters of an address can
/// always be told apart.
pub proof fn law_encoded_parameter_holds_no_delimiter(text: Seq<char>)
    ensures
        forall|i: int|
            0 <= i < percent_encoded(text).len() ==> {
                let c = #[trigger] percent_encoded(text)[i];
                &&& is_encoded_char(c)
                &&& c != '&'
                &&& c != '='
                &&& c != '?'
                &&& c != '#'
                &&& c != '/'
            },
{
    lemma_encoded_bytes_chars(encode_utf8(text));
}

/// Notifications raised at different instants carry different labels.
pub proof fn law_labels_differ_by_instant(a: nat, b: nat)
    requires
        notification_label_of(a) == notification_label_of(b),
    ensures
        a == b,
{
    let prefix = "notification-"@;
    assert(decimal(a) =~= (prefix + decimal(a)).subrange(
        prefix.len() as int,
        (prefix + decimal(a)).len() as int,
    ));
    assert(decimal(b) =~= (prefix + decimal(b)).subrange(
        prefix.len() as int,
        (prefix + decimal(b)).len() as int,
    ));
    law_decimal_is_injective(a, b);
}

/// Percent-encodes a text with `urlencoding::encode`.
///
/// Trusted: the result is the text's UTF-8 bytes in order, each unreserved
/// byte (ASCII letter or digit, `-`, `.`, `_`, `~`) as itself and every
/// other byte as `%` followed by its two upper-case hexadecimal digits.
#[verifier::external_body]
fn percent_encode(text: &str) -> (encoded: String)
    ensures
        encoded@ == percent_encoded(text@),
{
    urlencoding::encode(text).into_owned()
}

/// Puts the content address together from parameters that are encoded
/// already.
pub fn assemble_url(title: &str, body: &str, kind: &str) -> (url: String)
    ensures
        url@ == url_of_encoded(title@, body@, kind@),
{
    String::from_str("/notification.html?title=").concat(title).concat("&body=").concat(
        body,
    ).concat("&type=").concat(kind)
}

/// The address of the content of a notification with the given title, body
/// and kind.
pub fn notification_url(title: &str, body: &str, kind: &str) -> (url: String)
    ensures
        url@ == notification_url_of(title@, body@, kind@),
{
    let title = percent_encode(title);
    let body = percent_encode(body);
    let kind = percent_encode(kind);
    assemble_url(title.as_str(), body.as_str(), kind.as_str())
}

/// The label of the notification window made `millis` milliseconds after
/// the epoch.
pub fn notification_label(millis: u128) -> (label: String)
    ensures
        label@ == notification_label_of(millis as nat),
{
    let digits = to_decimal(millis);
    String::from_str("notification-").concat(digits.as_str())
}

/// Everything the host needs to open one notification window, but for its
/// place on the screen.
#[derive(Debug)]
pub struct NotificationWindow {
    /// The name under which the window is found again.
    pub label: String,
    /// The address of the content.
    pub url: String,
    /// The window title.
    pub title: String,
    /// Inner width in logical pixels.
    pub width: u32,
    /// Inner height in logical pixels.
    pub height: u32,
    pub resizable: bool,
    pub decorations: bool,
    pub always_on_top: bool,
    pub skip_taskbar: bool,
    pub focused: bool,
}

/// Describes the window for a notification raised `millis` milliseconds
/// after the epoch: labelled by that instant, showing the encoded
/// parameters, of the fixed size, borderless, not resizable, above the
/// other windows, absent from the taskbar and without focus.
pub fn show_notification(title: &str, body: &str, kind: &str, millis: u128) -> (window:
    NotificationWindow)
    ensures
        window.label@ == notification_label_of(millis as nat),
        window.url@ == notification_url_of(title@, body@, kind@),
        window.title@ == "Entropy Notification"@,
        window.width == NOTIFICATION_WIDTH,
        window.height == NOTIFICATION_HEIGHT,
        !window.resizable,
        !window.decorations,
        window.always_on_top,
        window.skip_taskbar,
        !window.focused,
{
    NotificationWindow {
        label: notification_label(millis),
        url: notification_url(title, body, kind),
        title: String::from_str("Entropy Notification"),
        width: NOTIFICATION_WIDTH,
        height: NOTIFICATION_HEIGHT,
        resizable: false,
        decorations: false,
        always_on_top: true,
        skip_taskbar: true,
        focused: false,
    }
}

/// Closes a notification window, given whether the host still has a window
/// under that label: one effect that closes it, or nothing at all where it
/// is gone already.
pub fn close_notification(found: bool) -> (effects: Vec<Effect>)
    ensures
        effects@ == if found {
            seq![Effect::Close]
        } else {
            Seq::<Effect>::empty()
        },
{
    let mut effects: Vec<Effect> = Vec::new();
    if found {
        effects.push(Effect::Close);
    }
    effects
}

} // verus!
