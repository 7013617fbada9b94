//! The alert notification.
//!
//! One alert is a fixed, structured document: a headline section, a divider,
//! and a reason section carrying a button.  [`render_alert`] serializes it to
//! the JSON text that is POSTed to the webhook, escaping the embedded texts;
//! the rendered text is pinned character for character by [`alert_body_text`].
//! The webhook's HTTP response is interpreted by [`interpret_status`]: status
//! 200 acknowledges the alert, any other status rejects it (which is observed
//! and logged, never a process failure).  A transport failure on the way to
//! the webhook is the caller's to detect; it is represented here as
//! [`NotifyError::TransportFailure`].

use vstd::prelude::*;
use vstd::string::StrSliceExecFns;
use vstd::string::StringExecFns;

verus! {

/// The content of one alert notification.
#[derive(Debug, Clone, PartialEq, Eq)]
pub struct AlertPayload {
    /// The headline of the first section.
    pub headline: String,
    /// The text of the reason section.
    pub reason: String,
    /// The label on the button attached to the reason section.
    pub button_label: String,
    /// The value the button submits.
    pub button_value: String,
}

/// The outcome of one webhook delivery.
#[derive(Debug, Clone, Copy, PartialEq, Eq, Structural)]
pub enum DeliveryResult {
    /// The webhook answered with HTTP 200.
    Acknowledged,
    /// The webhook answered with any other status, carried here.
    Rejected(u16),
}

/// Why a delivery produced no HTTP response at all.
#[derive(Debug, Clone, Copy, PartialEq, Eq, Structural)]
pub enum NotifyError {
    /// The request never completed: a network or transport failure.
    TransportFailure,
}

/// The hexadecimal digit for a value below 16.
pub open spec fn hex_digit(d: u32) -> char {
    if d == 0 {
        '0'
    } else if d == 1 {
        '1'
    } else if d == 2 {
        '2'
    } else if d == 3 {
        '3'
    } else if d == 4 {
        '4'
    } else if d == 5 {
        '5'
    } else if d == 6 {
        '6'
    } else if d == 7 {
        '7'
    } else if d == 8 {
        '8'
    } else if d == 9 {
        '9'
    } else if d == 10 {
        'a'
    } else if d == 11 {
        'b'
    } else if d == 12 {
        'c'
    } else if d == 13 {
        'd'
    } else if d == 14 {
        'e'
    } else {
        'f'
    }
}

/// How one character appears inside a JSON string literal: quote, backslash
/// and the common control characters get a two-character escape, any other
/// control character a `\u00XX` escape, everything else stands as itself.
pub open spec fn esc_char(c: char) -> Seq<char> {
    if c == '"' {
        seq!['\\', '"']
    } else if c == '\\' {
        seq!['\\', '\\']
    } else if c == '\n' {
        seq!['\\', 'n']
    } else if c == '\r' {
        seq!['\\', 'r']
    } else if c == '\t' {
        seq!['\\', 't']
    } else if (c as u32) < 32 {
        seq!['\\', 'u', '0', '0', hex_digit((c as u32) / 16), hex_digit((c as u32) % 16)]
    } else {
        seq![c]
    }
}

/// A text escaped for use inside a JSON string literal.
pub open spec fn json_escaped(s: Seq<char>) -> Seq<char>
    decreases s.len(),
{
    if s.len() == 0 {
        Seq::empty()
    } else {
        json_escaped(s.drop_last()) + esc_char(s.last())
    }
}

/// The complete JSON body of one alert: a `blocks` message holding the
/// headline section, a divider, and the reason section with its button.
pub open spec fn alert_body_text(p: AlertPayload) -> Seq<char> {
    "{\"blocks\":[{\"type\":\"section\",\"text\":{\"type\":\"mrkdwn\",\"text\":\""@ + json_escaped(
        p.headline@,
    ) + "\"}},{\"type\":\"divider\"},{\"type\":\"section\",\"text\":{\"type\":\"mrkdwn\",\"text\":\""@
        + json_escaped(p.reason@)
        + "\"},\"accessory\":{\"type\":\"button\",\"text\":{\"type\":\"plain_text\",\"emoji\":true,\"text\":\""@
        + json_escaped(p.button_label@) + "\"},\"value\":\""@ + json_escaped(p.button_value@)
        + "\"}}]}"@
}

/// Relies on `String::push`: appends the given character to the end of the
/// string.
#[verifier::external_body]
fn push_char(s: &mut String, c: char)
    ensures
        final(s)@ == old(s)@.push(c),
{
    s.push(c);
}

/// The hexadecimal digit for a value below 16.
fn hex_digit_char(d: u32) -> (r: char)
    requires
        d < 16,
    ensures
        r == hex_digit(d),
{
    if d == 0 {
        '0'
    } else if d == 1 {
        '1'
    } else if d == 2 {
        '2'
    } else if d == 3 {
        '3'
    } else if d == 4 {
        '4'
    } else if d == 5 {
        '5'
    } else if d == 6 {
        '6'
    } else if d == 7 {
        '7'
    } else if d == 8 {
        '8'
    } else if d == 9 {
        '9'
    } else if d == 10 {
        'a'
    } else if d == 11 {
        'b'
    } else if d == 12 {
        'c'
    } else if d == 13 {
        'd'
    } else if d == 14 {
        'e'
    } else {
        'f'
    }
}

/// Append the JSON-escaped form of `s` to `out`.
fn escape_into(out: &mut String, s: &str)
    ensures
        final(out)@ == old(out)@ + json_escaped(s@),
{
    let n = s.unicode_len();
    let mut i: usize = 0;
    proof {
        assert(s@.take(0) =~= Seq::<char>::empty());
        assert(old(out)@ + Seq::<char>::empty() =~= old(out)@);
    }
    while i < n
        invariant
            n == s@.len(),
            i <= n,
            out@ == old(out)@ + json_escaped(s@.take(i as int)),
        decreases n - i,
    {
        let c = s.get_char(i);
        let ghost prefix = out@;
        if c == '"' {
            out.append("\\\"");
            proof {
                reveal_strlit("\\\"");
                assert(("\\\"")@ =~= esc_char(c));
            }
        } else if c == '\\' {
            out.append("\\\\");
            proof {
                reveal_strlit("\\\\");
                assert(("\\\\")@ =~= esc_char(c));
            }
        } else if c == '\n' {
            out.append("\\n");
            proof {
                reveal_strlit("\\n");
                assert(("\\n")@ =~= esc_char(c));
            }
        } else if c == '\r' {
            out.append("\\r");
            proof {
                reveal_strlit("\\r");
                assert(("\\r")@ =~= esc_char(c));
            }
        } else if c == '\t' {
            out.append("\\t");
            proof {
                reveal_strlit("\\t");
                assert(("\\t")@ =~= esc_char(c));
            }
        } else if (c as u32) < 32 {
            out.append("\\u00");
            let hi = hex_digit_char((c as u32) / 16);
            push_char(out, hi);
            let lo = hex_digit_char((c as u32) % 16);
            push_char(out, lo);
            proof {
                reveal_strlit("\\u00");
                assert(out@ =~= prefix + esc_char(c));
            }
        } else {
            push_char(out, c);
            proof {
                assert(out@ =~= prefix + esc_char(c));
            }
        }
        proof {
            assert(s@.take(i as int + 1).drop_last() =~= s@.take(i as int));
            assert(s@.take(i as int + 1).last() == s@[i as int]);
            assert(out@ =~= old(out)@ + json_escaped(s@.take(i as int + 1)));
        }
        i += 1;
    }
    proof {
        assert(s@.take(n as int) =~= s@);
    }
}

/// Render one alert as the JSON text to POST to the webhook.
pub fn render_alert(p: &AlertPayload) -> (r: String)
    ensures
        r@ == alert_body_text(*p),
{
    let mut out = String::new();
    out.append(
        "{\"blocks\":[{\"type\":\"section\",\"text\":{\"type\":\"mrkdwn\",\"text\":\"",
    );
    escape_into(&mut out, p.headline.as_str());
    out.append(
        "\"}},{\"type\":\"divider\"},{\"type\":\"section\",\"text\":{\"type\":\"mrkdwn\",\"text\":\"",
    );
    escape_into(&mut out, p.reason.as_str());
    out.append(
        "\"},\"accessory\":{\"type\":\"button\",\"text\":{\"type\":\"plain_text\",\"emoji\":true,\"text\":\"",
    );
    escape_into(&mut out, p.button_label.as_str());
    out.append("\"},\"value\":\"");
    escape_into(&mut out, p.button_value.as_str());
    out.append("\"}}]}");
    proof {
        assert(out@ =~= alert_body_text(*p));
    }
    out
}

/// The alert this bridge sends: the fixed content of the current design.
pub fn standard_alert() -> (p: AlertPayload)
    ensures
        p.headline@ == "*Foo Failed*"@,
        p.reason@ == ">Reason: the fleem is flocked"@,
        p.button_label@ == "Handle"@,
        p.button_value@ == "handled something"@,
{
    AlertPayload {
        headline: "*Foo Failed*".to_owned(),
        reason: ">Reason: the fleem is flocked".to_owned(),
        button_label: "Handle".to_owned(),
        button_value: "handled something".to_owned(),
    }
}

/// What an HTTP status means for the delivery: 200 acknowledges the alert,
/// anything else rejects it, carrying the status.
pub open spec fn spec_delivery_of_status(code: u16) -> DeliveryResult {
    if code == 200 {
        DeliveryResult::Acknowledged
    } else {
        DeliveryResult::Rejected(code)
    }
}

/// Interpret the webhook's HTTP response status.
pub fn interpret_status(code: u16) -> (r: DeliveryResult)
    ensures
        r == spec_delivery_of_status(code),
{
    if code == 200 {
        DeliveryResult::Acknowledged
    } else {
        DeliveryResult::Rejected(code)
    }
}

} // verus!
