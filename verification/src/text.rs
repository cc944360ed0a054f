//! Text rules: the byte length of a string, decimal rendering of an id, the
//! stored form of a notification preference, and the channel-alias format.

use vstd::prelude::*;
use vstd::utf8::{encode_utf8, is_ascii_chars, is_ascii_chars_encode_utf8};
use crate::state::MAX_NOTIF_SETTINGS_LENGTH;

verus! {

/// Exact byte length required of a channel alias.
pub const CHANNEL_ALIAS_LENGTH: usize = 42;

/// Length of a text in bytes, as stored: the length of its UTF-8 encoding.
pub open spec fn byte_len(text: Seq<char>) -> nat {
    encode_utf8(text).len()
}

/// The character for a single decimal digit.
pub open spec fn digit_char(d: nat) -> char
    recommends
        d < 10,
{
    if d == 0 {
        '0'
    } else if d == 1 {
        '1'
    } else if d == 2 {
        '2'
    } else if d == 3 {
        '3'
    } else if d == 4 {
        '4'
    } else if d == 5 {
        '5'
    } else if d == 6 {
        '6'
    } else if d == 7 {
        '7'
    } else if d == 8 {
        '8'
    } else {
        '9'
    }
}

/// Decimal rendering of a number: most significant digit first, no leading
/// zeros, and `"0"` for zero.
pub open spec fn decimal_digits(n: nat) -> Seq<char>
    decreases n,
{
    if n < 10 {
        seq![digit_char(n)]
    } else {
        decimal_digits(n / 10).push(digit_char(n % 10))
    }
}

/// The stored form of a preference: the id in decimal, a plus sign, then the
/// caller's text unchanged.
pub open spec fn notif_settings_text(notif_id: u64, settings: Seq<char>) -> Seq<char> {
    decimal_digits(notif_id as nat) + seq!['+'] + settings
}

/// Whether a settings text is short enough to store.
pub open spec fn settings_fit(settings: Seq<char>) -> bool {
    byte_len(settings) <= MAX_NOTIF_SETTINGS_LENGTH
}

/// The channel-alias format: exactly 42 bytes, the first two characters
/// being `0x`.
pub open spec fn is_channel_alias(address: Seq<char>) -> bool {
    &&& byte_len(address) == CHANNEL_ALIAS_LENGTH
    &&& address.len() >= 2
    &&& address[0] == '0'
    &&& address[1] == 'x'
}

/// An ASCII text is as long in bytes as it is in characters, so for ASCII
/// text both rules count characters.
pub proof fn lemma_ascii_byte_len(text: Seq<char>)
    requires
        is_ascii_chars(text),
    ensures
        byte_len(text) == text.len(),
        settings_fit(text) <==> text.len() <= 100,
        is_channel_alias(text) <==> text.len() == 42 && text[0] == '0' && text[1] == 'x',
{
    is_ascii_chars_encode_utf8(text);
}

fn digit_str(d: u64) -> (r: &'static str)
    requires
        d < 10,
    ensures
        r@ == seq![digit_char(d as nat)],
{
    proof {
        reveal_strlit("0");
        reveal_strlit("1");
        reveal_strlit("2");
        reveal_strlit("3");
        reveal_strlit("4");
        reveal_strlit("5");
        reveal_strlit("6");
        reveal_strlit("7");
        reveal_strlit("8");
        reveal_strlit("9");
    }
    let r = if d == 0 {
        "0"
    } else if d == 1 {
        "1"
    } else if d == 2 {
        "2"
    } else if d == 3 {
        "3"
    } else if d == 4 {
        "4"
    } else if d == 5 {
        "5"
    } else if d == 6 {
        "6"
    } else if d == 7 {
        "7"
    } else if d == 8 {
        "8"
    } else {
        "9"
    };
    assert(r@ =~= seq![digit_char(d as nat)]);
    r
}

/// Renders a number in decimal.
pub fn decimal_string(n: u64) -> (r: String)
    ensures
        r@ == decimal_digits(n as nat),
{
    let mut rest: u64 = n / 10;
    let mut out = String::from_str(digit_str(n % 10));
    while rest > 0
        invariant
            decimal_digits(n as nat) == (if rest > 0 {
                decimal_digits(rest as nat)
            } else {
                Seq::<char>::empty()
            }) + out@,
        decreases rest,
    {
        let ghost before = out@;
        out = String::from_str(digit_str(rest % 10)).concat(out.as_str());
        assert(out@ == seq![digit_char((rest % 10) as nat)] + before);
        proof {
            if rest >= 10 {
                assert(decimal_digits(rest as nat) == decimal_digits((rest / 10) as nat).push(
                    digit_char((rest % 10) as nat),
                ));
                assert(decimal_digits((rest / 10) as nat).push(digit_char((rest % 10) as nat))
                    + before =~= decimal_digits((rest / 10) as nat) + out@);
            } else {
                assert(decimal_digits(rest as nat) + before =~= Seq::<char>::empty() + out@);
            }
        }
        rest = rest / 10;
    }
    assert(Seq::<char>::empty() + out@ =~= out@);
    out
}

/// Builds the stored form of a preference.
pub fn compose_notif_settings(notif_id: u64, settings: &str) -> (r: String)
    ensures
        r@ == notif_settings_text(notif_id, settings@),
{
    let mut out = decimal_string(notif_id);
    proof {
        reveal_strlit("+");
    }
    out.append("+");
    assert(out@ =~= decimal_digits(notif_id as nat) + seq!['+']);
    out.append(settings);
    out
}

/// Tests a settings text against the length bound.
pub fn check_settings_fit(settings: &str) -> (r: bool)
    ensures
        r == settings_fit(settings@),
{
    settings.as_bytes().len() <= MAX_NOTIF_SETTINGS_LENGTH
}

/// Tests an address against the channel-alias format.
pub fn check_channel_alias(address: &str) -> (r: bool)
    ensures
        r == is_channel_alias(address@),
{
    if address.as_bytes().len() != CHANNEL_ALIAS_LENGTH {
        return false;
    }
    if address.unicode_len() < 2 {
        return false;
    }
    address.get_char(0) == '0' && address.get_char(1) == 'x'
}

} // verus!
