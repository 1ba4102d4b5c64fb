//! Wire frames: the transmission-ready text forms of a published item,
//! of a lag notification, and of a heartbeat, in server-sent-event style.

use vstd::prelude::*;
use vstd::string::StringExecFns;

verus! {

/// The text of a heartbeat frame: a comment-style line with no payload,
/// terminated by a blank line.
pub open spec fn heartbeat_view() -> Seq<char> {
    ": keep-alive\n\n"@
}

/// The text of a data frame carrying `body`: a `data:` line terminated by
/// a blank line.
pub open spec fn data_frame_view(body: Seq<char>) -> Seq<char> {
    "data: "@ + body + "\n\n"@
}

/// The text of a lag-notification frame telling a subscriber it missed
/// `n` frames.
pub open spec fn lag_frame_view(n: nat) -> Seq<char> {
    "event: warn\ndata: {\"lagged\": "@ + decimal_view(n) + "}\n\n"@
}

/// The character for one decimal digit.
pub open spec fn digit_char(d: nat) -> char {
    if d == 0 {
        '0'
    } else if d == 1 {
        '1'
    } else if d == 2 {
        '2'
    } else if d == 3 {
        '3'
    } else if d == 4 {
        '4'
    } else if d == 5 {
        '5'
    } else if d == 6 {
        '6'
    } else if d == 7 {
        '7'
    } else if d == 8 {
        '8'
    } else {
        '9'
    }
}

/// The usual decimal rendering of `n`, most significant digit first, with
/// no leading zeroes (except for `n == 0` itself).
pub open spec fn decimal_view(n: nat) -> Seq<char>
    decreases n,
{
    if n < 10 {
        seq![digit_char(n)]
    } else {
        decimal_view(n / 10).push(digit_char(n % 10))
    }
}

fn append_digit(out: &mut String, d: u64)
    requires
        d < 10,
    ensures
        final(out)@ == old(out)@.push(digit_char(d as nat)),
{
    if d == 0 {
        proof { reveal_strlit("0"); }
        out.append("0");
    } else if d == 1 {
        proof { reveal_strlit("1"); }
        out.append("1");
    } else if d == 2 {
        proof { reveal_strlit("2"); }
        out.append("2");
    } else if d == 3 {
        proof { reveal_strlit("3"); }
        out.append("3");
    } else if d == 4 {
        proof { reveal_strlit("4"); }
        out.append("4");
    } else if d == 5 {
        proof { reveal_strlit("5"); }
        out.append("5");
    } else if d == 6 {
        proof { reveal_strlit("6"); }
        out.append("6");
    } else if d == 7 {
        proof { reveal_strlit("7"); }
        out.append("7");
    } else if d == 8 {
        proof { reveal_strlit("8"); }
        out.append("8");
    } else {
        proof { reveal_strlit("9"); }
        out.append("9");
    }
    assert(final(out)@ =~= old(out)@.push(digit_char(d as nat)));
}

fn append_decimal(out: &mut String, n: u64)
    ensures
        final(out)@ == old(out)@ + decimal_view(n as nat),
    decreases n,
{
    if n >= 10 {
        append_decimal(out, n / 10);
    }
    append_digit(out, n % 10);
    assert(final(out)@ =~= old(out)@ + decimal_view(n as nat));
}

/// Builds the heartbeat frame.
pub fn heartbeat_frame() -> (r: String)
    ensures
        r@ == heartbeat_view(),
{
    String::from_str(": keep-alive\n\n")
}

/// Builds the data frame that carries `body` to a subscriber.
pub fn data_frame(body: &str) -> (r: String)
    ensures
        r@ == data_frame_view(body@),
{
    let mut r = String::from_str("data: ");
    r.append(body);
    r.append("\n\n");
    r
}

/// Builds the lag-notification frame that tells a subscriber it missed
/// `n` frames.
pub fn lag_frame(n: u64) -> (r: String)
    ensures
        r@ == lag_frame_view(n as nat),
{
    let mut r = String::from_str("event: warn\ndata: {\"lagged\": ");
    append_decimal(&mut r, n);
    r.append("}\n\n");
    r
}

} // verus!
