//! Activity derived from status probes, and its displayed label.

use vstd::prelude::*;
use vstd::string::StringExecFns;

verus! {

/// Outcome of one probe against a game server, reduced to plain values.
#[derive(Clone, Copy, Debug, PartialEq, Eq, Structural)]
pub enum ProbeOutcome {
    /// The server answered with its current player count and capacity.
    Online(u32, u32),
    /// The probe failed; an offline server is the common, expected cause.
    Unreachable,
}

/// The activity a worker displays, recomputed on every poll cycle and
/// pushed to the session at once; never persisted.
#[derive(Clone, Copy, Debug, PartialEq, Eq, Structural)]
pub enum ActivityStatus {
    /// Current player count and capacity.
    Playing(u32, u32),
    /// The game server did not answer the probe.
    Offline,
}

/// Probe failures are not errors: a server that does not answer is shown
/// as offline, a server that answers is shown with its live count.
pub fn activity_from_probe(outcome: &ProbeOutcome) -> (r: ActivityStatus)
    ensures
        *outcome matches ProbeOutcome::Online(players, capacity) ==> r == ActivityStatus::Playing(
            players,
            capacity,
        ),
        *outcome is Unreachable ==> r is Offline,
{
    match outcome {
        ProbeOutcome::Online(players, capacity) => ActivityStatus::Playing(*players, *capacity),
        ProbeOutcome::Unreachable => ActivityStatus::Offline,
    }
}

/// The character of one decimal digit.
pub open spec fn spec_digit(d: nat) -> char
    recommends
        d < 10,
{
    if d == 0 {
        '0'
    } else if d == 1 {
        '1'
    } else if d == 2 {
        '2'
    } else if d == 3 {
        '3'
    } else if d == 4 {
        '4'
    } else if d == 5 {
        '5'
    } else if d == 6 {
        '6'
    } else if d == 7 {
        '7'
    } else if d == 8 {
        '8'
    } else {
        '9'
    }
}

/// The decimal digits of `n`, most significant first, no leading zero
/// except for `n == 0` itself.
pub open spec fn spec_decimal(n: nat) -> Seq<char>
    decreases n,
{
    if n < 10 {
        seq![spec_digit(n)]
    } else {
        spec_decimal(n / 10).push(spec_digit(n % 10))
    }
}

/// The label pushed to the session for a computed activity.
pub open spec fn spec_label(status: ActivityStatus) -> Seq<char> {
    match status {
        ActivityStatus::Playing(players, capacity) => "Playing "@ + spec_decimal(players as nat)
            + "/"@ + spec_decimal(capacity as nat),
        ActivityStatus::Offline => "Offline"@,
    }
}

/// Appends the character of the decimal digit `d`.
fn append_digit(out: &mut String, d: u32)
    requires
        d < 10,
    ensures
        final(out)@ == old(out)@.push(spec_digit(d as nat)),
{
    let piece: &str = if d == 0 {
        "0"
    } else if d == 1 {
        "1"
    } else if d == 2 {
        "2"
    } else if d == 3 {
        "3"
    } else if d == 4 {
        "4"
    } else if d == 5 {
        "5"
    } else if d == 6 {
        "6"
    } else if d == 7 {
        "7"
    } else if d == 8 {
        "8"
    } else {
        "9"
    };
    proof {
        reveal_strlit("0");
        reveal_strlit("1");
        reveal_strlit("2");
        reveal_strlit("3");
        reveal_strlit("4");
        reveal_strlit("5");
        reveal_strlit("6");
        reveal_strlit("7");
        reveal_strlit("8");
        reveal_strlit("9");
        assert(piece@ =~= seq![spec_digit(d as nat)]);
    }
    out.append(piece);
}

/// Appends the decimal digits of `n`.
fn append_decimal(out: &mut String, n: u32)
    ensures
        final(out)@ == old(out)@ + spec_decimal(n as nat),
    decreases n,
{
    if n < 10 {
        append_digit(out, n);
        proof {
            assert(out@ =~= old(out)@ + spec_decimal(n as nat));
        }
    } else {
        assert(n / 10 < n) by (nonlinear_arith)
            requires
                10 <= n,
        ;
        append_decimal(out, n / 10);
        append_digit(out, n % 10);
        proof {
            assert(out@ =~= old(out)@ + spec_decimal(n as nat));
        }
    }
}

/// The displayed form of an activity: `Playing <count>/<capacity>`, or
/// `Offline`.
pub fn status_label(status: &ActivityStatus) -> (r: String)
    ensures
        r@ == spec_label(*status),
{
    match status {
        ActivityStatus::Playing(players, capacity) => {
            let mut out = "Playing ".to_owned();
            append_decimal(&mut out, *players);
            out.append("/");
            append_decimal(&mut out, *capacity);
            proof {
                assert(out@ =~= spec_label(*status));
            }
            out
        },
        ActivityStatus::Offline => "Offline".to_owned(),
    }
}

} // verus!
