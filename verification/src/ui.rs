use vstd::prelude::*;

use crate::lifecycle::SyncLifecycleSnapshot;
use crate::state::DesktopState;

verus! {

/// The character of a decimal digit.
pub open spec fn spec_digit_char(d: nat) -> char {
    if d == 0 {
        '0'
    } else if d == 1 {
        '1'
    } else if d == 2 {
        '2'
    } else if d == 3 {
        '3'
    } else if d == 4 {
        '4'
    } else if d == 5 {
        '5'
    } else if d == 6 {
        '6'
    } else if d == 7 {
        '7'
    } else if d == 8 {
        '8'
    } else {
        '9'
    }
}

/// The decimal digits of `n`, most significant first, without leading zeros.
pub open spec fn spec_decimal(n: nat) -> Seq<char>
    decreases n,
{
    if n < 10 {
        seq![spec_digit_char(n)]
    } else {
        spec_decimal(n / 10) + seq![spec_digit_char(n % 10)]
    }
}

pub open spec fn spec_bool_text(b: bool) -> Seq<char> {
    if b {
        "true"@
    } else {
        "false"@
    }
}

/// The native status text for a probe result.
pub open spec fn spec_render(state: DesktopState) -> Seq<char> {
    "Opto Sync desktop\nendpoint="@ + state.endpoint@ + "\nconnected="@ + spec_bool_text(
        state.connected,
    ) + "\n"@
}

/// The status text followed by the lifecycle phase and generation.
pub open spec fn spec_render_with_lifecycle(
    state: DesktopState,
    lifecycle: SyncLifecycleSnapshot,
) -> Seq<char> {
    spec_render(state) + "lifecycle="@ + crate::lifecycle::spec_phase_label(lifecycle.phase) + "\ngeneration="@
        + spec_decimal(lifecycle.generation as nat) + "\n"@
}

fn digit_text(d: u64) -> (r: &'static str)
    requires
        d < 10,
    ensures
        r@ == seq![spec_digit_char(d as nat)],
{
    if d == 0 {
        proof {
            reveal_strlit("0");
        }
        "0"
    } else if d == 1 {
        proof {
            reveal_strlit("1");
        }
        "1"
    } else if d == 2 {
        proof {
            reveal_strlit("2");
        }
        "2"
    } else if d == 3 {
        proof {
            reveal_strlit("3");
        }
        "3"
    } else if d == 4 {
        proof {
            reveal_strlit("4");
        }
        "4"
    } else if d == 5 {
        proof {
            reveal_strlit("5");
        }
        "5"
    } else if d == 6 {
        proof {
            reveal_strlit("6");
        }
        "6"
    } else if d == 7 {
        proof {
            reveal_strlit("7");
        }
        "7"
    } else if d == 8 {
        proof {
            reveal_strlit("8");
        }
        "8"
    } else {
        proof {
            reveal_strlit("9");
        }
        "9"
    }
}

/// Append the decimal digits of `n` to `out`.
fn append_decimal(out: &mut String, n: u64)
    ensures
        final(out)@ == old(out)@ + spec_decimal(n as nat),
    decreases n,
{
    if n >= 10 {
        append_decimal(out, n / 10);
    }
    out.append(digit_text(n % 10));
    proof {
        if n >= 10 {
            assert(old(out)@ + spec_decimal(n as nat) =~= old(out)@ + spec_decimal((n / 10) as nat)
                + seq![spec_digit_char((n % 10) as nat)]);
        } else {
            assert(n % 10 == n);
        }
    }
}

fn append_bool(out: &mut String, b: bool)
    ensures
        final(out)@ == old(out)@ + spec_bool_text(b),
{
    if b {
        out.append("true");
    } else {
        out.append("false");
    }
}

/// Native UI surface. Not a webview and not React.
pub fn render(state: &DesktopState) -> (r: String)
    ensures
        r@ == spec_render(*state),
{
    let mut out = String::new();
    out.append("Opto Sync desktop\nendpoint=");
    out.append(state.endpoint.as_str());
    out.append("\nconnected=");
    append_bool(&mut out, state.connected);
    out.append("\n");
    out
}

/// Render lifecycle data only from the authoritative machine snapshot.
pub fn render_with_lifecycle(state: &DesktopState, lifecycle: SyncLifecycleSnapshot) -> (r: String)
    ensures
        r@ == spec_render_with_lifecycle(*state, lifecycle),
{
    let mut out = render(state);
    out.append("lifecycle=");
    out.append(lifecycle.phase_label());
    out.append("\ngeneration=");
    append_decimal(&mut out, lifecycle.generation);
    out.append("\n");
    out
}

} // verus!
