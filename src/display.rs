//! What the dashboard shows, computed from the state: byte counts as text,
//! gauge fill ratios, the visible part of the log, and panel highlights.
use vstd::prelude::*;
use vstd::string::*;
use crate::app::ConnectionStatus;
use crate::model::DaemonMetrics;

verus! {

pub const KIB: u64 = 1024;

pub const MIB: u64 = KIB * 1024;

pub const GIB: u64 = MIB * 1024;

/// A gauge ratio of one, in ten-thousandths.
pub const RATIO_ONE: u64 = 10000;

pub open spec fn digit_char(d: nat) -> char {
    if d == 0 {
        '0'
    } else if d == 1 {
        '1'
    } else if d == 2 {
        '2'
    } else if d == 3 {
        '3'
    } else if d == 4 {
        '4'
    } else if d == 5 {
        '5'
    } else if d == 6 {
        '6'
    } else if d == 7 {
        '7'
    } else if d == 8 {
        '8'
    } else {
        '9'
    }
}

/// The decimal digits of `n`, without leading zeros.
pub open spec fn decimal(n: nat) -> Seq<char>
    decreases n,
{
    if n < 10 {
        seq![digit_char(n)]
    } else {
        decimal(n / 10) + seq![digit_char(n % 10)]
    }
}

/// `n / d` rounded to the nearest integer, ties to the even one.
pub open spec fn div_round_even(n: nat, d: nat) -> nat
    recommends
        d > 0,
{
    let q = n / d;
    let r = n % d;
    if 2 * r > d || (2 * r == d && q % 2 == 1) {
        q + 1
    } else {
        q
    }
}

/// `t` tenths written with one decimal place.
pub open spec fn one_decimal(t: nat) -> Seq<char> {
    decimal(t / 10) + seq!['.', digit_char(t % 10)]
}

/// A byte count as text: whole bytes below 1 KiB, else the largest of
/// KB, MB, GB (powers of 1024) that it reaches, to one decimal place.
pub open spec fn bytes_text(bytes: u64) -> Seq<char> {
    if bytes >= GIB {
        one_decimal(div_round_even(bytes as nat * 10, GIB as nat)) + "GB"@
    } else if bytes >= MIB {
        one_decimal(div_round_even(bytes as nat * 10, MIB as nat)) + "MB"@
    } else if bytes >= KIB {
        one_decimal(div_round_even(bytes as nat * 10, KIB as nat)) + "KB"@
    } else {
        decimal(bytes as nat) + "B"@
    }
}

fn digit_str(d: u128) -> (r: &'static str)
    requires
        d < 10,
    ensures
        r@ == seq![digit_char(d as nat)],
{
    proof {
        reveal_strlit("0");
        reveal_strlit("1");
        reveal_strlit("2");
        reveal_strlit("3");
        reveal_strlit("4");
        reveal_strlit("5");
        reveal_strlit("6");
        reveal_strlit("7");
        reveal_strlit("8");
        reveal_strlit("9");
    }
    if d == 0 {
        "0"
    } else if d == 1 {
        "1"
    } else if d == 2 {
        "2"
    } else if d == 3 {
        "3"
    } else if d == 4 {
        "4"
    } else if d == 5 {
        "5"
    } else if d == 6 {
        "6"
    } else if d == 7 {
        "7"
    } else if d == 8 {
        "8"
    } else {
        "9"
    }
}

fn push_decimal(out: &mut String, n: u128)
    ensures
        final(out)@ == old(out)@ + decimal(n as nat),
    decreases n,
{
    if n >= 10 {
        push_decimal(out, n / 10);
    }
    out.append(digit_str(n % 10));
    assert(old(out)@ + decimal(n as nat) =~= final(out)@) by {
        if n >= 10 {
            assert(old(out)@ + (decimal((n / 10) as nat) + seq![digit_char((n % 10) as nat)])
                =~= (old(out)@ + decimal((n / 10) as nat)) + seq![digit_char((n % 10) as nat)]);
        }
    }
}

/// Appends `bytes / unit` to one decimal place, rounded half to even.
fn push_scaled(out: &mut String, bytes: u64, unit: u64)
    requires
        unit > 0,
    ensures
        final(out)@ == old(out)@ + one_decimal(div_round_even(bytes as nat * 10, unit as nat)),
{
    let n: u128 = bytes as u128 * 10;
    let d: u128 = unit as u128;
    let q: u128 = n / d;
    let r: u128 = n % d;
    let t: u128 = if 2 * r > d || (2 * r == d && q % 2 == 1) {
        q + 1
    } else {
        q
    };
    assert(t == div_round_even(bytes as nat * 10, unit as nat));
    push_decimal(out, t / 10);
    out.append(".");
    out.append(digit_str(t % 10));
    proof {
        reveal_strlit(".");
        assert(final(out)@ =~= old(out)@ + one_decimal(t as nat));
    }
}

/// A byte count as text, as the metrics panel shows it.
pub fn format_bytes(bytes: u64) -> (r: String)
    ensures
        r@ == bytes_text(bytes),
{
    let mut out = String::new();
    if bytes >= GIB {
        push_scaled(&mut out, bytes, GIB);
        out.append("GB");
    } else if bytes >= MIB {
        push_scaled(&mut out, bytes, MIB);
        out.append("MB");
    } else if bytes >= KIB {
        push_scaled(&mut out, bytes, KIB);
        out.append("KB");
    } else {
        push_decimal(&mut out, bytes as u128);
        out.append("B");
    }
    assert(out@ =~= bytes_text(bytes));
    out
}

/// Fill of the CPU gauge in ten-thousandths: the usage clamped to 0..=100%.
pub fn cpu_gauge_ratio(metrics: &DaemonMetrics) -> (r: u64)
    ensures
        r == if metrics.cpu_usage_centi < 0 {
            0
        } else if metrics.cpu_usage_centi > RATIO_ONE {
            RATIO_ONE as int
        } else {
            metrics.cpu_usage_centi as int
        },
{
    if metrics.cpu_usage_centi < 0 {
        0
    } else if metrics.cpu_usage_centi > RATIO_ONE as i64 {
        RATIO_ONE
    } else {
        metrics.cpu_usage_centi as u64
    }
}

/// Fill of the memory gauge in ten-thousandths: memory in use over the limit,
/// rounded down and clamped to one; empty when no limit is known.
pub fn memory_gauge_ratio(metrics: &DaemonMetrics) -> (r: u64)
    ensures
        r == if metrics.memory_limit_bytes == 0 {
            0
        } else if metrics.memory_bytes * RATIO_ONE / (metrics.memory_limit_bytes as int)
            > RATIO_ONE {
            RATIO_ONE as int
        } else {
            metrics.memory_bytes * RATIO_ONE / (metrics.memory_limit_bytes as int)
        },
{
    if metrics.memory_limit_bytes == 0 {
        return 0;
    }
    let q: u128 = metrics.memory_bytes as u128 * RATIO_ONE as u128
        / metrics.memory_limit_bytes as u128;
    if q > RATIO_ONE as u128 {
        RATIO_ONE
    } else {
        q as u64
    }
}

/// The first and one-past-last index of the log lines that fit a panel of
/// `height` rows (two of which are its border), starting at `scroll`.
pub fn log_window(scroll: usize, len: usize, height: u16) -> (r: (usize, usize))
    ensures
        r.0 == if scroll < len { scroll } else { len },
        r.1 == if r.0 + (if height >= 2 { height - 2 } else { 0 }) < len {
            r.0 + (if height >= 2 { height - 2 } else { 0 })
        } else {
            len as int
        },
{
    let start = if scroll < len { scroll } else { len };
    let rows = height.saturating_sub(2) as usize;
    let end = if rows < len - start { start + rows } else { len };
    (start, end)
}

/// How a row of the controls panel is drawn.
#[derive(Debug, Clone, Copy, PartialEq, Eq, Structural)]
pub enum RowStyle {
    /// The selected row while the panel has the focus.
    Highlighted,
    /// The selected row of a panel without the focus.
    Selected,
    Plain,
}

pub fn row_style(row: usize, selected: usize, focused: bool) -> (r: RowStyle)
    ensures
        r == if row != selected {
            RowStyle::Plain
        } else if focused {
            RowStyle::Highlighted
        } else {
            RowStyle::Selected
        },
{
    if row == selected && focused {
        RowStyle::Highlighted
    } else if row == selected {
        RowStyle::Selected
    } else {
        RowStyle::Plain
    }
}

/// The header's text for the connection.
pub fn connection_label(status: &ConnectionStatus) -> (r: &str)
    ensures
        r@ == match status {
            ConnectionStatus::Connected => "Connected"@,
            ConnectionStatus::Connecting => "Connecting..."@,
            ConnectionStatus::Disconnected => "Disconnected"@,
            ConnectionStatus::Error(msg) => msg@,
        },
{
    match status {
        ConnectionStatus::Connected => "Connected",
        ConnectionStatus::Connecting => "Connecting...",
        ConnectionStatus::Disconnected => "Disconnected",
        ConnectionStatus::Error(msg) => msg.as_str(),
    }
}

} // verus!
