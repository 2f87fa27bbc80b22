//! Displays page logic: the refresh rates offered for an output and the
//! texts of the output info row.

use vstd::prelude::*;
use crate::daemon::{DisplayMode, DisplayOutput};
use crate::daemon::request::Request;
use crate::text::{push_str, push_signed_decimal, push_decimal, signed_decimal, decimal};

verus! {

/// Hard cap for offered refresh rates in Hz.
pub const MAX_RATE: u32 = 1000;

/// The standard rates offered up to the monitor max: 10, 30, 60, 120, 240.
pub open spec fn is_standard_rate(r: u32) -> bool {
    r == 10 || r == 30 || r == 60 || r == 120 || r == 240
}

/// A rate some mode reports, within `1..=MAX_RATE`.
pub open spec fn is_reported(modes: Seq<DisplayMode>, r: u32) -> bool {
    &&& 1 <= r <= MAX_RATE
    &&& exists|i: int| 0 <= i < modes.len() && #[trigger] modes[i].refresh == r
}

/// Largest reported rate within `1..=MAX_RATE`, 0 when there is none.
pub open spec fn max_reported(modes: Seq<DisplayMode>) -> u32
    decreases modes.len(),
{
    if modes.len() == 0 {
        0
    } else {
        let m = max_reported(modes.drop_last());
        let r = modes.last().refresh;
        if 1 <= r <= MAX_RATE && r > m {
            r
        } else {
            m
        }
    }
}

/// The monitor max: the largest reported rate, 60 Hz when none is.
pub open spec fn rate_cap(modes: Seq<DisplayMode>) -> u32 {
    if max_reported(modes) == 0 {
        60
    } else {
        max_reported(modes)
    }
}

/// Rates offered for an output: standard rates up to the monitor max
/// plus every reported rate.
pub open spec fn is_offered(modes: Seq<DisplayMode>, r: u32) -> bool {
    (is_standard_rate(r) && r <= rate_cap(modes)) || is_reported(modes, r)
}

/// Some of the first `m` modes reports `y`.
pub open spec fn reported_among(modes: Seq<DisplayMode>, m: int, y: u32) -> bool {
    exists|j: int| 0 <= j < m && #[trigger] modes[j].refresh == y
}

proof fn lemma_reported_among_step(modes: Seq<DisplayMode>, m: int, y: u32)
    requires
        0 <= m < modes.len(),
    ensures
        reported_among(modes, m + 1, y) <==> (reported_among(modes, m, y) || modes[m].refresh
            == y),
{
    if reported_among(modes, m + 1, y) {
        let j = choose|j: int| 0 <= j < m + 1 && #[trigger] modes[j].refresh == y;
        if j < m {
            assert(reported_among(modes, m, y));
        }
    }
    if reported_among(modes, m, y) {
        let j = choose|j: int| 0 <= j < m && #[trigger] modes[j].refresh == y;
        assert(0 <= j < m + 1 && modes[j].refresh == y);
    }
    if modes[m].refresh == y {
        assert(modes[m].refresh == y);
    }
}

pub open spec fn strictly_increasing(s: Seq<u32>) -> bool {
    forall|i: int, j: int| 0 <= i < j < s.len() ==> s[i] < s[j]
}

/// Adds `x` to a strictly increasing vector, keeping it so.
fn insert_sorted(v: &mut Vec<u32>, x: u32)
    requires
        strictly_increasing(old(v)@),
    ensures
        strictly_increasing(final(v)@),
        forall|y: u32| final(v)@.contains(y) <==> (old(v)@.contains(y) || y == x),
{
    let len = v.len();
    let mut i: usize = 0;
    while i < len && v[i] < x
        invariant
            i <= len,
            len == v@.len(),
            forall|k: int| 0 <= k < i ==> v@[k] < x,
        decreases len - i,
    {
        i += 1;
    }
    if i < len && v[i] == x {
        assert(v@.contains(x));
        assert(forall|y: u32| v@.contains(y) <==> (old(v)@.contains(y) || y == x));
        return;
    }
    proof {
        if i < len {
            assert(v@[i as int] > x);
        }
    }
    let ghost before = v@;
    v.insert(i, x);
    assert(v@ == before.insert(i as int, x));
    assert(before == old(v)@);
    assert forall|y: u32| v@.contains(y) <==> (old(v)@.contains(y) || y == x) by {
        if v@.contains(y) {
            let k = choose|k: int| 0 <= k < v@.len() && v@[k] == y;
            if k < i {
                assert(before[k] == y);
                assert(before.contains(y));
            } else if k > i {
                assert(before[k - 1] == y);
                assert(before.contains(y));
            }
        }
        if before.contains(y) {
            let k = choose|k: int| 0 <= k < before.len() && before[k] == y;
            if k < i {
                assert(v@[k] == y);
            } else {
                assert(v@[k + 1] == y);
            }
            assert(v@.contains(y));
        }
        if y == x {
            assert(v@[i as int] == x);
            assert(v@.contains(y));
        }
    }
}

/// Refresh rate options for an output: standard rates up to the monitor
/// max plus every reported rate, capped at `MAX_RATE`, sorted and without
/// duplicates. A 120 Hz monitor offers 10/30/60/120, a 240 Hz one adds 240
/// plus whatever else it reports; no modes offer 10/30/60.
pub fn refresh_rates(modes: &[DisplayMode]) -> (rates: Vec<u32>)
    ensures
        strictly_increasing(rates@),
        forall|r: u32| rates@.contains(r) <==> is_offered(modes@, r),
{
    let n = modes.len();
    let mut max: u32 = 0;
    let mut i: usize = 0;
    while i < n
        invariant
            i <= n,
            n == modes@.len(),
            max == max_reported(modes@.take(i as int)),
        decreases n - i,
    {
        let r = modes[i].refresh;
        assert(modes@.take(i + 1).drop_last() =~= modes@.take(i as int));
        if 1 <= r && r <= MAX_RATE && r > max {
            max = r;
        }
        i += 1;
    }
    assert(modes@.take(n as int) =~= modes@);
    let cap: u32 = if max == 0 { 60 } else { max };

    let mut rates: Vec<u32> = Vec::new();
    let standard: [u32; 5] = [10, 30, 60, 120, 240];
    let mut k: usize = 0;
    while k < 5
        invariant
            k <= 5,
            cap == rate_cap(modes@),
            standard@ == seq![10u32, 30, 60, 120, 240],
            strictly_increasing(rates@),
            forall|y: u32| rates@.contains(y) <==> (exists|j: int| 0 <= j < k && standard@[j] == y
                && y <= cap),
        decreases 5 - k,
    {
        let s = standard[k];
        if s <= cap {
            insert_sorted(&mut rates, s);
        }
        assert forall|y: u32| rates@.contains(y) <==> (exists|j: int| 0 <= j < k + 1
            && standard@[j] == y && y <= cap) by {
            if rates@.contains(y) && y != s {
                let j = choose|j: int| 0 <= j < k && standard@[j] == y && y <= cap;
            }
            if y == s && s <= cap {
                assert(standard@[k as int] == y);
            }
        }
        k += 1;
    }
    assert forall|y: u32| rates@.contains(y) <==> (is_standard_rate(y) && y <= cap) by {
        if is_standard_rate(y) && y <= cap {
            if y == 10 { assert(standard@[0] == y); }
            else if y == 30 { assert(standard@[1] == y); }
            else if y == 60 { assert(standard@[2] == y); }
            else if y == 120 { assert(standard@[3] == y); }
            else { assert(standard@[4] == y); }
        }
    }

    let mut m: usize = 0;
    while m < n
        invariant
            m <= n,
            n == modes@.len(),
            cap == rate_cap(modes@),
            strictly_increasing(rates@),
            forall|y: u32| #[trigger] rates@.contains(y) <==> ((is_standard_rate(y) && y <= cap) || (1 <= y
                <= MAX_RATE && reported_among(modes@, m as int, y))),
        decreases n - m,
    {
        let r = modes[m].refresh;
        let ghost prev = rates@;
        if 1 <= r && r <= MAX_RATE {
            insert_sorted(&mut rates, r);
        }
        assert forall|y: u32| rates@.contains(y) <==> ((is_standard_rate(y) && y <= cap) || (1
            <= y <= MAX_RATE && reported_among(modes@, m + 1, y))) by {
            lemma_reported_among_step(modes@, m as int, y);
            assert(modes@[m as int].refresh == r);
            assert(prev.contains(y) <==> ((is_standard_rate(y) && y <= cap) || (1 <= y <= MAX_RATE
                && reported_among(modes@, m as int, y))));
            if 1 <= r <= MAX_RATE {
                assert(rates@.contains(y) <==> (prev.contains(y) || y == r));
            } else {
                assert(rates@ == prev);
            }
        }
        m += 1;
    }
    assert forall|y: u32| rates@.contains(y) <==> is_offered(modes@, y) by {
        assert(reported_among(modes@, n as int, y) == (exists|j: int| 0 <= j < modes@.len()
            && #[trigger] modes@[j].refresh == y));
    }
    rates
}

/// "1920 × 1080 @ 60 Hz" mode text for an info row.
pub fn mode_text(mode: &DisplayMode) -> (text: String)
    ensures
        text@ == signed_decimal(mode.width as int) + " × "@ + signed_decimal(mode.height as int)
            + " @ "@ + decimal(mode.refresh as nat) + " Hz"@,
{
    let mut text = String::new();
    push_signed_decimal(&mut text, mode.width as i64);
    push_str(&mut text, " × ");
    push_signed_decimal(&mut text, mode.height as i64);
    push_str(&mut text, " @ ");
    push_decimal(&mut text, mode.refresh as u64);
    push_str(&mut text, " Hz");
    text
}

/// Output info value: `no_output` (the localized placeholder) when there
/// is no output, the name alone when the mode is unknown, else
/// "name — mode".
pub fn output_value(output_name: &str, mode_label: &str, no_output: &str) -> (value: String)
    ensures
        value@ == (if output_name@.len() == 0 {
            no_output@
        } else if mode_label@.len() == 0 {
            output_name@
        } else {
            output_name@ + " — "@ + mode_label@
        }),
{
    if output_name.is_empty() {
        no_output.to_string()
    } else if mode_label.is_empty() {
        output_name.to_string()
    } else {
        let mut value = output_name.to_string();
        push_str(&mut value, " — ");
        push_str(&mut value, mode_label);
        value
    }
}

/// The output info of the page: the first output's name and the text of
/// its current mode (empty when it has none); both empty without outputs.
pub fn output_info(outputs: &Vec<DisplayOutput>) -> (info: (String, String))
    ensures
        outputs@.len() == 0 ==> info.0@.len() == 0 && info.1@.len() == 0,
        outputs@.len() > 0 ==> info.0@ == outputs@[0].name@ && info.1@ == (match outputs@[0].current {
            Some(m) => signed_decimal(m.width as int) + " × "@ + signed_decimal(m.height as int)
                + " @ "@ + decimal(m.refresh as nat) + " Hz"@,
            None => Seq::empty(),
        }),
{
    if outputs.len() == 0 {
        return (String::new(), String::new());
    }
    let primary = &outputs[0];
    let mode = match &primary.current {
        Some(m) => mode_text(m),
        None => String::new(),
    };
    (primary.name.clone(), mode)
}

/// Dropdown label of a refresh rate: "120 Hz".
pub fn rate_label(rate: u32) -> (label: String)
    ensures
        label@ == decimal(rate as nat) + " Hz"@,
{
    let mut label = String::new();
    push_decimal(&mut label, rate as u64);
    push_str(&mut label, " Hz");
    label
}

/// Dropdown row of the current refresh rate: its position among the
/// options, row 0 when there is no current mode or it is not offered.
pub fn selected_rate_index(options: &Vec<u32>, current: Option<u32>) -> (index: usize)
    ensures
        match current {
            Some(r) => if options@.contains(r) {
                index < options@.len() && options@[index as int] == r && forall|k: int|
                    0 <= k < index ==> options@[k] != r
            } else {
                index == 0
            },
            None => index == 0,
        },
{
    let r = match current {
        Some(r) => r,
        None => return 0,
    };
    let n = options.len();
    let mut i: usize = 0;
    while i < n
        invariant
            i <= n,
            n == options@.len(),
            current == Some(r),
            forall|k: int| 0 <= k < i ==> options@[k] != r,
        decreases n - i,
    {
        if options[i] == r {
            assert(options@[i as int] == r);
            return i;
        }
        i += 1;
    }
    0
}

/// What picking dropdown row `index` asks the daemon: the row's rate on
/// the output (none when unnamed) at the current mode's size (none when
/// unknown); nothing for a row past the options.
pub fn refresh_request(
    options: &Vec<u32>,
    index: usize,
    output_name: &str,
    current: Option<DisplayMode>,
) -> (request: Option<Request>)
    ensures
        index >= options@.len() ==> request is None,
        index < options@.len() ==> match request {
            Some(Request::DisplaySet { output, width, height, refresh, brightness, night_light }) => {
                &&& (match output {
                    Some(o) => output_name@.len() > 0 && o@ == output_name@,
                    None => output_name@.len() == 0,
                })
                &&& width == (match current {
                    Some(m) => Some(m.width),
                    None => None,
                })
                &&& height == (match current {
                    Some(m) => Some(m.height),
                    None => None,
                })
                &&& refresh == Some(options@[index as int])
                &&& brightness is None
                &&& night_light is None
            },
            _ => false,
        },
{
    if index >= options.len() {
        return None;
    }
    let rate = options[index];
    let (width, height) = match current {
        Some(m) => (Some(m.width), Some(m.height)),
        None => (None, None),
    };
    let output = if output_name.is_empty() {
        None
    } else {
        Some(output_name.to_string())
    };
    Some(Request::DisplaySet {
        output,
        width,
        height,
        refresh: Some(rate),
        brightness: None,
        night_light: None,
    })
}

} // verus!
