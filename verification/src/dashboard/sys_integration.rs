//! The audio settings: volume reading from the mixer tools' output, and
//! what the limiter and volume forms ask for.

use vstd::prelude::*;

use crate::text::{
    chars_of, find_char, find_char_in, has_substring, last_word, last_word_of, lines, lines_of,
    opt_string_view, parse_unsigned, parse_unsigned_chars, str_contains, str_eq, trim,
    trim_bounds,
};

verus! {

/// The limiter form: `enable` is `"on"` when the checkbox is checked.
#[derive(Debug, Clone)]
pub struct LimiterQuery {
    pub enable: Option<String>,
}

/// The volume form: `direction` is `"up"` or `"down"`.
#[derive(Debug, Clone)]
pub struct VolumeQuery {
    pub direction: String,
}

/// A volume change of one step.
#[derive(Debug, Clone, Copy, PartialEq, Eq, Structural)]
pub enum VolumeStep {
    Up,
    Down,
}

/// The limiter state a form asks for: on exactly when `enable` is `"on"`.
pub open spec fn limiter_requested(q: LimiterQuery) -> bool {
    q.enable matches Some(s) && s@ == "on"@
}

/// Whether the limiter form turns the limiter on.
pub fn limiter_enabled(q: &LimiterQuery) -> (r: bool)
    ensures
        r == limiter_requested(*q),
{
    match &q.enable {
        Some(s) => str_eq(s.as_str(), "on"),
        None => false,
    }
}

/// The EasyEffects preset for a limiter state: preset 2 with the limiter,
/// preset 1 without.
pub open spec fn easyeffects_preset_for(limiter_on: bool) -> Seq<char> {
    if limiter_on {
        "2"@
    } else {
        "1"@
    }
}

/// The EasyEffects preset to load for a limiter state.
pub fn easyeffects_preset(limiter_on: bool) -> (r: &'static str)
    ensures
        r@ == easyeffects_preset_for(limiter_on),
{
    if limiter_on {
        "2"
    } else {
        "1"
    }
}

/// The step a direction names.
pub open spec fn volume_step_named(direction: Seq<char>) -> Option<VolumeStep> {
    if direction == "up"@ {
        Some(VolumeStep::Up)
    } else if direction == "down"@ {
        Some(VolumeStep::Down)
    } else {
        None
    }
}

/// The volume step a direction asks for (`None` for other directions).
pub fn volume_step(direction: &str) -> (r: Option<VolumeStep>)
    ensures
        r == volume_step_named(direction@),
{
    if str_eq(direction, "up") {
        Some(VolumeStep::Up)
    } else if str_eq(direction, "down") {
        Some(VolumeStep::Down)
    } else {
        None
    }
}

/// What the volume form does: a step, when volume control is available
/// and the direction is up or down.
pub fn volume_request(available: bool, q: &VolumeQuery) -> (r: Option<VolumeStep>)
    ensures
        r == if available {
            volume_step_named(q.direction@)
        } else {
            None
        },
{
    if available {
        volume_step(q.direction.as_str())
    } else {
        None
    }
}

/// The change arguments for `wpctl set-volume` and `pactl set-sink-volume`:
/// five percent up or down.
pub open spec fn volume_change_for(step: VolumeStep) -> (Seq<char>, Seq<char>) {
    match step {
        VolumeStep::Up => ("5%+"@, "+5%"@),
        VolumeStep::Down => ("5%-"@, "-5%"@),
    }
}

/// The change arguments of a step for `wpctl` and for `pactl`.
pub fn volume_change(step: VolumeStep) -> (r: (&'static str, &'static str))
    ensures
        (r.0@, r.1@) == volume_change_for(step),
{
    match step {
        VolumeStep::Up => ("5%+", "+5%"),
        VolumeStep::Down => ("5%-", "-5%"),
    }
}

/// The volume field of `wpctl get-volume`: the last word of the first line
/// that holds `Volume:`.
pub open spec fn wpctl_volume_word(stdout: Seq<char>) -> Option<Seq<char>> {
    let ls = lines(stdout);
    if exists|i: int| 0 <= i < ls.len() && has_substring(#[trigger] ls[i], "Volume:"@) {
        let i = choose|i: int|
            0 <= i < ls.len() && has_substring(#[trigger] ls[i], "Volume:"@) && forall|j: int|
                0 <= j < i ==> !has_substring(#[trigger] ls[j], "Volume:"@);
        last_word(ls[i])
    } else {
        None
    }
}

/// The volume field of `wpctl get-volume` output (a fraction such as
/// `0.75`, read by the caller).
pub fn wpctl_volume_field(stdout: &str) -> (r: Option<String>)
    ensures
        opt_string_view(r) == wpctl_volume_word(stdout@),
{
    let ls = lines_of(stdout);
    let ghost lv = ls@.map_values(|x: String| x@);
    let mut i: usize = 0;
    while i < ls.len()
        invariant
            i <= ls.len(),
            lv == ls@.map_values(|x: String| x@),
            lv == lines(stdout@),
            forall|j: int| 0 <= j < i ==> !has_substring(#[trigger] lv[j], "Volume:"@),
        decreases ls.len() - i,
    {
        if str_contains(ls[i].as_str(), "Volume:") {
            assert(has_substring(lv[i as int], "Volume:"@));
            let ghost k = choose|k: int|
                0 <= k < lv.len() && has_substring(#[trigger] lv[k], "Volume:"@) && forall|j: int|
                    0 <= j < k ==> !has_substring(#[trigger] lv[j], "Volume:"@);
            assert(k == i) by {
                if k < i {
                    assert(!has_substring(lv[k], "Volume:"@));
                } else if k > i {
                    assert(!has_substring(lv[i as int], "Volume:"@));
                }
            }
            return last_word_of(ls[i].as_str());
        }
        i = i + 1;
    }
    None
}

/// The volume percentage a `pactl list sinks` line carries: between the
/// first `/` and the next `%`, trimmed, read as a `u8`.
pub open spec fn pactl_line_volume(line: Seq<char>) -> Option<u8> {
    if has_substring(line, "Volume:"@) && has_substring(line, "%"@) {
        match find_char(line, '/') {
            Some(p) => {
                let after = line.subrange(p + 1, line.len() as int);
                match find_char(after, '%') {
                    Some(q) => match parse_unsigned(trim(after.subrange(0, q)), 255) {
                        Some(n) => Some(n as u8),
                        None => None,
                    },
                    None => None,
                }
            },
            None => None,
        }
    } else {
        None
    }
}

/// The volume of `pactl list sinks` output: that of the first line that
/// carries one.
pub open spec fn pactl_volume_within(ls: Seq<Seq<char>>, k: int) -> Option<u8>
    decreases k,
{
    if k <= 0 {
        None
    } else {
        match pactl_volume_within(ls, k - 1) {
            Some(v) => Some(v),
            None => pactl_line_volume(ls[k - 1]),
        }
    }
}

/// Once a line below `i` carries a volume, the first such volume stays.
proof fn lemma_pactl_volume_found(ls: Seq<Seq<char>>, i: int, k: int)
    requires
        i <= k,
        pactl_volume_within(ls, i) is Some,
    ensures
        pactl_volume_within(ls, k) == pactl_volume_within(ls, i),
    decreases k - i,
{
    if i < k {
        lemma_pactl_volume_found(ls, i, k - 1);
    }
}

/// The volume of `pactl list sinks` output.
pub open spec fn pactl_volume_of(stdout: Seq<char>) -> Option<u8> {
    pactl_volume_within(lines(stdout), lines(stdout).len() as int)
}

fn pactl_line(line: &str) -> (r: Option<u8>)
    ensures
        r == pactl_line_volume(line@),
{
    if !(str_contains(line, "Volume:") && str_contains(line, "%")) {
        return None;
    }
    let v = chars_of(line);
    assert(v@.subrange(0, v.len() as int) =~= v@);
    let p = match find_char_in(&v, 0, v.len(), '/') {
        Some(p) => p,
        None => {
            return None;
        },
    };
    let ghost after = v@.subrange(p + 1, v.len() as int);
    let q = match find_char_in(&v, p + 1, v.len(), '%') {
        Some(q) => q,
        None => {
            return None;
        },
    };
    let (a, b) = trim_bounds(&v, p + 1, p + 1 + q);
    assert(v@.subrange(p + 1, p + 1 + q) =~= after.subrange(0, q as int));
    match parse_unsigned_chars(&v, a, b, 255) {
        Some(n) => Some(n as u8),
        None => None,
    }
}

/// The volume percentage in `pactl list sinks` output.
pub fn pactl_volume(stdout: &str) -> (r: Option<u8>)
    ensures
        r == pactl_volume_of(stdout@),
{
    let ls = lines_of(stdout);
    let ghost lv = ls@.map_values(|x: String| x@);
    let mut i: usize = 0;
    while i < ls.len()
        invariant
            i <= ls.len(),
            lv == ls@.map_values(|x: String| x@),
            lv == lines(stdout@),
            pactl_volume_within(lv, i as int) is None,
        decreases ls.len() - i,
    {
        let found = pactl_line(ls[i].as_str());
        match found {
            Some(v) => {
                assert(pactl_volume_within(lv, i + 1) == Some(v));
                proof {
                    lemma_pactl_volume_found(lv, i + 1, lv.len() as int);
                }
                return Some(v);
            },
            None => {},
        }
        i = i + 1;
    }
    None
}

// ---------------------------------------------------------------------
// Laws
// ---------------------------------------------------------------------

/// The limiter loads EasyEffects preset 2 when on and preset 1 when off; it
/// is on exactly when the form's `enable` is `"on"`.
pub proof fn lemma_limiter_settings(limiter_on: bool, q: LimiterQuery)
    ensures
        limiter_on ==> easyeffects_preset_for(limiter_on) == "2"@,
        !limiter_on ==> easyeffects_preset_for(limiter_on) == "1"@,
        limiter_requested(q) <==> (q.enable matches Some(s) && s@ == "on"@),
{
}

/// `up` steps the volume up and `down` down, five percent each way
/// (`5%+`/`+5%` and `5%-`/`-5%` for wpctl and pactl); any other direction
/// changes nothing.
pub proof fn lemma_volume_steps(direction: Seq<char>)
    ensures
        direction == "up"@ ==> volume_step_named(direction) == Some(VolumeStep::Up),
        direction == "down"@ ==> volume_step_named(direction) == Some(VolumeStep::Down),
        direction != "up"@ && direction != "down"@ ==> volume_step_named(direction) is None,
        volume_change_for(VolumeStep::Up) == ("5%+"@, "+5%"@),
        volume_change_for(VolumeStep::Down) == ("5%-"@, "-5%"@),
{
    reveal_strlit("up");
    reveal_strlit("down");
    assert("up"@.len() == 2 && "up"@[0] == 'u' && "up"@[1] == 'p');
    assert("down"@.len() == 4 && "down"@[0] == 'd' && "down"@[3] == 'n');
}

} // verus!
