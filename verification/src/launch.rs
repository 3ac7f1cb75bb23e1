//! The supervised process's invocation surface: the heap bounds computed
//! from the machine's total memory, the argument list around the configured
//! artifact, and the two-step shutdown protocol — a termination line on the
//! process's input stream, escalated to a forced kill when that is not
//! possible.

use vstd::prelude::*;
use vstd::arithmetic::div_mod::lemma_div_is_ordered;

verus! {

/// The character of one decimal digit.
pub open spec fn dec_digit_char(d: nat) -> char {
    if d == 0 {
        '0'
    } else if d == 1 {
        '1'
    } else if d == 2 {
        '2'
    } else if d == 3 {
        '3'
    } else if d == 4 {
        '4'
    } else if d == 5 {
        '5'
    } else if d == 6 {
        '6'
    } else if d == 7 {
        '7'
    } else if d == 8 {
        '8'
    } else {
        '9'
    }
}

/// The decimal digits of a number, most significant first.
pub open spec fn dec_seq(n: nat) -> Seq<char>
    decreases n,
{
    if n < 10 {
        seq![dec_digit_char(n)]
    } else {
        dec_seq(n / 10) + seq![dec_digit_char(n % 10)]
    }
}

/// Relies on the standard decimal formatting of `u64`: the digits of the
/// value, most significant first, with no sign and no padding.
#[verifier::external_body]
fn u64_to_string(n: u64) -> (r: String)
    ensures
        r@ == dec_seq(n as nat),
{
    format!("{}", n)
}

/// The heap bounds for a launch: the minimum is a tenth of the machine's
/// total memory, the maximum a fifth, each rounded to the nearest byte.
pub fn memory_bounds(total: u64) -> (r: (u64, u64))
    ensures
        r.0 == (total as int + 5) / 10,
        r.1 == (2 * (total as int) + 5) / 10,
        r.0 <= r.1,
{
    let t = total as u128;
    let lo_wide = (t + 5) / 10;
    let hi_wide = (2 * t + 5) / 10;
    proof {
        lemma_div_is_ordered(t as int + 5, 2 * (t as int) + 5, 10);
        lemma_div_is_ordered(2 * (t as int) + 5, u64::MAX as int * 10 + 9, 10);
    }
    (lo_wide as u64, hi_wide as u64)
}

/// The line written to the supervised process's input stream to ask it to
/// shut down on its own.
pub fn termination_line() -> (r: Vec<u8>)
    ensures
        r@ == vstd::utf8::encode_utf8("stop\n"@),
{
    let s = String::from_str("stop\n");
    let ss = s.as_str();
    ss.as_bytes_vec()
}

/// Whether a stop must escalate to a forced kill: when the process offers
/// no input stream to write the termination line to, or the write failed.
pub fn must_escalate_to_kill(has_input: bool, write_ok: bool) -> (r: bool)
    ensures
        r == (!has_input || !write_ok),
{
    !has_input || !write_ok
}

/// The argument list the supervised process is launched with: the two heap
/// flags, the artifact, and the flag that suppresses the interactive UI.
pub fn launch_args(jar: &str, mem_min: u64, mem_max: u64) -> (r: Vec<String>)
    ensures
        r@.len() == 5,
        r@[0]@ == "-Xms"@ + dec_seq(mem_min as nat),
        r@[1]@ == "-Xmx"@ + dec_seq(mem_max as nat),
        r@[2]@ == "-jar"@,
        r@[3]@ == jar@,
        r@[4]@ == "--nogui"@,
{
    let mut xms = String::from_str("-Xms");
    let min_digits = u64_to_string(mem_min);
    xms.append(min_digits.as_str());
    let mut xmx = String::from_str("-Xmx");
    let max_digits = u64_to_string(mem_max);
    xmx.append(max_digits.as_str());
    let mut args: Vec<String> = Vec::new();
    args.push(xms);
    args.push(xmx);
    args.push(String::from_str("-jar"));
    args.push(String::from_str(jar));
    args.push(String::from_str("--nogui"));
    args
}

} // verus!
