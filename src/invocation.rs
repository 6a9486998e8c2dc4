//! What is launched: a program and its argument vector.

use vstd::prelude::*;
use vstd::string::StringExecFns;

verus! {

/// A program to launch and its arguments, fixed once built.
#[derive(Clone, Debug)]
pub struct Invocation {
    pub program: String,
    pub args: Vec<String>,
}

/// The decimal digit `d`, for `d < 10`.
pub open spec fn digit_char(d: nat) -> char {
    ((48 + d) as u8) as char
}

/// The decimal numeral of `n`, without sign or leading zeros.
pub open spec fn decimal(n: nat) -> Seq<char>
    decreases n,
{
    if n < 10 {
        seq![digit_char(n)]
    } else {
        decimal(n / 10).push(digit_char(n % 10))
    }
}

/// Relies on `String::push`: the character is appended.
#[verifier::external_body]
fn push_char(s: &mut String, c: char)
    ensures
        final(s)@ == old(s)@.push(c),
{
    s.push(c)
}

/// Appends the decimal numeral of `n` to `out`.
fn write_decimal(n: u32, out: &mut String)
    ensures
        final(out)@ == old(out)@ + decimal(n as nat),
    decreases n,
{
    if n >= 10 {
        write_decimal(n / 10, out);
    }
    let d: u8 = (n % 10) as u8;
    let c = (48u8 + d) as char;
    push_char(out, c);
    proof {
        if n >= 10 {
            assert(old(out)@ + decimal(n as nat) =~= (old(out)@ + decimal((n / 10) as nat)).push(c));
        } else {
            assert(old(out)@ + decimal(n as nat) =~= old(out)@.push(c));
        }
    }
}

/// The decimal numeral of `n`.
pub fn decimal_string(n: u32) -> (r: String)
    ensures
        r@ == decimal(n as nat),
{
    let mut r = String::new();
    write_decimal(n, &mut r);
    assert(Seq::<char>::empty() + decimal(n as nat) =~= decimal(n as nat));
    r
}

/// The flag that asks for lossless output.
pub const LOSSLESS_FLAG: &'static str = "--lossless";

/// The flag followed by the quality level.
pub const QUALITY_FLAG: &'static str = "--quality";

/// The argument vector of an image job: `[path, "--lossless"]`, or
/// `[path, "--quality", quality in decimal]`.
pub open spec fn job_args_of(path: Seq<char>, quality: nat, lossless: bool) -> Seq<Seq<char>> {
    if lossless {
        seq![path, LOSSLESS_FLAG@]
    } else {
        seq![path, QUALITY_FLAG@, decimal(quality)]
    }
}

/// The characters of each string of `v`.
pub open spec fn strings_view(v: Seq<String>) -> Seq<Seq<char>> {
    v.map_values(|s: String| s@)
}

/// The arguments of an image job on `path`.
pub fn job_args(path: &str, quality: u32, lossless: bool) -> (r: Vec<String>)
    ensures
        strings_view(r@) == job_args_of(path@, quality as nat, lossless),
{
    let mut r: Vec<String> = Vec::new();
    r.push(String::from_str(path));
    if lossless {
        r.push(String::from_str(LOSSLESS_FLAG));
    } else {
        r.push(String::from_str(QUALITY_FLAG));
        r.push(decimal_string(quality));
    }
    assert(strings_view(r@) =~= job_args_of(path@, quality as nat, lossless));
    r
}

impl Invocation {
    /// Runs `script` with the interpreter `shell`, on the image job's
    /// arguments: `shell script path --lossless` or
    /// `shell script path --quality n`.
    pub fn script_job(shell: &str, script: &str, path: &str, quality: u32, lossless: bool) -> (r: Invocation)
        ensures
            r.program@ == shell@,
            strings_view(r.args@) == seq![script@] + job_args_of(path@, quality as nat, lossless),
    {
        let mut args: Vec<String> = Vec::new();
        args.push(String::from_str(script));
        let mut rest = job_args(path, quality, lossless);
        let ghost a0 = args@;
        let ghost r0 = rest@;
        args.append(&mut rest);
        assert(strings_view(args@) =~= strings_view(a0) + strings_view(r0));
        Invocation { program: String::from_str(shell), args }
    }
}

} // verus!
