use vstd::prelude::*;
use vstd::string::StringExecFns;

verus! {

/// The character of a decimal digit.
pub open spec fn digit_char(d: nat) -> char {
    if d == 0 { '0' }
    else if d == 1 { '1' }
    else if d == 2 { '2' }
    else if d == 3 { '3' }
    else if d == 4 { '4' }
    else if d == 5 { '5' }
    else if d == 6 { '6' }
    else if d == 7 { '7' }
    else if d == 8 { '8' }
    else { '9' }
}

/// `n` written in decimal, without leading zeros.
pub open spec fn decimal(n: nat) -> Seq<char>
    decreases n,
{
    if n < 10 {
        seq![digit_char(n)]
    } else {
        decimal(n / 10) + seq![digit_char(n % 10)]
    }
}

fn digit_str(d: u64) -> (r: &'static str)
    requires
        d < 10,
    ensures
        r@ == seq![digit_char(d as nat)],
{
    if d == 0 {
        proof { reveal_strlit("0"); }
        "0"
    } else if d == 1 {
        proof { reveal_strlit("1"); }
        "1"
    } else if d == 2 {
        proof { reveal_strlit("2"); }
        "2"
    } else if d == 3 {
        proof { reveal_strlit("3"); }
        "3"
    } else if d == 4 {
        proof { reveal_strlit("4"); }
        "4"
    } else if d == 5 {
        proof { reveal_strlit("5"); }
        "5"
    } else if d == 6 {
        proof { reveal_strlit("6"); }
        "6"
    } else if d == 7 {
        proof { reveal_strlit("7"); }
        "7"
    } else if d == 8 {
        proof { reveal_strlit("8"); }
        "8"
    } else {
        proof { reveal_strlit("9"); }
        "9"
    }
}

fn push_decimal(out: &mut String, n: u64)
    ensures
        final(out)@ == old(out)@ + decimal(n as nat),
    decreases n,
{
    if n >= 10 {
        push_decimal(out, n / 10);
    }
    out.append(digit_str(n % 10));
    proof {
        if n >= 10 {
            assert(old(out)@ + decimal(n as nat) =~= old(out)@ + decimal((n / 10) as nat) + seq![
                digit_char((n % 10) as nat),
            ]);
        }
    }
}

/// `n` in decimal.
pub fn decimal_string(n: u64) -> (r: String)
    ensures
        r@ == decimal(n as nat),
{
    let mut s = String::new();
    push_decimal(&mut s, n);
    assert(s@ =~= decimal(n as nat));
    s
}

/// Flags that keep the compressor quiet and strip what the output does not need.
pub open spec fn quiet_flags() -> Seq<Seq<char>> {
    seq!["--no-warnings"@, "--no-conserve-memory"@, "--no-comments"@, "--no-names"@]
}

/// Arguments that ask the compressor whether it is installed.
pub open spec fn probe_args_spec() -> Seq<Seq<char>> {
    seq!["--version"@]
}

/// Arguments that join frame files into one animation, looping forever, with
/// `delay` between frames.
pub open spec fn merge_args_spec(output: Seq<char>, delay: nat, frames: Seq<Seq<char>>) -> Seq<
    Seq<char>,
> {
    seq![
        "--no-warnings"@,
        "--no-conserve-memory"@,
        "--no-app-extensions"@,
        "--no-comments"@,
        "--no-names"@,
        "-o"@,
        output,
        "--delay"@,
        decimal(delay),
        "--loopcount=forever"@,
    ] + frames
}

/// Arguments of the lossless pass over freshly extracted frames.
pub open spec fn optimize_args_spec(input: Seq<char>, output: Seq<char>) -> Seq<Seq<char>> {
    seq!["-O3"@, input, "-o"@, output]
}

/// Arguments of the first pass over the untouched input.
pub open spec fn baseline_args_spec(input: Seq<char>, output: Seq<char>) -> Seq<Seq<char>> {
    seq!["-O3"@] + quiet_flags() + seq!["--careful"@, input, "-o"@, output]
}

/// Arguments of a lossy pass of strength `level`.
pub open spec fn lossy_args_spec(level: nat, input: Seq<char>, output: Seq<char>) -> Seq<Seq<char>> {
    seq!["-O3"@] + quiet_flags() + seq!["--lossy="@ + decimal(level), input, "-o"@, output]
}

pub open spec fn views(v: Seq<String>) -> Seq<Seq<char>> {
    v.map_values(|s: String| s@)
}

fn push_str(v: &mut Vec<String>, s: &str)
    ensures
        views(final(v)@) == views(old(v)@).push(s@),
{
    v.push(s.to_owned());
    assert(views(final(v)@) =~= views(old(v)@).push(s@));
}

fn push_string(v: &mut Vec<String>, s: String)
    ensures
        views(final(v)@) == views(old(v)@).push(s@),
{
    let ghost sv = s@;
    v.push(s);
    assert(views(final(v)@) =~= views(old(v)@).push(sv));
}

fn push_quiet(v: &mut Vec<String>)
    ensures
        views(final(v)@) == views(old(v)@) + quiet_flags(),
{
    push_str(v, "--no-warnings");
    push_str(v, "--no-conserve-memory");
    push_str(v, "--no-comments");
    push_str(v, "--no-names");
    assert(views(v@) =~= views(old(v)@) + quiet_flags());
}

/// Arguments that ask the compressor for its version.
pub fn probe_args() -> (r: Vec<String>)
    ensures
        views(r@) == probe_args_spec(),
{
    let mut v: Vec<String> = Vec::new();
    push_str(&mut v, "--version");
    assert(views(v@) =~= probe_args_spec());
    v
}

/// Arguments that join the frame files `frames` into the animation `output`.
pub fn merge_args(output: &str, delay: u16, frames: &Vec<String>) -> (r: Vec<String>)
    ensures
        views(r@) == merge_args_spec(output@, delay as nat, views(frames@)),
{
    let mut v: Vec<String> = Vec::new();
    push_str(&mut v, "--no-warnings");
    push_str(&mut v, "--no-conserve-memory");
    push_str(&mut v, "--no-app-extensions");
    push_str(&mut v, "--no-comments");
    push_str(&mut v, "--no-names");
    push_str(&mut v, "-o");
    push_str(&mut v, output);
    push_str(&mut v, "--delay");
    push_string(&mut v, decimal_string(delay as u64));
    push_str(&mut v, "--loopcount=forever");
    let ghost head = views(v@);
    let mut k: usize = 0;
    while k < frames.len()
        invariant
            k <= frames@.len(),
            views(v@) == head + views(frames@).subrange(0, k as int),
        decreases frames@.len() - k,
    {
        push_string(&mut v, frames[k].clone());
        assert(views(frames@).subrange(0, k + 1) =~= views(frames@).subrange(0, k as int).push(
            frames@[k as int]@,
        ));
        k = k + 1;
    }
    assert(views(frames@).subrange(0, k as int) =~= views(frames@));
    assert(views(v@) =~= merge_args_spec(output@, delay as nat, views(frames@)));
    v
}

/// Arguments of the lossless pass from `input` to `output`.
pub fn optimize_args(input: &str, output: &str) -> (r: Vec<String>)
    ensures
        views(r@) == optimize_args_spec(input@, output@),
{
    let mut v: Vec<String> = Vec::new();
    push_str(&mut v, "-O3");
    push_str(&mut v, input);
    push_str(&mut v, "-o");
    push_str(&mut v, output);
    assert(views(v@) =~= optimize_args_spec(input@, output@));
    v
}

/// Arguments of the first pass over the untouched `input`.
pub fn baseline_args(input: &str, output: &str) -> (r: Vec<String>)
    ensures
        views(r@) == baseline_args_spec(input@, output@),
{
    let mut v: Vec<String> = Vec::new();
    push_str(&mut v, "-O3");
    push_quiet(&mut v);
    push_str(&mut v, "--careful");
    push_str(&mut v, input);
    push_str(&mut v, "-o");
    push_str(&mut v, output);
    assert(views(v@) =~= baseline_args_spec(input@, output@));
    v
}

/// Arguments of a lossy pass of strength `level` from `input` to `output`.
pub fn lossy_args(level: u32, input: &str, output: &str) -> (r: Vec<String>)
    ensures
        views(r@) == lossy_args_spec(level as nat, input@, output@),
{
    let mut v: Vec<String> = Vec::new();
    push_str(&mut v, "-O3");
    push_quiet(&mut v);
    let flag = String::from_str("--lossy=").concat(decimal_string(level as u64).as_str());
    push_string(&mut v, flag);
    push_str(&mut v, input);
    push_str(&mut v, "-o");
    push_str(&mut v, output);
    assert(views(v@) =~= lossy_args_spec(level as nat, input@, output@));
    v
}

} // verus!
