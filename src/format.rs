use vstd::prelude::*;
use vstd::string::StringExecFns;
use crate::record::Record;

verus! {

/// The decimal digit `d`, for `d < 10`.
pub open spec fn digit_char(d: nat) -> char {
    if d == 0 { '0' } else if d == 1 { '1' } else if d == 2 { '2' } else if d == 3 { '3' }
    else if d == 4 { '4' } else if d == 5 { '5' } else if d == 6 { '6' } else if d == 7 { '7' }
    else if d == 8 { '8' } else { '9' }
}

/// The decimal digits of `n`, most significant first, with no leading zero.
pub open spec fn decimal(n: nat) -> Seq<char>
    decreases n,
{
    if n < 10 {
        seq![digit_char(n)]
    } else {
        decimal(n / 10) + seq![digit_char(n % 10)]
    }
}

/// `"{level}: {message}"`.
pub open spec fn simple_text(r: Record) -> Seq<char> {
    r.level.name_spec() + ": "@ + r.message@
}

/// The file name that the detail format prints.
pub open spec fn file_text(file: Option<String>) -> Seq<char> {
    match file {
        Some(f) => f@,
        None => "<unknown>"@,
    }
}

/// The line number that the detail format prints.
pub open spec fn line_number(line: Option<u32>) -> nat {
    match line {
        Some(n) => n as nat,
        None => 0,
    }
}

/// `"{level}: {message} ({file}({line}))"`, with `<unknown>` and `0` for a
/// missing file and line.
pub open spec fn detail_text(r: Record) -> Seq<char> {
    r.level.name_spec() + ": "@ + r.message@ + " ("@ + file_text(r.file) + "("@
        + decimal(line_number(r.line)) + "))"@
}

fn digit_str(d: u32) -> (r: &'static str)
    requires
        d < 10,
    ensures
        r@ == seq![digit_char(d as nat)],
{
    proof {
        reveal_strlit("0");
        reveal_strlit("1");
        reveal_strlit("2");
        reveal_strlit("3");
        reveal_strlit("4");
        reveal_strlit("5");
        reveal_strlit("6");
        reveal_strlit("7");
        reveal_strlit("8");
        reveal_strlit("9");
    }
    match d {
        0 => "0",
        1 => "1",
        2 => "2",
        3 => "3",
        4 => "4",
        5 => "5",
        6 => "6",
        7 => "7",
        8 => "8",
        _ => "9",
    }
}

/// Appends the decimal digits of `n` to `out`.
pub fn push_decimal(out: &mut String, n: u32)
    ensures
        final(out)@ == old(out)@ + decimal(n as nat),
    decreases n,
{
    if n >= 10 {
        push_decimal(out, n / 10);
    }
    out.append(digit_str(n % 10));
    assert(final(out)@ =~= old(out)@ + decimal(n as nat));
}

/// Renders `r` as `"{level}: {message}"`.
pub fn simple(r: &Record) -> (s: String)
    ensures
        s@ == simple_text(*r),
{
    let mut s = String::new();
    s.append(r.level.name());
    s.append(": ");
    s.append(r.message.as_str());
    proof {
        reveal_strlit(": ");
    }
    s
}

/// Renders `r` as `"{level}: {message} ({file}({line}))"`.
pub fn detail(r: &Record) -> (s: String)
    ensures
        s@ == detail_text(*r),
{
    proof {
        reveal_strlit(": ");
        reveal_strlit(" (");
        reveal_strlit("<unknown>");
        reveal_strlit("(");
        reveal_strlit("))");
    }
    let mut s = String::new();
    s.append(r.level.name());
    s.append(": ");
    s.append(r.message.as_str());
    s.append(" (");
    match &r.file {
        Some(f) => s.append(f.as_str()),
        None => s.append("<unknown>"),
    }
    s.append("(");
    let line: u32 = match r.line {
        Some(n) => n,
        None => 0,
    };
    push_decimal(&mut s, line);
    s.append("))");
    s
}

} // verus!
