use vstd::prelude::*;

verus! {

/// Splits a source location into a file of this crate (group 1) or the name of a dependency
/// from the cargo registry (group 2).
pub const LOCATION_PATTERN: &'static str = r"^src/(.*)$|^/.*/.cargo/registry/src/[^/]+/([^/]+)/";

/// Capture groups 1 and 2 of `pattern` on `text`, or `None` when it does not match.
pub uninterp spec fn regex_groups(pattern: Seq<char>, text: Seq<char>) -> Option<
    (Option<Seq<char>>, Option<Seq<char>>),
>;

pub open spec fn opt_text(s: Option<String>) -> Option<Seq<char>> {
    match s {
        Some(t) => Some(t@),
        None => None,
    }
}

pub open spec fn groups_text(g: Option<(Option<String>, Option<String>)>) -> Option<
    (Option<Seq<char>>, Option<Seq<char>>),
> {
    match g {
        Some((a, b)) => Some((opt_text(a), opt_text(b))),
        None => None,
    }
}

/// Relies on regex::Regex::new and regex::Regex::captures: compiles `pattern` and hands out
/// capture groups 1 and 2 of its match on `text`, if any; the result depends on the two
/// strings alone.
#[verifier::external_body]
fn capture_two_groups(pattern: &str, text: &str) -> (r: Option<(Option<String>, Option<String>)>)
    ensures
        groups_text(r) == regex_groups(pattern@, text@),
{
    let re = regex::Regex::new(pattern).ok()?;
    let caps = re.captures(text)?;
    Some((caps.get(1).map(|m| m.as_str().to_string()), caps.get(2).map(|m| m.as_str().to_string())))
}

pub open spec fn digit_char(d: nat) -> char {
    seq!['0', '1', '2', '3', '4', '5', '6', '7', '8', '9'][d as int]
}

/// The decimal digits of `n`, most significant first.
pub open spec fn decimal(n: nat) -> Seq<char>
    decreases n,
{
    if n < 10 {
        seq![digit_char(n)]
    } else {
        decimal(n / 10) + seq![digit_char(n % 10)]
    }
}

/// How a log line names where it came from: a file of this crate with its line, a dependency
/// by name alone, or else the whole path with its line.
pub open spec fn location_text(
    path: Seq<char>,
    line: u32,
    groups: Option<(Option<Seq<char>>, Option<Seq<char>>)>,
) -> Seq<char> {
    match groups {
        Some((Some(file), _)) => file + seq![':'] + decimal(line as nat),
        Some((None, Some(lib))) => seq!['<'] + lib + seq!['>'],
        _ => path + seq![':'] + decimal(line as nat),
    }
}

fn digit_str(d: u32) -> (r: &'static str)
    requires
        d < 10,
    ensures
        r@ == seq![digit_char(d as nat)],
{
    proof {
        reveal_strlit("0");
        reveal_strlit("1");
        reveal_strlit("2");
        reveal_strlit("3");
        reveal_strlit("4");
        reveal_strlit("5");
        reveal_strlit("6");
        reveal_strlit("7");
        reveal_strlit("8");
        reveal_strlit("9");
    }
    match d {
        0 => "0",
        1 => "1",
        2 => "2",
        3 => "3",
        4 => "4",
        5 => "5",
        6 => "6",
        7 => "7",
        8 => "8",
        _ => "9",
    }
}

/// Appends the decimal digits of `n`.
fn push_decimal(s: &mut String, n: u32)
    ensures
        final(s)@ == old(s)@ + decimal(n as nat),
    decreases n,
{
    if n >= 10 {
        push_decimal(s, n / 10);
    }
    s.append(digit_str(n % 10));
    proof {
        if n >= 10 {
            assert(final(s)@ == old(s)@ + decimal((n / 10) as nat) + seq![digit_char((n % 10) as nat)]);
        }
    }
}

/// Appends `:` and the decimal digits of `line`.
fn push_line(s: &mut String, line: u32)
    ensures
        final(s)@ == old(s)@ + seq![':'] + decimal(line as nat),
{
    s.append(":");
    proof {
        reveal_strlit(":");
    }
    push_decimal(s, line);
}

/// The location text for `path` and `line`, given capture groups 1 and 2 of the location
/// pattern on `path` (`None` when it did not match).
pub fn format_location(path: &str, line: u32, groups: Option<(Option<String>, Option<String>)>) -> (r:
    String)
    ensures
        r@ == location_text(path@, line, groups_text(groups)),
{
    match groups {
        Some((Some(file), _)) => {
            let mut out = file;
            push_line(&mut out, line);
            out
        },
        Some((None, Some(lib))) => {
            let mut out = String::from_str("<");
            out.append(lib.as_str());
            out.append(">");
            proof {
                reveal_strlit("<");
                reveal_strlit(">");
            }
            out
        },
        _ => {
            let mut out = String::from_str(path);
            push_line(&mut out, line);
            out
        },
    }
}

/// How a log line names the source location `path`, `line`: `file:line` for a file of this
/// crate, `<name>` for a dependency from the cargo registry, else `path:line`.
pub fn format_path(path: &str, line: u32) -> (r: String)
    ensures
        r@ == location_text(path@, line, regex_groups(LOCATION_PATTERN@, path@)),
{
    let groups = capture_two_groups(LOCATION_PATTERN, path);
    format_location(path, line, groups)
}

} // verus!
