use vstd::prelude::*;
use vstd::string::StringExecFns;

verus! {

/// The character of a decimal digit.
pub open spec fn digit_char(d: nat) -> char {
    seq!['0', '1', '2', '3', '4', '5', '6', '7', '8', '9'][d as int]
}

/// The decimal notation of `n`, without leading zeros.
pub open spec fn decimal(n: nat) -> Seq<char>
    decreases n,
{
    if n < 10 {
        seq![digit_char(n)]
    } else {
        decimal(n / 10).push(digit_char(n % 10))
    }
}

/// `recording_<millis>.<ext>`: the default name of a recording made at `millis`
/// milliseconds after the Unix epoch.
pub open spec fn recording_name(millis: nat, ext: Seq<char>) -> Seq<char> {
    "recording_"@ + decimal(millis) + "."@ + ext
}

fn digit_str(d: u64) -> (r: &'static str)
    requires
        d < 10,
    ensures
        r@ == seq![digit_char(d as nat)],
{
    proof {
        reveal_strlit("0");
        reveal_strlit("1");
        reveal_strlit("2");
        reveal_strlit("3");
        reveal_strlit("4");
        reveal_strlit("5");
        reveal_strlit("6");
        reveal_strlit("7");
        reveal_strlit("8");
        reveal_strlit("9");
    }
    match d {
        0 => "0",
        1 => "1",
        2 => "2",
        3 => "3",
        4 => "4",
        5 => "5",
        6 => "6",
        7 => "7",
        8 => "8",
        _ => "9",
    }
}

/// Appends the decimal notation of `n` to `s`.
pub fn push_decimal(s: &mut String, n: u64)
    ensures
        final(s)@ == old(s)@ + decimal(n as nat),
    decreases n,
{
    if n >= 10 {
        push_decimal(s, n / 10);
    }
    s.append(digit_str(n % 10));
    proof {
        if n >= 10 {
            assert(decimal(n as nat) == decimal((n / 10) as nat).push(digit_char((n % 10) as nat)));
        }
    }
    assert(final(s)@ =~= old(s)@ + decimal(n as nat));
}

/// The default file name of a recording made at `millis` milliseconds after the
/// Unix epoch, with extension `ext` (`wav` for captured audio).
pub fn recording_file_name(millis: u64, ext: &str) -> (r: String)
    ensures
        r@ == recording_name(millis as nat, ext@),
{
    let mut s = String::from_str("recording_");
    push_decimal(&mut s, millis);
    s.append(".");
    s.append(ext);
    s
}

/// The name under which an already encoded audio blob is saved: the name the
/// caller gave, or else the default `recording_<millis>.webm`.
pub fn web_audio_file_name(filename: Option<String>, millis: u64) -> (r: String)
    ensures
        r@ == match filename {
            Some(f) => f@,
            None => recording_name(millis as nat, "webm"@),
        },
{
    match filename {
        Some(f) => f,
        None => recording_file_name(millis, "webm"),
    }
}

/// The output directory, as the components to join in order: the home directory
/// (`home`, else `profile`) followed by `Desktop` and `Actura`, or, when neither
/// is known, the temporary directory followed by `Actura`.
pub fn output_dir_parts(home: Option<String>, profile: Option<String>, temp: String) -> (r: Vec<String>)
    ensures
        match (home, profile) {
            (Some(h), _) | (None, Some(h)) => r@.len() == 3 && r@[0]@ == h@
                && r@[1]@ == "Desktop"@ && r@[2]@ == "Actura"@,
            (None, None) => r@.len() == 2 && r@[0]@ == temp@ && r@[1]@ == "Actura"@,
        },
{
    let base = match home {
        Some(h) => Some(h),
        None => profile,
    };
    let mut parts: Vec<String> = Vec::new();
    match base {
        Some(h) => {
            parts.push(h);
            parts.push(String::from_str("Desktop"));
        },
        None => {
            parts.push(temp);
        },
    }
    parts.push(String::from_str("Actura"));
    parts
}

} // verus!
