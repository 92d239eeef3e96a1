//! Command-line flag lookup for the endpoint tool.
use vstd::prelude::*;
use vstd::string::StringSliceAdditionalSpecFns;

verus! {

/// Why a flag could not be read.
#[derive(Debug, Clone, PartialEq, Eq)]
pub enum ArgError {
    /// The flag never occurs with a value.
    MissingArgument(String),
    /// The flag occurs last, with no value after it.
    MissingValue(String),
    /// The flag's value is not an unsigned 64-bit integer.
    NotUnsigned(String),
}

/// The texts of the arguments.
pub open spec fn arg_texts(args: Seq<String>) -> Seq<Seq<char>> {
    args.map_values(|s: String| s@)
}

/// The value after the first occurrence of `flag`, at or after `i`, that has
/// one.
pub open spec fn flag_value_from(args: Seq<Seq<char>>, flag: Seq<char>, i: int) -> Option<Seq<char>>
    decreases args.len() - i,
{
    if i < 0 || i >= args.len() {
        None
    } else if args[i] == flag && i + 1 < args.len() {
        Some(args[i + 1])
    } else {
        flag_value_from(args, flag, i + 1)
    }
}

/// The values of every occurrence of `flag` from `i` on, each occurrence
/// consuming the argument after it; `false` when an occurrence is last.
pub open spec fn flag_values_from(args: Seq<Seq<char>>, flag: Seq<char>, i: int) -> (bool, Seq<Seq<char>>)
    decreases args.len() - i,
{
    if i < 0 || i >= args.len() {
        (true, Seq::empty())
    } else if args[i] == flag {
        if i + 1 >= args.len() {
            (false, Seq::empty())
        } else {
            let rest = flag_values_from(args, flag, i + 2);
            (rest.0, seq![args[i + 1]] + rest.1)
        }
    } else {
        flag_values_from(args, flag, i + 1)
    }
}

/// The text of `flag` as a `String`.
fn owned_flag(flag: &str) -> (s: String)
    ensures
        s@ == flag@,
{
    flag.to_owned()
}

/// The value after the first occurrence of `flag` that has one.
pub fn optional_arg(args: &[String], flag: &str) -> (r: Option<String>)
    ensures
        match flag_value_from(arg_texts(args@), flag@, 0) {
            Some(v) => r matches Some(s) && s@ == v,
            None => r is None,
        },
{
    let f = owned_flag(flag);
    let ghost a = arg_texts(args@);
    let mut i: usize = 0;
    while i < args.len()
        invariant
            0 <= i <= args@.len(),
            a == arg_texts(args@),
            f@ == flag@,
            flag_value_from(a, flag@, 0) == flag_value_from(a, flag@, i as int),
        decreases args@.len() - i,
    {
        if args[i] == f && i + 1 < args.len() {
            assert(a[i as int] == args@[i as int]@);
            return Some(args[i + 1].clone());
        }
        assert(a[i as int] == args@[i as int]@);
        i += 1;
    }
    None
}

/// The value after the first occurrence of `flag` that has one.
pub fn require_arg(args: &[String], flag: &str) -> (r: Result<String, ArgError>)
    ensures
        match flag_value_from(arg_texts(args@), flag@, 0) {
            Some(v) => r matches Ok(s) && s@ == v,
            None => r matches Err(ArgError::MissingArgument(f)) && f@ == flag@,
        },
{
    match optional_arg(args, flag) {
        Some(v) => Ok(v),
        None => Err(ArgError::MissingArgument(owned_flag(flag))),
    }
}

/// Every value given with `flag` (repeatable, at least one): refused when
/// an occurrence has no value after it, or when the flag never occurs.
pub fn collect_required_values(args: &[String], flag: &str) -> (r: Result<Vec<String>, ArgError>)
    ensures
        ({
            let scan = flag_values_from(arg_texts(args@), flag@, 0);
            if !scan.0 {
                r matches Err(ArgError::MissingValue(f)) && f@ == flag@
            } else if scan.1.len() == 0 {
                r matches Err(ArgError::MissingArgument(f)) && f@ == flag@
            } else {
                r matches Ok(vs) && arg_texts(vs@) == scan.1
            }
        }),
{
    let f = owned_flag(flag);
    let ghost a = arg_texts(args@);
    let mut values: Vec<String> = Vec::new();
    let mut i: usize = 0;
    while i < args.len()
        invariant
            0 <= i <= args@.len() + 1,
            a == arg_texts(args@),
            f@ == flag@,
            flag_values_from(a, flag@, 0) == (flag_values_from(a, flag@, i as int).0, arg_texts(values@)
                + flag_values_from(a, flag@, i as int).1),
        decreases args@.len() + 1 - i,
    {
        assert(a[i as int] == args@[i as int]@);
        if args[i] == f {
            if i + 1 >= args.len() {
                return Err(ArgError::MissingValue(f));
            }
            let ghost before = values@;
            values.push(args[i + 1].clone());
            proof {
                let rest = flag_values_from(a, flag@, i + 2);
                assert(arg_texts(values@) =~= arg_texts(before).push(a[i + 1]));
                assert(arg_texts(values@) + rest.1 =~= arg_texts(before) + (seq![a[i + 1]] + rest.1));
            }
            i += 2;
        } else {
            i += 1;
        }
    }
    proof {
        assert(flag_values_from(a, flag@, i as int) == (true, Seq::<Seq<char>>::empty()));
        assert(arg_texts(values@) + Seq::<Seq<char>>::empty() =~= arg_texts(values@));
    }
    if values.len() == 0 {
        return Err(ArgError::MissingArgument(f));
    }
    Ok(values)
}

/// Every `--relay <addr>` occurrence (one or more).
pub fn collect_relays(args: &[String]) -> (r: Result<Vec<String>, ArgError>)
    ensures
        ({
            let scan = flag_values_from(arg_texts(args@), "--relay"@, 0);
            if !scan.0 {
                r matches Err(ArgError::MissingValue(f)) && f@ == "--relay"@
            } else if scan.1.len() == 0 {
                r matches Err(ArgError::MissingArgument(f)) && f@ == "--relay"@
            } else {
                r matches Ok(vs) && arg_texts(vs@) == scan.1
            }
        }),
{
    collect_required_values(args, "--relay")
}

/// The value of a decimal digit character, if it is one.
pub open spec fn is_digit(c: char) -> bool {
    ('0' as int) <= (c as int) <= ('9' as int)
}

/// The value of a string of decimal digits.
pub open spec fn decimal_value(s: Seq<char>) -> int
    decreases s.len(),
{
    if s.len() == 0 {
        0
    } else {
        decimal_value(s.drop_last()) * 10 + (s.last() as int - '0' as int)
    }
}

/// What `str::parse::<u64>` gives: an optional `+` then one or more decimal
/// digits whose value fits in 64 bits.
pub open spec fn spec_parse_u64(s: Seq<char>) -> Option<u64> {
    let d = if s.len() > 0 && s[0] == '+' { s.drop_first() } else { s };
    if d.len() > 0 && (forall|i: int| 0 <= i < d.len() ==> #[trigger] is_digit(d[i])) && decimal_value(d) <= u64::MAX {
        Some(decimal_value(d) as u64)
    } else {
        None
    }
}

/// `str::parse::<u64>`. Trusted: std documents the accepted text as an
/// optional `+` followed by decimal digits whose value fits.
#[verifier::external_body]
fn parse_u64_text(s: &str) -> (r: Option<u64>)
    ensures
        r == spec_parse_u64(s@),
{
    s.parse::<u64>().ok()
}

/// The unsigned integer value of `flag`.
pub fn parse_u64_arg(args: &[String], flag: &str) -> (r: Result<u64, ArgError>)
    ensures
        match flag_value_from(arg_texts(args@), flag@, 0) {
            None => r matches Err(ArgError::MissingArgument(f)) && f@ == flag@,
            Some(v) => match spec_parse_u64(v) {
                Some(n) => r == Ok::<u64, ArgError>(n),
                None => r matches Err(ArgError::NotUnsigned(f)) && f@ == flag@,
            },
        },
{
    let text = require_arg(args, flag)?;
    match parse_u64_text(text.as_str()) {
        Some(n) => Ok(n),
        None => Err(ArgError::NotUnsigned(owned_flag(flag))),
    }
}

} // verus!
