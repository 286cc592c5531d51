//! The command-line surface: four required flags, each followed by its
//! value. The process argument list itself is read outside the library and
//! handed in as plain strings.

use vstd::prelude::*;

use crate::error::ParsingError;
use crate::strutil::opt_str_matches;
use crate::strutil::str_eq;

verus! {

/// The parsed command line: input and output locations and their formats.
#[derive(Debug)]
pub struct Cli {
    pub input: String,
    pub in_format: String,
    pub output: String,
    pub out_format: String,
}

pub open spec fn is_known_flag(a: Seq<char>) -> bool {
    a == "--input"@ || a == "--in-format"@ || a == "--output"@ || a == "--out-format"@
}

/// The value following the first occurrence of `flag`, scanning the
/// arguments as flag/value pairs.
pub open spec fn spec_arg_value(args: Seq<Seq<char>>, flag: Seq<char>) -> Option<Seq<char>>
    decreases args.len(),
{
    if args.len() < 2 {
        None
    } else if args[0] == flag {
        Some(args[1])
    } else {
        spec_arg_value(args.skip(2), flag)
    }
}

/// A well-formed argument list pairs every flag with a value, uses only the
/// four known flags, and names each of the four at least once.
pub open spec fn spec_args_ok(args: Seq<Seq<char>>) -> bool {
    &&& args.len() % 2 == 0
    &&& (forall|i: int| 0 <= i < args.len() && i % 2 == 0 ==> is_known_flag(#[trigger] args[i]))
    &&& spec_arg_value(args, "--input"@) is Some
    &&& spec_arg_value(args, "--in-format"@) is Some
    &&& spec_arg_value(args, "--output"@) is Some
    &&& spec_arg_value(args, "--out-format"@) is Some
}

proof fn lemma_arg_value_append(s: Seq<Seq<char>>, a: Seq<char>, b: Seq<char>, flag: Seq<char>)
    requires
        s.len() % 2 == 0,
    ensures
        spec_arg_value(s + seq![a, b], flag) == (match spec_arg_value(s, flag) {
            Some(v) => Some(v),
            None => if a == flag {
                Some(b)
            } else {
                None
            },
        }),
    decreases s.len(),
{
    let t = s + seq![a, b];
    if s.len() == 0 {
        assert(t.len() == 2);
        assert(t[0] == a && t[1] == b);
    } else {
        assert(s.len() >= 2);
        assert(t[0] == s[0]);
        assert(t[1] == s[1]);
        assert(t.skip(2) =~~= s.skip(2) + seq![a, b]);
        lemma_arg_value_append(s.skip(2), a, b, flag);
        if s[0] == flag {
            assert(spec_arg_value(s, flag) == Some(s[1]));
            assert(spec_arg_value(t, flag) == Some(t[1]));
        } else {
            assert(spec_arg_value(s, flag) == spec_arg_value(s.skip(2), flag));
            assert(spec_arg_value(t, flag) == spec_arg_value(t.skip(2), flag));
        }
    }
}

impl Cli {
    /// Parses the command-line arguments (the list after the program name)
    /// into the four required flag values. The first occurrence of a flag
    /// wins; an odd pairing, an unknown flag, or a missing required flag is
    /// rejected.
    #[verifier::loop_isolation(false)]
    pub fn parse_arg(args: &Vec<String>) -> (r: Result<Cli, ParsingError>)
        ensures
            match r {
                Ok(cli) => {
                    &&& spec_args_ok(args.deep_view())
                    &&& Some(cli.input@) == spec_arg_value(args.deep_view(), "--input"@)
                    &&& Some(cli.in_format@) == spec_arg_value(args.deep_view(), "--in-format"@)
                    &&& Some(cli.output@) == spec_arg_value(args.deep_view(), "--output"@)
                    &&& Some(cli.out_format@) == spec_arg_value(args.deep_view(), "--out-format"@)
                },
                Err(e) => {
                    &&& !spec_args_ok(args.deep_view())
                    &&& e matches ParsingError::ConversionError(m) && m@
                        == "Invalid command line arguments"@
                },
            },
    {
        let ghost dv = args.deep_view();
        let mut input: Option<String> = None;
        let mut in_format: Option<String> = None;
        let mut output: Option<String> = None;
        let mut out_format: Option<String> = None;
        let mut i: usize = 0;
        proof {
            assert(dv.take(0) =~~= Seq::<Seq<char>>::empty());
        }
        while i < args.len()
            invariant
                0 <= i <= dv.len(),
                i % 2 == 0,
                dv.len() == args@.len(),
                forall|j: int| 0 <= j < i && j % 2 == 0 ==> is_known_flag(#[trigger] dv[j]),
                opt_str_matches(input, spec_arg_value(dv.take(i as int), "--input"@)),
                opt_str_matches(in_format, spec_arg_value(dv.take(i as int), "--in-format"@)),
                opt_str_matches(output, spec_arg_value(dv.take(i as int), "--output"@)),
                opt_str_matches(out_format, spec_arg_value(dv.take(i as int), "--out-format"@)),
            decreases dv.len() - i,
        {
            if i + 1 >= args.len() {
                // a flag without a value: the list has odd length
                proof {
                    assert(dv.len() % 2 == 1);
                }
                return Err(
                    ParsingError::ConversionError(
                        String::from_str("Invalid command line arguments"),
                    ),
                );
            }
            let flag = &args[i];
            let value = &args[i + 1];
            let known = str_eq(flag.as_str(), "--input") || str_eq(flag.as_str(), "--in-format")
                || str_eq(flag.as_str(), "--output") || str_eq(flag.as_str(), "--out-format");
            if !known {
                proof {
                    assert(dv[i as int] == args@[i as int]@);
                    assert(!is_known_flag(dv[i as int]));
                }
                return Err(
                    ParsingError::ConversionError(
                        String::from_str("Invalid command line arguments"),
                    ),
                );
            }
            proof {
                reveal_strlit("--input");
                reveal_strlit("--in-format");
                reveal_strlit("--output");
                reveal_strlit("--out-format");
                assert("--input"@.len() == 7);
                assert("--in-format"@.len() == 11);
                assert("--output"@.len() == 8);
                assert("--out-format"@.len() == 12);
                let pre = dv.take(i as int);
                let post = dv.take(i as int + 2);
                assert(post =~~= pre + seq![dv[i as int], dv[i as int + 1]]);
                lemma_arg_value_append(pre, dv[i as int], dv[i as int + 1], "--input"@);
                lemma_arg_value_append(pre, dv[i as int], dv[i as int + 1], "--in-format"@);
                lemma_arg_value_append(pre, dv[i as int], dv[i as int + 1], "--output"@);
                lemma_arg_value_append(pre, dv[i as int], dv[i as int + 1], "--out-format"@);
                assert(dv[i as int] == args@[i as int]@);
                assert(dv[i as int + 1] == args@[i as int + 1]@);
            }
            if str_eq(flag.as_str(), "--input") {
                if input.is_none() {
                    input = Some(value.clone());
                }
            } else if str_eq(flag.as_str(), "--in-format") {
                if in_format.is_none() {
                    in_format = Some(value.clone());
                }
            } else if str_eq(flag.as_str(), "--output") {
                if output.is_none() {
                    output = Some(value.clone());
                }
            } else {
                if out_format.is_none() {
                    out_format = Some(value.clone());
                }
            }
            i += 2;
        }
        proof {
            assert(dv.take(dv.len() as int) =~~= dv);
        }
        match (input, in_format, output, out_format) {
            (Some(input), Some(in_format), Some(output), Some(out_format)) => Ok(
                Cli { input, in_format, output, out_format },
            ),
            _ => Err(
                ParsingError::ConversionError(String::from_str("Invalid command line arguments")),
            ),
        }
    }
}

} // verus!
