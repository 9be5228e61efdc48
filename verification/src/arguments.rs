//! Prefix-command argument parsing: the rank command's arguments.
//!
//! The rank is given as the last argument, either as a plain positive
//! number or as a two-letter country acronym followed by a number, as in
//! `be10`; an optional player name may precede it.

use crate::numbers::{parse_usize, push_char, spec_parse_usize};
use vstd::prelude::*;

verus! {

/// Whether `c` is an ASCII letter.
pub open spec fn is_ascii_letter(c: char) -> bool {
    (65 <= c as u32 <= 90) || (97 <= c as u32 <= 122)
}

/// Whether every character of `s` is an ASCII letter.
pub open spec fn all_ascii_letters(s: Seq<char>) -> bool {
    forall|k: int| 0 <= k < s.len() ==> is_ascii_letter(#[trigger] s[k])
}

/// `c` with an ASCII lower-case letter turned upper case.
pub open spec fn upper_char(c: char) -> char {
    if 97 <= c as u32 <= 122 {
        ((c as u32 - 32) as u8) as char
    } else {
        c
    }
}

/// `s` with ASCII lower-case letters turned upper case.
pub open spec fn spec_upper(s: Seq<char>) -> Seq<char> {
    s.map(|i: int, c: char| upper_char(c))
}

/// What the last argument of a rank command denotes.
pub enum RankParse {
    /// A plain rank.
    Plain(int),
    /// A two-letter country acronym, upper-cased, and a rank.
    WithCountry(Seq<char>, int),
    /// Not a rank in either form.
    RankInvalid,
    /// The rank part parses but the country part is not two letters.
    CountryInvalid,
}

/// How the last argument parses: a plain number is a rank; otherwise the
/// first two characters name a country and the rest must be a number.
pub open spec fn spec_parse_rank(arg: Seq<char>) -> RankParse {
    match spec_parse_usize(arg) {
        Some(n) => RankParse::Plain(n),
        None => if arg.len() < 3 {
            RankParse::RankInvalid
        } else {
            match spec_parse_usize(arg.skip(2)) {
                Some(n) => if all_ascii_letters(arg.take(2)) {
                    RankParse::WithCountry(spec_upper(arg.take(2)), n)
                } else {
                    RankParse::CountryInvalid
                },
                None => RankParse::RankInvalid,
            }
        },
    }
}

/// Arguments of the rank command.
#[derive(Debug)]
pub struct RankArgs {
    /// The player to look at; the caller resolves a missing name through
    /// the account link table.
    pub name: Option<String>,
    /// Country acronym, upper-cased, when the rank is country-scoped.
    pub country: Option<String>,
    /// The requested rank.
    pub rank: usize,
}

/// Whether `c` is an ASCII letter.
fn ascii_letter(c: char) -> (r: bool)
    ensures
        r == is_ascii_letter(c),
{
    let cv = c as u32;
    (65 <= cv && cv <= 90) || (97 <= cv && cv <= 122)
}

/// Upper-cases one ASCII letter.
fn to_upper(c: char) -> (r: char)
    ensures
        r == upper_char(c),
{
    let cv = c as u32;
    if 97 <= cv && cv <= 122 {
        ((cv - 32) as u8) as char
    } else {
        c
    }
}

impl RankArgs {
    /// Parses the rank command's arguments: the last one carries the rank,
    /// plain or with a two-letter country acronym; a preceding argument, if
    /// any, names the player. Each malformed input is rejected with the
    /// reason shown to the user.
    pub fn new(args: Vec<String>) -> (r: Result<RankArgs, &'static str>)
        ensures
            args@.len() == 0 ==> (r matches Err(m) && m@
                == "No rank argument found. Provide it either as positive number or as country acronym followed by a positive number e.g. `be10`."@),
            args@.len() > 0 ==> match spec_parse_rank(args@.last()@) {
                RankParse::Plain(n) => r matches Ok(a) && a.rank == n && a.country is None
                    && a.name == (if args@.len() >= 2 {
                    Some(args@[0])
                } else {
                    None::<String>
                }),
                RankParse::WithCountry(c, n) => r matches Ok(a) && a.rank == n && (
                a.country matches Some(cc) && cc@ == c) && a.name == (if args@.len() >= 2 {
                    Some(args@[0])
                } else {
                    None::<String>
                }),
                RankParse::RankInvalid => r matches Err(m) && m@
                    == "Could not parse rank. Provide it either as positive number or as country acronym followed by a positive number e.g. `be10`."@,
                RankParse::CountryInvalid => r matches Err(m) && m@
                    == "Could not parse country. Be sure to specify it with two letters, e.g. `be10`."@,
            },
    {
        if args.len() == 0 {
            return Err(
                "No rank argument found. Provide it either as positive number or as country acronym followed by a positive number e.g. `be10`.",
            );
        }
        let last = &args[args.len() - 1];
        let arg = last.as_str();
        let (country, rank) = match parse_usize(arg) {
            Some(num) => (None, num),
            None => {
                let n = arg.unicode_len();
                if n < 3 {
                    return Err(
                        "Could not parse rank. Provide it either as positive number or as country acronym followed by a positive number e.g. `be10`.",
                    );
                }
                let num_part = arg.substring_char(2, n);
                match parse_usize(num_part) {
                    Some(num) => {
                        let c0 = arg.get_char(0);
                        let c1 = arg.get_char(1);
                        if ascii_letter(c0) && ascii_letter(c1) {
                            let mut country = String::new();
                            push_char(&mut country, to_upper(c0));
                            push_char(&mut country, to_upper(c1));
                            proof {
                                assert(all_ascii_letters(arg@.take(2))) by {
                                    assert(arg@.take(2)[0] == c0 && arg@.take(2)[1] == c1);
                                }
                                assert(country@ =~= spec_upper(arg@.take(2)));
                            }
                            (Some(country), num)
                        } else {
                            proof {
                                assert(!all_ascii_letters(arg@.take(2))) by {
                                    assert(arg@.take(2)[0] == c0 && arg@.take(2)[1] == c1);
                                }
                            }
                            return Err(
                                "Could not parse country. Be sure to specify it with two letters, e.g. `be10`.",
                            );
                        }
                    },
                    None => {
                        return Err(
                            "Could not parse rank. Provide it either as positive number or as country acronym followed by a positive number e.g. `be10`.",
                        );
                    },
                }
            },
        };
        let name = if args.len() >= 2 {
            Some(args[0].clone())
        } else {
            None
        };
        Ok(RankArgs { name, country, rank })
    }
}

} // verus!
