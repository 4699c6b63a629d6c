//! Commands for amusement.

use crate::commands::music::number_at;
use crate::commands::music::uint_argument;
use crate::parser::command::CommandWithData;
use vstd::prelude::*;

verus! {

/// The most jumps that one command may ask for.
pub const MAX_JUMPS: u32 = 10;

/// How many jumps a command asks for: its number, or one where it gives
/// none.
pub open spec fn jumps_asked(c: CommandWithData) -> u32 {
    match number_at(c, 0) {
        Some(n) => n,
        None => 1,
    }
}

/// How many coins a jump command needs tossed: one for each jump, none where
/// it asks for too many.
pub open spec fn jumps_granted(c: CommandWithData) -> nat {
    if jumps_asked(c) <= MAX_JUMPS {
        jumps_asked(c) as nat
    } else {
        0
    }
}

/// How many coins to toss for a jump command.
pub fn jump_tosses(c: &CommandWithData) -> (n: usize)
    ensures
        n == jumps_granted(*c),
{
    let asked: u32 = match uint_argument(c, 0) {
        Some(n) => n,
        None => 1,
    };
    if asked <= MAX_JUMPS {
        asked as usize
    } else {
        0
    }
}

/// The answer to one jump, by the coin that was tossed for it.
pub open spec fn jump_line(made_it: bool) -> Seq<char> {
    if made_it {
        "YOU MADE THE JUMP!!! YOURE SO AWESOME. HERE'S THE BEEF."@
    } else {
        "CONGRATULATIONS, YOU'VE DROPPED YOURSELF INTO NOOB JAIL, DUMBASS."@
    }
}

/// The answers to a jump command, given the coins that were tossed for it:
/// one answer per jump, or a single refusal where it asks for too many.
pub fn jump(c: &CommandWithData, tosses: &Vec<bool>) -> (replies: Vec<String>)
    requires
        tosses@.len() == jumps_granted(*c),
    ensures
        jumps_asked(*c) <= MAX_JUMPS ==> replies@.len() == tosses@.len() && forall|i: int|
            0 <= i < replies@.len() ==> (#[trigger] replies@[i])@ == jump_line(tosses@[i]),
        jumps_asked(*c) > MAX_JUMPS ==> replies@.len() == 1 && replies@[0]@
            == "YOU TOOK THE FIZZY LIFTING DRINKS. YOU LOSE. GOOD DAY TO YOU."@,
{
    let mut replies: Vec<String> = Vec::new();
    let asked: u32 = match uint_argument(c, 0) {
        Some(n) => n,
        None => 1,
    };
    if asked > MAX_JUMPS {
        replies.push(String::from_str("YOU TOOK THE FIZZY LIFTING DRINKS. YOU LOSE. GOOD DAY TO YOU."));
        return replies;
    }
    let mut i: usize = 0;
    while i < tosses.len()
        invariant
            i <= tosses@.len(),
            replies@.len() == i,
            forall|k: int| 0 <= k < i ==> (#[trigger] replies@[k])@ == jump_line(tosses@[k]),
        decreases tosses@.len() - i,
    {
        if tosses[i] {
            replies.push(String::from_str("YOU MADE THE JUMP!!! YOURE SO AWESOME. HERE'S THE BEEF."));
        } else {
            replies.push(
                String::from_str("CONGRATULATIONS, YOU'VE DROPPED YOURSELF INTO NOOB JAIL, DUMBASS."),
            );
        }
        i = i + 1;
    }
    replies
}

} // verus!
