//! Parsing of the internal command line: the first word names the
//! instruction, the rest is its parameter.

use crate::app::{State, StateView};
use crate::instructions::{self, Effect, EffectView, Instruction, InternalCommandView};
use crate::instructions::{spec_eval, view_result};
use crate::text::{chars_eq_str, chars_of, find_space, first_space_from, string_from_chars,
    subrange_chars};
use vstd::prelude::*;

verus! {

/// Which instruction a command line's first word names.
pub open spec fn spec_instruction_of(cmd: Seq<char>) -> Instruction {
    let head = cmd.take(first_space_from(cmd, 0));
    if head == "w"@ || head == "wo"@ {
        Instruction::WriteOut
    } else if head == "wc"@ {
        Instruction::WriteCmd
    } else if head == "r"@ {
        Instruction::Jq
    } else {
        Instruction::Unknown
    }
}

/// The raw parameter: everything after the first space, or empty when the
/// line holds a single word.
pub open spec fn spec_param_of(cmd: Seq<char>) -> Seq<char> {
    let j = first_space_from(cmd, 0);
    if j < cmd.len() {
        cmd.skip(j + 1)
    } else {
        Seq::<char>::empty()
    }
}

/// What running an internal command line asks of the host. An unrecognized
/// line reports the whole line back in its error message.
pub open spec fn spec_run_internal(cmd: Seq<char>, s: StateView) -> Result<
    EffectView,
    Seq<char>,
> {
    let inst = spec_instruction_of(cmd);
    spec_eval(
        InternalCommandView {
            inst,
            param: if inst is Unknown {
                cmd
            } else {
                spec_param_of(cmd)
            },
        },
        s,
    )
}

/// Parse and evaluate one internal command line against the session; an `Err`
/// carries the message shown in the internal command line.
pub fn run_internal(command: &str, state: &State) -> (r: Result<Effect, String>)
    ensures
        view_result(r) == spec_run_internal(command@, state@),
{
    let cs = chars_of(command);
    let j = find_space(&cs);
    let head = subrange_chars(&cs, 0, j);
    proof {
        assert(head@ =~= cs@.take(j as int));
    }
    let param_chars = if j < cs.len() {
        subrange_chars(&cs, j + 1, cs.len())
    } else {
        Vec::<char>::new()
    };
    proof {
        assert(param_chars@ =~= spec_param_of(command@));
    }
    let param = string_from_chars(&param_chars);
    let instruction = if chars_eq_str(&head, "w") || chars_eq_str(&head, "wo") {
        instructions::new(Instruction::WriteOut, param)
    } else if chars_eq_str(&head, "wc") {
        instructions::new(Instruction::WriteCmd, param)
    } else if chars_eq_str(&head, "r") {
        instructions::new(Instruction::Jq, param)
    } else {
        instructions::new(Instruction::Unknown, command.to_owned())
    };
    instruction.eval(state)
}

} // verus!
