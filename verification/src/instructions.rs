//! The internal command grammar: a parsed instruction decides what the host
//! must do (write a file, re-run the query) or which error to show. The
//! dashboard's internal line understands `r` (re-run), `w [file]` (write the
//! output pane) and `wc [file]` (write the query text).

use crate::app::{State, StateView};
use crate::command::spec_displayed;
use vstd::prelude::*;
use vstd::string::StringExecFns;

verus! {

/// The kinds of internal command.
#[derive(Clone, Copy, Debug, PartialEq, Eq, Structural)]
pub enum Instruction {
    Unknown,
    Jq,
    WriteOut,
    WriteCmd,
}

/// What the host must do for an internal command that needs a collaborator.
#[derive(Debug)]
pub enum Effect {
    /// Write `content` to the file `filename` in the working directory.
    Write { filename: String, content: String },
    /// Re-run the current query and show its result in the output pane.
    Rerun,
}

/// Spec-level value of an [`Effect`].
#[verifier::ext_equal]
pub ghost enum EffectView {
    Write { filename: Seq<char>, content: Seq<char> },
    Rerun,
}

impl View for Effect {
    type V = EffectView;

    open spec fn view(&self) -> EffectView {
        match self {
            Effect::Write { filename, content } => EffectView::Write {
                filename: filename@,
                content: content@,
            },
            Effect::Rerun => EffectView::Rerun,
        }
    }
}

/// A `Result` of evaluation, at the spec level.
pub open spec fn view_result(r: Result<Effect, String>) -> Result<EffectView, Seq<char>> {
    match r {
        Ok(e) => Ok(e@),
        Err(m) => Err(m@),
    }
}

/// A parsed internal command: its kind and its raw parameter.
pub struct InternalCommand {
    inst: Instruction,
    param: String,
}

/// Spec-level value of an [`InternalCommand`].
#[verifier::ext_equal]
pub ghost struct InternalCommandView {
    pub inst: Instruction,
    pub param: Seq<char>,
}

impl View for InternalCommand {
    type V = InternalCommandView;

    closed spec fn view(&self) -> InternalCommandView {
        InternalCommandView { inst: self.inst, param: self.param@ }
    }
}

/// Pack an instruction with its parameter.
pub fn new(inst: Instruction, param: String) -> (c: InternalCommand)
    ensures
        c@ == (InternalCommandView { inst: inst, param: param@ }),
{
    InternalCommand { inst, param }
}

/// What evaluating an internal command asks of the host: which file to write
/// with which content, a re-run, or the error message to display.
pub open spec fn spec_eval(c: InternalCommandView, s: StateView) -> Result<EffectView, Seq<char>> {
    match c.inst {
        Instruction::WriteOut => Ok(
            EffectView::Write {
                filename: if c.param.len() > 0 {
                    c.param
                } else {
                    "ijqrs.out"@
                },
                content: s.output.content,
            },
        ),
        Instruction::WriteCmd => Ok(
            EffectView::Write {
                filename: if c.param.len() > 0 {
                    c.param
                } else {
                    "ijqrs.cmd"@
                },
                content: spec_displayed(s.command),
            },
        ),
        Instruction::Jq => Ok(EffectView::Rerun),
        Instruction::Unknown => Err("Unknown command: "@ + c.param),
    }
}

impl InternalCommand {
    /// Decide what the host must do for this command; an `Err` carries the
    /// message shown in the internal command line.
    pub fn eval(&self, state: &State) -> (r: Result<Effect, String>)
        ensures
            view_result(r) == spec_eval(self@, state@),
    {
        match self.inst {
            Instruction::WriteOut => {
                let filename = if !self.param.as_str().is_empty() {
                    self.param.clone()
                } else {
                    "ijqrs.out".to_owned()
                };
                Ok(Effect::Write { filename, content: state.output_pane().get_content() })
            },
            Instruction::WriteCmd => {
                let filename = if !self.param.as_str().is_empty() {
                    self.param.clone()
                } else {
                    "ijqrs.cmd".to_owned()
                };
                Ok(Effect::Write { filename, content: state.jq().get_content() })
            },
            Instruction::Jq => Ok(Effect::Rerun),
            Instruction::Unknown => Err(
                "Unknown command: ".to_owned().concat(self.param.as_str()),
            ),
        }
    }
}

} // verus!
