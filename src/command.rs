use vstd::prelude::*;
use crate::context::{AppState, HandlerContext};

verus! {

/// A command that takes a numeric argument.
#[derive(Debug, Clone)]
pub enum HandlerU32 {
    SetAge,
}

/// A command that takes a textual argument.
#[derive(Debug, Clone)]
pub enum HandlerString {
    SetName,
}

/// A command that takes no argument.
#[derive(Debug, Clone)]
pub enum Handler {
    IncrementAge,
}

impl HandlerU32 {
    /// The state after the command ran with `value` in state `st`.
    pub open spec fn apply(&self, value: u32, st: AppState) -> AppState {
        match self {
            HandlerU32::SetAge => AppState { age: value, ..st },
        }
    }

    /// Runs the command with `value` on the state.
    pub fn run(&self, value: u32, context: &mut HandlerContext)
        ensures
            final(context)@ == self.apply(value, old(context)@),
    {
        match self {
            HandlerU32::SetAge => {
                context.age = value;
            },
        }
    }
}

impl HandlerString {
    /// The state after the command ran with `value` in state `st`.
    pub open spec fn apply(&self, value: Seq<char>, st: AppState) -> AppState {
        match self {
            HandlerString::SetName => AppState { name: value, ..st },
        }
    }

    /// Runs the command with `value` on the state.
    pub fn run(&self, value: String, context: &mut HandlerContext)
        ensures
            final(context)@ == self.apply(value@, old(context)@),
    {
        match self {
            HandlerString::SetName => {
                context.name = value;
            },
        }
    }
}

/// One more than `n`, staying at the largest `u32` there.
pub open spec fn inc_sat(n: u32) -> u32 {
    if n == u32::MAX {
        n
    } else {
        (n + 1) as u32
    }
}

impl Handler {
    /// The state after the command ran in state `st`. The age is increased
    /// by one and stays put at the largest `u32`, so the command never fails.
    pub open spec fn apply(&self, st: AppState) -> AppState {
        match self {
            Handler::IncrementAge => AppState { age: inc_sat(st.age), ..st },
        }
    }

    /// Runs the command on the state.
    pub fn run(&self, context: &mut HandlerContext)
        ensures
            final(context)@ == self.apply(old(context)@),
    {
        match self {
            Handler::IncrementAge => {
                context.age = context.age.saturating_add(1);
            },
        }
    }
}

} // verus!
