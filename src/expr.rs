use vstd::prelude::*;
use vstd::string::*;
use crate::context::{AppState, HandlerContext, decimal, push_decimal};

verus! {

/// A numeric value expression: a constant or a named read of the state.
#[derive(Debug, Clone)]
pub enum AsU32 {
    GetAge,
    Literal(u32),
}

/// A textual value expression: a constant or a named read of the state.
#[derive(Debug, Clone)]
pub enum AsString {
    GetName,
    Hello,
    Literal(String),
}

/// The greeting that combines the name and the age:
/// `Hello '<name>', age <age>`.
pub open spec fn hello_text(st: AppState) -> Seq<char> {
    seq!['H', 'e', 'l', 'l', 'o', ' ', '\''] + st.name + seq!['\'', ',', ' ', 'a', 'g', 'e', ' ']
        + decimal(st.age as nat)
}

impl AsU32 {
    /// What the expression yields in state `st`.
    pub open spec fn eval(&self, st: AppState) -> u32 {
        match self {
            AsU32::GetAge => st.age,
            AsU32::Literal(v) => *v,
        }
    }

    /// Evaluates the expression against the current state.
    pub fn as_u32(&self, context: &HandlerContext) -> (r: u32)
        ensures
            r == self.eval(context@),
    {
        match self {
            AsU32::GetAge => context.age,
            AsU32::Literal(val) => *val,
        }
    }
}

impl AsString {
    /// What the expression yields in state `st`.
    pub open spec fn eval(&self, st: AppState) -> Seq<char> {
        match self {
            AsString::GetName => st.name,
            AsString::Hello => hello_text(st),
            AsString::Literal(v) => v@,
        }
    }

    /// Evaluates the expression against the current state.
    pub fn as_string(&self, context: &HandlerContext) -> (r: String)
        ensures
            r@ == self.eval(context@),
    {
        match self {
            AsString::GetName => context.name.clone(),
            AsString::Hello => {
                let mut s = String::new();
                s.append("Hello '");
                s.append(context.name.as_str());
                s.append("', age ");
                push_decimal(&mut s, context.age);
                proof {
                    reveal_strlit("Hello '");
                    reveal_strlit("', age ");
                    assert(s@ =~= hello_text(context@));
                }
                s
            },
            AsString::Literal(val) => val.clone(),
        }
    }
}

} // verus!
