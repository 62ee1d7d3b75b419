use vstd::prelude::*;
use vstd::string::*;

verus! {

/// What the application state holds, as mathematical values.
pub struct AppState {
    pub name: Seq<char>,
    pub age: u32,
}

/// The application state that value expressions read and commands write.
#[derive(Debug, Clone)]
pub struct HandlerContext {
    pub name: String,
    pub age: u32,
}

impl View for HandlerContext {
    type V = AppState;

    open spec fn view(&self) -> AppState {
        AppState { name: self.name@, age: self.age }
    }
}

impl HandlerContext {
    /// Builds a state from its two fields.
    pub fn new(name: String, age: u32) -> (r: HandlerContext)
        ensures
            r@ == (AppState { name: name@, age }),
    {
        HandlerContext { name, age }
    }

    /// The current name.
    pub fn name(&self) -> (r: &String)
        ensures
            r@ == self@.name,
    {
        &self.name
    }

    /// The current age.
    pub fn age(&self) -> (r: u32)
        ensures
            r == self@.age,
    {
        self.age
    }
}

/// The state that the interface starts from.
pub open spec fn initial_state() -> AppState {
    AppState { name: seq!['A', 'r', 't', 'h', 'u', 'r'], age: 42 }
}

impl Default for HandlerContext {
    fn default() -> (r: HandlerContext)
        ensures
            r@ == initial_state(),
    {
        let mut name = String::new();
        name.append("Arthur");
        proof {
            reveal_strlit("Arthur");
            assert(name@ =~= initial_state().name);
        }
        HandlerContext { name, age: 42 }
    }
}

/// The character of a decimal digit.
pub open spec fn digit_char(d: nat) -> char
    recommends
        d < 10,
{
    seq!['0', '1', '2', '3', '4', '5', '6', '7', '8', '9'][d as int]
}

/// The decimal notation of a number, most significant digit first, without
/// leading zeros.
pub open spec fn decimal(n: nat) -> Seq<char>
    decreases n,
{
    if n < 10 {
        seq![digit_char(n)]
    } else {
        decimal(n / 10) + seq![digit_char(n % 10)]
    }
}

fn digit_str(d: u32) -> (r: &'static str)
    requires
        d < 10,
    ensures
        r@ == seq![digit_char(d as nat)],
{
    let r = match d {
        0 => "0",
        1 => "1",
        2 => "2",
        3 => "3",
        4 => "4",
        5 => "5",
        6 => "6",
        7 => "7",
        8 => "8",
        _ => "9",
    };
    proof {
        reveal_strlit("0");
        reveal_strlit("1");
        reveal_strlit("2");
        reveal_strlit("3");
        reveal_strlit("4");
        reveal_strlit("5");
        reveal_strlit("6");
        reveal_strlit("7");
        reveal_strlit("8");
        reveal_strlit("9");
        assert(r@ =~= seq![digit_char(d as nat)]);
    }
    r
}

/// Appends the decimal notation of `n` to `s`.
pub fn push_decimal(s: &mut String, n: u32)
    ensures
        final(s)@ == old(s)@ + decimal(n as nat),
    decreases n,
{
    if n < 10 {
        s.append(digit_str(n));
    } else {
        push_decimal(s, n / 10);
        s.append(digit_str(n % 10));
        proof {
            assert(final(s)@ =~= old(s)@ + decimal(n as nat));
        }
    }
}

} // verus!
