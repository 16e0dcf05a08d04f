use vstd::prelude::*;
use vstd::string::StringExecFns;

verus! {

/// A location in source text: `(file_id, start, end)`, offsets in bytes.
#[derive(Debug, Clone, Copy, PartialEq, Eq, Structural)]
pub struct Span(pub usize, pub usize, pub usize);

impl Span {
    /// The span of a synthetic value that stems from no source text.
    pub open spec fn dummy_spec() -> Span {
        Span(usize::MAX, usize::MAX, usize::MAX)
    }

    /// A span is well formed when it does not end before it starts.
    pub open spec fn wf(self) -> bool {
        self.1 <= self.2
    }

    /// The span given to values that were built by the program rather than parsed.
    pub fn dummy() -> (r: Span)
        ensures
            r == Span::dummy_spec(),
            r.wf(),
    {
        Span(usize::MAX, usize::MAX, usize::MAX)
    }
}

/// The decimal digit `d`.
pub open spec fn digit_char(d: nat) -> char {
    if d == 0 { '0' }
    else if d == 1 { '1' }
    else if d == 2 { '2' }
    else if d == 3 { '3' }
    else if d == 4 { '4' }
    else if d == 5 { '5' }
    else if d == 6 { '6' }
    else if d == 7 { '7' }
    else if d == 8 { '8' }
    else { '9' }
}

/// `n` written in decimal, without leading zeros.
pub open spec fn decimal(n: nat) -> Seq<char>
    decreases n,
{
    if n < 10 {
        seq![digit_char(n)]
    } else {
        decimal(n / 10) + seq![digit_char(n % 10)]
    }
}

/// Writes `n` in decimal.
fn decimal_string(n: usize) -> (r: String)
    ensures
        r@ == decimal(n as nat),
    decreases n,
{
    let mut out = if n < 10 {
        String::new()
    } else {
        decimal_string(n / 10)
    };
    let d = n % 10;
    let t = if d == 0 { "0" }
        else if d == 1 { "1" }
        else if d == 2 { "2" }
        else if d == 3 { "3" }
        else if d == 4 { "4" }
        else if d == 5 { "5" }
        else if d == 6 { "6" }
        else if d == 7 { "7" }
        else if d == 8 { "8" }
        else { "9" };
    proof {
        reveal_strlit("0");
        reveal_strlit("1");
        reveal_strlit("2");
        reveal_strlit("3");
        reveal_strlit("4");
        reveal_strlit("5");
        reveal_strlit("6");
        reveal_strlit("7");
        reveal_strlit("8");
        reveal_strlit("9");
        assert(t@ =~= seq![digit_char(d as nat)]);
    }
    out.append(t);
    proof {
        assert(out@ =~= decimal(n as nat));
    }
    out
}

impl Span {
    /// The span as `start..end`.
    pub fn to_string(&self) -> (r: String)
        ensures
            r@ == decimal(self.1 as nat) + ".."@ + decimal(self.2 as nat),
    {
        let mut out = decimal_string(self.1);
        let end = decimal_string(self.2);
        out.append("..");
        out.append(end.as_str());
        out
    }
}

} // verus!
