//! Presentation of error values: every error is a value; these helpers
//! render one as text only at the edge, without losing the structured data.

use vstd::prelude::*;
use vstd::string::StringExecFns;

verus! {

/// The character of one decimal digit.
pub open spec fn digit_char(d: nat) -> char {
    if d == 0 {
        '0'
    } else if d == 1 {
        '1'
    } else if d == 2 {
        '2'
    } else if d == 3 {
        '3'
    } else if d == 4 {
        '4'
    } else if d == 5 {
        '5'
    } else if d == 6 {
        '6'
    } else if d == 7 {
        '7'
    } else if d == 8 {
        '8'
    } else {
        '9'
    }
}

/// The decimal digits of a number, most significant first.
pub open spec fn decimal_digits(n: nat) -> Seq<char>
    decreases n,
{
    if n < 10 {
        seq![digit_char(n)]
    } else {
        decimal_digits(n / 10).push(digit_char(n % 10))
    }
}

fn digit_str(d: usize) -> (r: &'static str)
    requires
        d < 10,
    ensures
        r@ == seq![digit_char(d as nat)],
{
    proof {
        reveal_strlit("0");
        reveal_strlit("1");
        reveal_strlit("2");
        reveal_strlit("3");
        reveal_strlit("4");
        reveal_strlit("5");
        reveal_strlit("6");
        reveal_strlit("7");
        reveal_strlit("8");
        reveal_strlit("9");
    }
    let r = match d {
        0 => "0",
        1 => "1",
        2 => "2",
        3 => "3",
        4 => "4",
        5 => "5",
        6 => "6",
        7 => "7",
        8 => "8",
        _ => "9",
    };
    proof {
        assert(r@ =~= seq![digit_char(d as nat)]);
    }
    r
}

/// Renders a number in decimal.
pub fn decimal(n: usize) -> (r: String)
    ensures
        r@ == decimal_digits(n as nat),
    decreases n,
{
    if n < 10 {
        String::from_str(digit_str(n))
    } else {
        let mut s = decimal(n / 10);
        s.append(digit_str(n % 10));
        proof {
            assert(s@ =~= decimal_digits(n as nat));
        }
        s
    }
}

/// An error kind that can present itself: a fixed title for the layer, a
/// case name, and optional clarification and advice lines.
pub trait Error {
    spec fn title_spec() -> Seq<char>;

    spec fn case_spec(&self) -> Seq<char>;

    spec fn clarification_spec(&self) -> Option<Seq<char>>;

    spec fn advice_spec(&self) -> Option<Seq<char>>;

    fn title() -> (r: &'static str)
        ensures
            r@ == Self::title_spec(),
    ;

    fn case(&self) -> (r: &'static str)
        ensures
            r@ == self.case_spec(),
    ;

    fn clarification(&self) -> (r: Option<String>)
        ensures
            match r {
                Some(s) => self.clarification_spec() == Some(s@),
                None => self.clarification_spec() is None,
            },
    ;

    fn advice(&self) -> (r: Option<String>)
        ensures
            match r {
                Some(s) => self.advice_spec() == Some(s@),
                None => self.advice_spec() is None,
            },
    ;
}

/// The full presentation of an error: title, case, then the optional
/// clarification in parentheses and advice in brackets.
pub open spec fn error_text_spec<T: Error>(e: &T) -> Seq<char> {
    let head = T::title_spec() + ": "@ + e.case_spec();
    let with_clar = match e.clarification_spec() {
        Some(c) => head + " ("@ + c + ")"@,
        None => head,
    };
    match e.advice_spec() {
        Some(a) => with_clar + " ["@ + a + "]"@,
        None => with_clar,
    }
}

/// Borrows an error for presentation.
pub struct ErrorFormatter<'a, T>(pub &'a T);

impl<'a, T: Error> ErrorFormatter<'a, T> {
    /// Renders the error as one line of text.
    pub fn to_text(&self) -> (r: String)
        ensures
            r@ == error_text_spec(self.0),
    {
        let mut s = String::from_str(T::title());
        s.append(": ");
        s.append(self.0.case());
        match self.0.clarification() {
            Some(c) => {
                s.append(" (");
                s.append(c.as_str());
                s.append(")");
            },
            None => {},
        }
        match self.0.advice() {
            Some(a) => {
                s.append(" [");
                s.append(a.as_str());
                s.append("]");
            },
            None => {},
        }
        proof {
            assert(s@ =~= error_text_spec(self.0));
        }
        s
    }
}

} // verus!
