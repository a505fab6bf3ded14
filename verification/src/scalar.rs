//! The typed scalar values a pipeline's variable store holds, and their
//! rendering as argument text.
use vstd::prelude::*;
use crate::text;

verus! {

/// A typed scalar value held by the variable store: an integer, a piece of
/// text, or a boolean.
pub enum Scalar {
    Int(i64),
    Str(String),
    Bool(bool),
}

/// The mathematical value of a scalar.
pub enum ScalarVal {
    IntV(i64),
    StrV(Seq<char>),
    BoolV(bool),
}

impl Scalar {
    /// The mathematical value of this scalar.
    pub open spec fn view_val(&self) -> ScalarVal {
        match self {
            Scalar::Int(n) => ScalarVal::IntV(*n),
            Scalar::Str(t) => ScalarVal::StrV(t@),
            Scalar::Bool(b) => ScalarVal::BoolV(*b),
        }
    }
}

/// How a scalar reads when substituted into a command argument: an integer in
/// decimal, text as it is (its quotes trimmed), a boolean as `true` or `false`.
pub open spec fn scalar_display(v: ScalarVal) -> Seq<char> {
    match v {
        ScalarVal::IntV(n) => text::int_chars(n as int),
        ScalarVal::StrV(t) => t,
        ScalarVal::BoolV(b) => if b {
            seq!['t', 'r', 'u', 'e']
        } else {
            seq!['f', 'a', 'l', 's', 'e']
        },
    }
}

impl Scalar {
    /// Renders the scalar as the text a substituted argument receives.
    pub fn display_string(&self) -> (r: String)
        ensures
            r@ == scalar_display(self.view_val()),
    {
        match self {
            Scalar::Int(n) => text::i64_to_string(*n),
            Scalar::Str(t) => t.clone(),
            Scalar::Bool(b) => {
                if *b {
                    let r = "true".to_owned();
                    proof {
                        reveal_strlit("true");
                        assert(r@ =~= seq!['t', 'r', 'u', 'e']);
                    }
                    r
                } else {
                    let r = "false".to_owned();
                    proof {
                        reveal_strlit("false");
                        assert(r@ =~= seq!['f', 'a', 'l', 's', 'e']);
                    }
                    r
                }
            },
        }
    }

    /// A copy of this scalar with the same mathematical value.
    pub fn duplicate(&self) -> (r: Scalar)
        ensures
            r.view_val() == self.view_val(),
    {
        match self {
            Scalar::Int(n) => Scalar::Int(*n),
            Scalar::Str(t) => Scalar::Str(t.clone()),
            Scalar::Bool(b) => Scalar::Bool(*b),
        }
    }
}

} // verus!
