//! Closed enumerations whose values are written as fixed codes.

use vstd::prelude::*;

verus! {

/// A closed enumeration in which each value stands for one fixed code.
pub trait Coded: Sized {
    /// The code that is written for the value.
    spec fn code_of(self) -> Seq<char>;

    /// The code that is written for the value.
    fn code(&self) -> (r: &'static str)
        ensures
            r@ == self.code_of(),
    ;

    /// The value that `code` is written for; `None` for a text that is not in
    /// the table.
    fn from_code(code: &str) -> (r: Option<Self>)
        ensures
            match r {
                Some(v) => v.code_of() == code@,
                None => forall|v: Self| v.code_of() != code@,
            },
    ;

    /// No two values share a code.
    proof fn lemma_codes_differ(a: Self, b: Self)
        ensures
            a.code_of() == b.code_of() ==> a == b,
    ;
}

/// The value of `T` that `code` is written for, if there is one.
pub open spec fn value_of<T: Coded>(code: Seq<char>) -> Option<T> {
    if exists|v: T| v.code_of() == code {
        Some(choose|v: T| v.code_of() == code)
    } else {
        None
    }
}

/// Reading the code of a value gives the value back.
pub proof fn lemma_value_of_code<T: Coded>(v: T)
    ensures
        value_of::<T>(v.code_of()) == Some(v),
{
    let w = choose|w: T| w.code_of() == v.code_of();
    T::lemma_codes_differ(w, v);
}

/// What [`Coded::from_code`] promises of its result makes it the value that
/// the text is written for.
pub proof fn lemma_value_of_parsed<T: Coded>(code: Seq<char>, r: Option<T>)
    requires
        match r {
            Some(v) => v.code_of() == code,
            None => forall|v: T| v.code_of() != code,
        },
    ensures
        r == value_of::<T>(code),
{
    if let Some(v) = r {
        lemma_value_of_code(v);
    }
}

/// A value that is read from a text has that text as its code.
pub proof fn lemma_code_of_value<T: Coded>(code: Seq<char>)
    ensures
        value_of::<T>(code) is Some ==> value_of::<T>(code)->0.code_of() == code,
{
}

} // verus!
