use vstd::prelude::*;

verus! {

/// A name type that can be read from its written form and written back.
pub trait ParseName: Sized {
    /// Reads a value from its written form; the error says why the text is
    /// not one.
    fn parse_name(text: &str) -> Result<Self, String>;

    /// Writes the value in its written form.
    fn to_text(&self) -> String;
}

/// A value that is one of two name types. Parsing tries `L` then `R`, and the
/// side that parses is the side that is held. When neither side parses the
/// error lists both reasons as the accepted alternatives. Writing gives back
/// whichever side is held.
#[derive(Clone, Debug, PartialEq, Eq, Hash)]
pub enum Either<L, R> {
    Left(L),
    Right(R),
}

/// The error when neither side parses.
pub open spec fn either_rejection(left: Seq<char>, right: Seq<char>) -> Seq<char> {
    "expected either\n   a) "@ + left + "\n   b) "@ + right
}

impl<L: ParseName, R: ParseName> Either<L, R> {
    /// Parses `name` as an `L`, else as an `R`.
    pub fn from_str(name: &str) -> (r: Result<Self, String>)
        ensures
            r matches Ok(Either::Left(l)) ==> call_ensures(L::parse_name, (name,), Ok::<L, String>(l)),
            r matches Ok(Either::Right(v)) ==> exists|le: String|
                call_ensures(L::parse_name, (name,), Err::<L, String>(le)) && call_ensures(
                    R::parse_name,
                    (name,),
                    Ok::<R, String>(v),
                ),
            r matches Err(e) ==> exists|le: String, re: String|
                call_ensures(L::parse_name, (name,), Err::<L, String>(le)) && call_ensures(
                    R::parse_name,
                    (name,),
                    Err::<R, String>(re),
                ) && e@ == either_rejection(le@, re@),
    {
        match L::parse_name(name) {
            Ok(left) => Ok(Either::Left(left)),
            Err(left) => match R::parse_name(name) {
                Ok(right) => Ok(Either::Right(right)),
                Err(right) => {
                    let mut e = String::new();
                    crate::text::push_str(&mut e, "expected either\n   a) ");
                    crate::text::push_str(&mut e, left.as_str());
                    crate::text::push_str(&mut e, "\n   b) ");
                    crate::text::push_str(&mut e, right.as_str());
                    assert(e@ =~= either_rejection(left@, right@));
                    Err(e)
                },
            },
        }
    }

    /// Writes the held side.
    pub fn to_string(&self) -> (r: String)
        ensures
            self matches Either::Left(l) ==> call_ensures(L::to_text, (l,), r),
            self matches Either::Right(v) ==> call_ensures(R::to_text, (v,), r),
    {
        match self {
            Either::Left(l) => l.to_text(),
            Either::Right(r) => r.to_text(),
        }
    }
}

} // verus!
