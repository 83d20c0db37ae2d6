//! Project config parsing error.
use vstd::prelude::*;
use vstd::string::*;

verus! {

/// What every message of a [`ProjectParseError`] starts with.
pub const PARSE_ERROR_PREFIX: &'static str = "Cannot parse yaml: ";

/// The project config parsing error, holding what was wrong with the document.
#[derive(Debug, PartialEq, Eq)]
pub struct ProjectParseError(pub String);

impl DeepView for ProjectParseError {
    type V = Seq<char>;

    open spec fn deep_view(&self) -> Seq<char> {
        self.0@
    }
}

impl ProjectParseError {
    /// An error that says `reason`.
    pub fn new(reason: &str) -> (error: ProjectParseError)
        ensures
            error.deep_view() == reason@,
    {
        ProjectParseError(String::from_str(reason))
    }

    /// The error as it is shown to the user.
    pub fn message(&self) -> (text: String)
        ensures
            text@ == PARSE_ERROR_PREFIX@ + self.deep_view(),
    {
        let mut text = String::from_str(PARSE_ERROR_PREFIX);
        text.append(self.0.as_str());
        text
    }
}

/// The model of a decoder's result: the model of the value, or the reason of the error.
pub open spec fn decoded<T: DeepView>(result: Result<T, ProjectParseError>) -> Result<
    T::V,
    Seq<char>,
> {
    match result {
        Ok(value) => Ok(value.deep_view()),
        Err(error) => Err(error.deep_view()),
    }
}

} // verus!
