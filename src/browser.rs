//! Interpretation of what the engine reports for a browser window: the
//! outcome of a script evaluation and of a navigation.
use vstd::prelude::*;

verus! {

/// An error raised while evaluating or executing JavaScript code.
#[derive(Debug)]
pub struct JsEvaluationError {
    message: String,
}

impl View for JsEvaluationError {
    type V = Seq<char>;

    /// The message that describes the script's exception.
    closed spec fn view(&self) -> Seq<char> {
        self.message@
    }
}

impl JsEvaluationError {
    pub fn new(message: String) -> (r: Self)
        ensures
            r@ == message@,
    {
        JsEvaluationError { message }
    }

    /// The human-readable message, as the engine described the exception.
    pub fn message(&self) -> (r: &str)
        ensures
            r@ == self@,
    {
        self.message.as_str()
    }
}

/// What an evaluation reports: the engine hands back either a value or an
/// error, and the error wins when both are present. A missing value with no
/// error is the empty string.
pub open spec fn eval_outcome(value: Option<Seq<char>>, error: Option<Seq<char>>) -> Result<
    Seq<char>,
    Seq<char>,
> {
    match error {
        Some(message) => Err(message),
        None => Ok(
            match value {
                Some(v) => v,
                None => Seq::<char>::empty(),
            },
        ),
    }
}

/// The text of an optional string.
pub open spec fn text_of(s: Option<String>) -> Option<Seq<char>> {
    match s {
        Some(t) => Some(t@),
        None => None,
    }
}

/// Turns the engine's result/error pair of one evaluation into a single
/// result: `Err` with the error's message exactly when the script raised an
/// exception, `Ok` with the value otherwise.
pub fn eval_js_result(value: Option<String>, error: Option<String>) -> (r: Result<
    String,
    JsEvaluationError,
>)
    ensures
        error is Some <==> r is Err,
        match r {
            Ok(v) => eval_outcome(text_of(value), text_of(error)) == Ok::<Seq<char>, Seq<char>>(v@),
            Err(e) => eval_outcome(text_of(value), text_of(error)) == Err::<Seq<char>, Seq<char>>(
                e@,
            ),
        },
{
    match error {
        Some(message) => Err(JsEvaluationError::new(message)),
        None => match value {
            Some(v) => Ok(v),
            None => Ok(String::new()),
        },
    }
}

/// A navigation that the engine refused, with its error code and message.
#[derive(Debug)]
pub struct NavigationError {
    pub code: u32,
    pub message: String,
}

/// Interprets the error code that the engine returns for a navigation: zero
/// is success, any other code is an error that carries `message`.
pub fn navigation_result(code: u32, message: String) -> (r: Result<(), NavigationError>)
    ensures
        r is Ok <==> code == 0,
        r matches Err(e) ==> e.code == code && e.message@ == message@,
{
    if code == 0 {
        Ok(())
    } else {
        Err(NavigationError { code, message })
    }
}

} // verus!
