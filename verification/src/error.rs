use vstd::prelude::*;
use vstd::string::*;

use crate::text::{append_decimal, debug_quoted, decimal_text, str_debug};

verus! {

/// Error returned for invalid input, rejected biometric data, or processing failure.
///
/// It carries only a diagnostic message; no payload of a frame, an image or a template ever
/// enters one.
#[derive(Clone, PartialEq, Eq, Debug)]
pub struct Error {
    message: String,
}

impl Error {
    /// The diagnostic text.
    pub closed spec fn text(&self) -> Seq<char> {
        self.message@
    }

    /// An error for input that the library refuses.
    pub fn invalid(message: &str) -> (e: Error)
        ensures
            e.text() == message@,
    {
        Error { message: message.to_owned() }
    }

    /// An error for a processing step that could not complete.
    pub fn processing(message: &str) -> (e: Error)
        ensures
            e.text() == message@,
    {
        Error { message: message.to_owned() }
    }

    /// An error whose text is `label` followed by `suffix`.
    pub fn labelled(label: &str, suffix: &str) -> (e: Error)
        ensures
            e.text() == label@ + suffix@,
    {
        let mut message = label.to_owned();
        message.append(suffix);
        Error { message }
    }

    /// An error that carries the given text.
    pub fn from_text(message: String) -> (e: Error)
        ensures
            e.text() == message@,
    {
        Error { message }
    }

    /// An error for a failed input or output operation, naming only the kind of failure.
    pub fn io(kind: &str) -> (e: Error)
        ensures
            e.text() == "I/O error: "@ + kind@,
    {
        Error::labelled("I/O error: ", kind)
    }

    /// An error for malformed JSON: its category and position only, never the payload.
    pub fn json(category: JsonErrorCategory, line: usize, column: usize) -> (e: Error)
        ensures
            e.text() == "JSON "@ + category.spec_name() + " error at line "@ + decimal_text(
                line as nat,
            ) + " column "@ + decimal_text(column as nat),
    {
        let mut message = "JSON ".to_string();
        message.append(category.name());
        message.append(" error at line ");
        append_decimal(&mut message, line as u64);
        message.append(" column ");
        append_decimal(&mut message, column as u64);
        Error { message }
    }

    /// The debug rendering, which shows the message and nothing else.
    pub fn debug_text(&self) -> (text: String)
        ensures
            text@ == "Error { message: "@ + str_debug(self.text()) + " }"@,
    {
        let mut text = "Error { message: ".to_string();
        text.append(debug_quoted(self.message.as_str()).as_str());
        text.append(" }");
        text
    }

    /// The diagnostic text.
    pub fn message(&self) -> (m: &str)
        ensures
            m@ == self.text(),
    {
        self.message.as_str()
    }
}

/// What kind of failure a JSON parser reported.
#[derive(Clone, Copy, Debug, PartialEq, Eq, Structural)]
pub enum JsonErrorCategory {
    /// The reader failed.
    Io,
    /// The input is not JSON.
    Syntax,
    /// The JSON does not have the expected shape.
    Data,
    /// The input ended early.
    Eof,
}

impl JsonErrorCategory {
    /// The category's name in error messages.
    pub open spec fn spec_name(&self) -> Seq<char> {
        match self {
            JsonErrorCategory::Io => "I/O"@,
            JsonErrorCategory::Syntax => "syntax"@,
            JsonErrorCategory::Data => "data"@,
            JsonErrorCategory::Eof => "EOF"@,
        }
    }

    /// The category's name in error messages.
    pub fn name(&self) -> (name: &'static str)
        ensures
            name@ == self.spec_name(),
    {
        match self {
            JsonErrorCategory::Io => "I/O",
            JsonErrorCategory::Syntax => "syntax",
            JsonErrorCategory::Data => "data",
            JsonErrorCategory::Eof => "EOF",
        }
    }
}

} // verus!

verus! {

/// The text of the error that `r` holds, or `None` when `r` is `Ok`.
pub open spec fn err_text<T>(r: Result<T, Error>) -> Option<Seq<char>> {
    match r {
        Ok(_) => None,
        Err(e) => Some(e.text()),
    }
}

/// The first of two problems, in the order in which they are checked.
pub open spec fn first_problem(a: Option<Seq<char>>, b: Option<Seq<char>>) -> Option<Seq<char>> {
    if a is Some {
        a
    } else {
        b
    }
}

/// The problem that a specified outcome reports, or `None` when it succeeds.
pub open spec fn problem_of<T>(r: Result<T, Seq<char>>) -> Option<Seq<char>> {
    match r {
        Ok(_) => None,
        Err(m) => Some(m),
    }
}

} // verus!

verus! {

/// Length in bytes of the UTF-8 encoding of `s`, as `str::len` reports it.
pub open spec fn utf8_len(s: Seq<char>) -> usize {
    vstd::utf8::encode_utf8(s).len() as usize
}

} // verus!
