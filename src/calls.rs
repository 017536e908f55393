use vstd::prelude::*;
use crate::text::{greeting, greeting_text};

verus! {

/// A method that the native side invokes on the caller's managed object.
#[derive(Debug, Clone, Copy, PartialEq, Eq, Structural)]
pub enum Method {
    /// `callback(String)`: receives the greeting.
    Callback,
    /// `hello()`: notifies that work has started.
    Hello,
    /// `appendToTextView(String)`: receives the result.
    AppendToTextView,
}

pub open spec fn method_name(m: Method) -> Seq<char> {
    match m {
        Method::Callback => "callback"@,
        Method::Hello => "hello"@,
        Method::AppendToTextView => "appendToTextView"@,
    }
}

/// The method's type descriptor in the managed runtime's notation.
pub open spec fn method_signature(m: Method) -> Seq<char> {
    match m {
        Method::Hello => "()V"@,
        _ => "(Ljava/lang/String;)V"@,
    }
}

/// The methods that take one text argument; the others take none.
pub open spec fn takes_text(m: Method) -> bool {
    m != Method::Hello
}

/// The text that the offline variant delivers in place of a response body.
pub open spec fn offline_text() -> Seq<char> {
    "hello from Rust"@
}

impl Method {
    /// The name by which the method is looked up.
    pub fn name(&self) -> (r: &'static str)
        ensures
            r@ == method_name(*self),
    {
        match self {
            Method::Callback => "callback",
            Method::Hello => "hello",
            Method::AppendToTextView => "appendToTextView",
        }
    }

    /// The signature by which the method is looked up.
    pub fn signature(&self) -> (r: &'static str)
        ensures
            r@ == method_signature(*self),
    {
        match self {
            Method::Hello => "()V",
            _ => "(Ljava/lang/String;)V",
        }
    }

    /// Whether the method takes one text argument.
    pub fn takes_text(&self) -> (r: bool)
        ensures
            r == takes_text(*self),
    {
        !matches!(self, Method::Hello)
    }
}

/// One invocation of a method on the callback object, with its argument.
#[derive(Debug)]
pub struct Invocation {
    pub method: Method,
    pub argument: Option<String>,
}

/// The invocation is of `m`, with the text `arg` or with none.
pub open spec fn invokes(c: Invocation, m: Method, arg: Option<Seq<char>>) -> bool {
    &&& c.method == m
    &&& match arg {
        Some(t) => c.argument is Some && c.argument->Some_0@ == t,
        None => c.argument is None,
    }
}

/// An invocation whose argument agrees with its method's signature.
pub open spec fn well_formed(c: Invocation) -> bool {
    c.argument is Some == takes_text(c.method)
}

/// What the plain entry point does: one `callback` invocation with the greeting.
pub fn greeting_calls() -> (r: Vec<Invocation>)
    ensures
        r@.len() == 1,
        invokes(r@[0], Method::Callback, Some(greeting_text())),
        well_formed(r@[0]),
{
    let text = greeting().to_string();
    let mut r: Vec<Invocation> = Vec::new();
    r.push(Invocation { method: Method::Callback, argument: Some(text) });
    r
}

/// What the offline variant does: `hello()`, then `appendToTextView` with a
/// fixed text in place of a fetched body.
pub fn offline_calls() -> (r: Vec<Invocation>)
    ensures
        r@.len() == 2,
        invokes(r@[0], Method::Hello, None),
        invokes(r@[1], Method::AppendToTextView, Some(offline_text())),
        well_formed(r@[0]),
        well_formed(r@[1]),
{
    let mut r: Vec<Invocation> = Vec::new();
    r.push(Invocation { method: Method::Hello, argument: None });
    r.push(Invocation { method: Method::AppendToTextView, argument: Some("hello from Rust".to_string()) });
    r
}

} // verus!
