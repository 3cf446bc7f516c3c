//! The function an attribute is attached to.

use vstd::prelude::*;
use crate::error::HemeraError;
use crate::syntax::parse_item_fn;

verus! {

/// A function definition taken apart. Only the name and the asyncness flag
/// are ever looked at; everything else is source text that is carried
/// through as it is.
#[derive(Debug, PartialEq, Eq)]
pub struct FunctionDescriptor {
    /// The leading attributes, one text each, in source order.
    pub attributes: Vec<String>,
    /// The visibility qualifier; empty for a private function.
    pub visibility: String,
    /// The signature, from its first qualifier to the end of its `where`
    /// clause: generic parameters, parameters and return type included.
    pub signature: String,
    /// The function's name.
    pub name: String,
    /// Whether the function is declared `async`.
    pub is_async: bool,
    /// The body, braces included. It is never analyzed.
    pub body: String,
}

/// The mathematical content of a [`FunctionDescriptor`].
pub struct FunctionDescriptorView {
    pub attributes: Seq<Seq<char>>,
    pub visibility: Seq<char>,
    pub signature: Seq<char>,
    pub name: Seq<char>,
    pub is_async: bool,
    pub body: Seq<char>,
}

/// The mathematical content of a list of texts.
pub open spec fn texts_view(texts: Seq<String>) -> Seq<Seq<char>> {
    Seq::new(texts.len(), |i: int| texts[i]@)
}

impl View for FunctionDescriptor {
    type V = FunctionDescriptorView;

    open spec fn view(&self) -> FunctionDescriptorView {
        FunctionDescriptorView {
            attributes: texts_view(self.attributes@),
            visibility: self.visibility@,
            signature: self.signature@,
            name: self.name@,
            is_async: self.is_async,
            body: self.body@,
        }
    }
}

impl FunctionDescriptor {
    /// Reads a function definition from source text. Text that the Rust
    /// parser does not accept as a function definition is reported as
    /// `UnsupportedItem`, with the parser's complaint.
    pub fn parse(item: &str) -> (parsed: Result<FunctionDescriptor, HemeraError>)
        ensures
            parsed matches Err(error) ==> error is UnsupportedItem,
    {
        match parse_item_fn(item) {
            Ok(function) => Ok(function),
            Err(complaint) => Err(HemeraError::UnsupportedItem(complaint.to_string())),
        }
    }
}

} // verus!
