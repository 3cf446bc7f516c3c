//! Compile-time instrumentation of functions with execution-time measurement.
//!
//! The crate parses the options of a timing attribute, validates them, and
//! synthesizes a replacement function whose body measures how long the
//! original body ran and reports it, while the signature stays untouched.
//!
//! The way through the crate: [`options`] folds the attribute's arguments
//! into a [`options::HemeraConfig`], reading thresholds with [`duration`];
//! [`function`] holds the function the attribute is attached to;
//! [`transform`] replaces its body; [`emit`] renders the result as source
//! text. [`hemera`] runs all of it on raw text, with [`syntax`] as the only
//! place where the Rust parser is called. [`laws`] states what holds across
//! these steps.

use vstd::prelude::*;

pub mod digits;
pub mod duration;
pub mod emit;
pub mod error;
pub mod function;
pub mod laws;
pub mod options;
pub mod syntax;
pub mod text;
pub mod transform;

use crate::emit::{emit, emitted};
use crate::error::{HemeraError, HemeraErrorView};
use crate::function::{FunctionDescriptor, FunctionDescriptorView};
use crate::options::{args_view, blamed, config_of, AttrArg, AttrArgView, HemeraConfig};
use crate::transform::{transformed, Transformer};

verus! {

/// The mathematical content of the outcome of an instrumentation.
pub open spec fn code_view(outcome: Result<String, HemeraError>) -> Result<
    Seq<char>,
    HemeraErrorView,
> {
    match outcome {
        Ok(code) => Ok(code@),
        Err(error) => Err(error@),
    }
}

/// The source text of `function` instrumented as `args` ask, or the defect
/// of the arguments.
pub open spec fn instrumented(
    tracing: bool,
    args: Seq<AttrArgView>,
    function: FunctionDescriptorView,
) -> Result<Seq<char>, HemeraErrorView> {
    match config_of(args) {
        Ok(config) => Ok(emitted(transformed(tracing, config, function))),
        Err(error) => Err(error),
    }
}

/// Instruments a function that has been taken apart, under attribute
/// arguments that have been read: folds the arguments into options, replaces
/// the body, and renders the result.
pub fn instrument(args: &Vec<AttrArg>, function: FunctionDescriptor, tracing: bool) -> (outcome:
    Result<String, HemeraError>)
    ensures
        code_view(outcome) == instrumented(tracing, args_view(args@), function@),
{
    match HemeraConfig::from_args(args) {
        Ok(config) => Ok(emit(&Transformer::new(tracing).transform(config, function))),
        Err(error) => Err(error),
    }
}

/// Instruments the function definition `item` as the attribute arguments
/// `attr` ask, and returns the new definition as source text. With `tracing`
/// set, the new body runs inside a tracing span.
///
/// The item is read first: text that is no function definition is reported
/// as `UnsupportedItem`, whatever the arguments are. Otherwise the outcome
/// is that of [`instrument`] on what the Rust parser made of the two texts,
/// where text that it cannot read as attribute arguments counts as an
/// argument that is no `key = value` pair. Empty `attr` stands for no
/// arguments, so only the item can then be at fault.
pub fn hemera(attr: &str, item: &str, tracing: bool) -> (outcome: Result<String, HemeraError>)
    ensures
        (outcome matches Err(error) && error is UnsupportedItem) || exists|
            args: Seq<AttrArgView>,
            function: FunctionDescriptorView,
        |
            (attr@.len() == 0 ==> args.len() == 0) && #[trigger] instrumented(
                tracing,
                args,
                function,
            ) == code_view(outcome),
{
    let function: FunctionDescriptor = match FunctionDescriptor::parse(item) {
        Ok(function) => function,
        Err(error) => {
            return Err(error);
        },
    };
    let ghost parsed_function = function@;
    let parsed: Result<HemeraConfig, HemeraError> = HemeraConfig::parse(attr);
    let ghost args = choose|args: Seq<AttrArgView>|
        (attr@.len() == 0 ==> args.len() == 0) && #[trigger] config_of(args)
            == crate::options::config_result_view(parsed);
    match parsed {
        Ok(config) => {
            let code: String = emit(&Transformer::new(tracing).transform(config, function));
            assert(instrumented(tracing, args, parsed_function) == code_view(Ok(code)));
            Ok(code)
        },
        Err(error) => {
            assert(instrumented(tracing, args, parsed_function) == code_view(
                Err::<String, HemeraError>(error),
            ));
            Err(error)
        },
    }
}

/// Finds the attribute argument to report `error` at, by its position in
/// `attr`. An item that is no function is nobody's argument, and arguments
/// that the Rust parser cannot read have no positions: both give `None`.
/// Otherwise the position is the one that [`HemeraConfig::blamed_argument`]
/// finds in what the parser read.
pub fn blamed_argument(attr: &str, error: &HemeraError) -> (position: Option<usize>)
    ensures
        position matches Some(p) ==> {
            &&& !(error is UnsupportedItem)
            &&& attr@.len() > 0
            &&& exists|args: Seq<AttrArgView>| #[trigger] blamed(args) == Some(p as int)
        },
{
    match error {
        HemeraError::UnsupportedItem(_) => None,
        _ => match AttrArg::parse_list(attr) {
            Some(args) => {
                let position: Option<usize> = HemeraConfig::blamed_argument(&args);
                proof {
                    if attr@.len() == 0 {
                        assert(args_view(args@) =~= Seq::<AttrArgView>::empty());
                        assert(blamed(args_view(args@)) is None);
                    }
                }
                position
            },
            None => None,
        },
    }
}

} // verus!
