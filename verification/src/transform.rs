//! Turning a function and its options into the instrumented function.

use vstd::prelude::*;
use crate::duration::Duration;
use crate::function::{texts_view, FunctionDescriptor, FunctionDescriptorView};
use crate::options::{ConfigView, HemeraConfig, Level};

verus! {

/// The stream a log line is written to.
#[derive(Clone, Copy, Debug, PartialEq, Eq, Structural)]
pub enum Channel {
    /// Standard output.
    Stdout,
    /// Standard error.
    Stderr,
}

/// The condition under which a call is logged.
#[derive(Clone, Copy, Debug, PartialEq, Eq, Structural)]
pub enum Gate {
    /// Every call is logged.
    Always,
    /// A call is logged when it took at least this long.
    AtLeast(Duration),
}

/// The execution model of a function, which decides the shape of the
/// wrapper that is synthesized for it.
#[derive(Clone, Copy, Debug, PartialEq, Eq, Structural)]
pub enum FunctionKind {
    /// An ordinary function: the original body runs inline.
    Sync,
    /// A suspendable function: the original body is awaited in place.
    Async,
}

/// The channel that a level writes to. Without a level the log line goes
/// where `Info` sends it.
pub open spec fn channel_of(level: Option<Level>) -> Channel {
    match level {
        Some(Level::Debug) => Channel::Stderr,
        _ => Channel::Stdout,
    }
}

/// The logging condition that a threshold stands for.
pub open spec fn gate_of(threshold: Option<Duration>) -> Gate {
    match threshold {
        Some(duration) => Gate::AtLeast(duration),
        None => Gate::Always,
    }
}

/// The kind that an asyncness flag stands for.
pub open spec fn kind_of(is_async: bool) -> FunctionKind {
    if is_async {
        FunctionKind::Async
    } else {
        FunctionKind::Sync
    }
}

impl Gate {
    /// Whether a call that took `elapsed_nanos` nanoseconds is logged.
    pub open spec fn admits(self, elapsed_nanos: nat) -> bool {
        match self {
            Gate::Always => true,
            Gate::AtLeast(duration) => elapsed_nanos >= duration.nanos(),
        }
    }

    /// Decides whether a call that took `elapsed_nanos` nanoseconds is
    /// logged.
    pub fn lets_through(&self, elapsed_nanos: u128) -> (logged: bool)
        ensures
            logged == self.admits(elapsed_nanos as nat),
    {
        match self {
            Gate::Always => true,
            Gate::AtLeast(duration) => elapsed_nanos >= duration.as_nanos(),
        }
    }
}

/// The body that replaces the original one. It reads the clock, runs the
/// original body, reads the clock again, writes the log line if its condition
/// admits the elapsed time, and hands back what the original body computed.
#[derive(Debug, PartialEq, Eq)]
pub struct WrapperBody {
    /// The name the log line shows.
    pub display_name: String,
    /// Where the log line goes.
    pub channel: Channel,
    /// When the log line is written.
    pub gate: Gate,
    /// How the original body is run.
    pub kind: FunctionKind,
    /// Whether the whole body runs inside a tracing span that carries the
    /// display name.
    pub span: bool,
    /// The original body, moved here as it was.
    pub original: String,
}

/// The mathematical content of a [`WrapperBody`].
pub struct WrapperBodyView {
    pub display_name: Seq<char>,
    pub channel: Channel,
    pub gate: Gate,
    pub kind: FunctionKind,
    pub span: bool,
    pub original: Seq<char>,
}

impl View for WrapperBody {
    type V = WrapperBodyView;

    open spec fn view(&self) -> WrapperBodyView {
        WrapperBodyView {
            display_name: self.display_name@,
            channel: self.channel,
            gate: self.gate,
            kind: self.kind,
            span: self.span,
            original: self.original@,
        }
    }
}

/// An instrumented function: the original function with its body replaced.
#[derive(Debug, PartialEq, Eq)]
pub struct TransformedFunction {
    pub attributes: Vec<String>,
    pub visibility: String,
    pub signature: String,
    pub name: String,
    pub is_async: bool,
    pub body: WrapperBody,
}

/// The mathematical content of a [`TransformedFunction`].
pub struct TransformedFunctionView {
    pub attributes: Seq<Seq<char>>,
    pub visibility: Seq<char>,
    pub signature: Seq<char>,
    pub name: Seq<char>,
    pub is_async: bool,
    pub body: WrapperBodyView,
}

impl View for TransformedFunction {
    type V = TransformedFunctionView;

    open spec fn view(&self) -> TransformedFunctionView {
        TransformedFunctionView {
            attributes: texts_view(self.attributes@),
            visibility: self.visibility@,
            signature: self.signature@,
            name: self.name@,
            is_async: self.is_async,
            body: self.body@,
        }
    }
}

/// The name the log line shows: the configured one, else the function's own.
pub open spec fn display_name_of(config: ConfigView, function: FunctionDescriptorView) -> Seq<
    char,
> {
    match config.name {
        Some(name) => name,
        None => function.name,
    }
}

/// The instrumented function that `function` becomes under `config`.
pub open spec fn transformed(
    tracing: bool,
    config: ConfigView,
    function: FunctionDescriptorView,
) -> TransformedFunctionView {
    TransformedFunctionView {
        attributes: function.attributes,
        visibility: function.visibility,
        signature: function.signature,
        name: function.name,
        is_async: function.is_async,
        body: WrapperBodyView {
            display_name: display_name_of(config, function),
            channel: channel_of(config.level),
            gate: gate_of(config.threshold),
            kind: kind_of(function.is_async),
            span: tracing,
            original: function.body,
        },
    }
}

/// Builds instrumented functions. Whether the tracing collaborator takes
/// part is settled once, when the transformer is made.
#[derive(Clone, Copy, Debug, PartialEq, Eq, Structural)]
pub struct Transformer {
    tracing: bool,
}

impl Transformer {
    /// Whether this transformer wraps bodies in a tracing span.
    pub closed spec fn spec_tracing(self) -> bool {
        self.tracing
    }

    /// Makes a transformer with the tracing collaborator switched on or off.
    pub fn new(tracing: bool) -> (transformer: Transformer)
        ensures
            transformer.spec_tracing() == tracing,
    {
        Transformer { tracing }
    }

    /// Tells whether this transformer wraps bodies in a tracing span.
    #[verifier::when_used_as_spec(spec_tracing)]
    pub fn tracing(self) -> (tracing: bool)
        ensures
            tracing == self.spec_tracing(),
    {
        self.tracing
    }

    /// Replaces the body of `function` by the wrapper that `config` asks
    /// for. Attributes, visibility, signature, name and asyncness are handed
    /// on untouched, and the original body is moved into the wrapper. This
    /// never fails.
    pub fn transform(&self, config: HemeraConfig, function: FunctionDescriptor) -> (result:
        TransformedFunction)
        ensures
            result@ == transformed(self.spec_tracing(), config@, function@),
    {
        let FunctionDescriptor { attributes, visibility, signature, name, is_async, body } =
            function;
        let display_name: String = match config.name {
            Some(custom) => custom,
            None => name.clone(),
        };
        let channel: Channel = match config.level {
            Some(Level::Debug) => Channel::Stderr,
            _ => Channel::Stdout,
        };
        let gate: Gate = match config.threshold {
            Some(duration) => Gate::AtLeast(duration),
            None => Gate::Always,
        };
        let kind: FunctionKind = if is_async {
            FunctionKind::Async
        } else {
            FunctionKind::Sync
        };
        TransformedFunction {
            attributes,
            visibility,
            signature,
            name,
            is_async,
            body: WrapperBody {
                display_name,
                channel,
                gate,
                kind,
                span: self.tracing,
                original: body,
            },
        }
    }
}

} // verus!
