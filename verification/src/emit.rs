//! Rendering an instrumented function as source text.

use vstd::prelude::*;
use vstd::string::*;
use crate::digits::{decimal_digits, hex_digits, push_decimal, push_hex};
use crate::duration::TimeUnit;
use crate::function::texts_view;
use crate::text::{lemma_concat_associative, push_char};
use crate::transform::{
    Channel,
    FunctionKind,
    Gate,
    TransformedFunction,
    TransformedFunctionView,
    WrapperBody,
    WrapperBodyView,
};

verus! {

/// How one character is written inside a string literal. Quotes,
/// backslashes, newlines, carriage returns and tabs get their short escape;
/// other printable ASCII stands for itself; everything else is written by
/// its code point.
pub open spec fn escaped(c: char) -> Seq<char> {
    if c == '"' {
        seq!['\\', '"']
    } else if c == '\\' {
        seq!['\\', '\\']
    } else if c == '\n' {
        seq!['\\', 'n']
    } else if c == '\r' {
        seq!['\\', 'r']
    } else if c == '\t' {
        seq!['\\', 't']
    } else if ' ' <= c && c <= '~' {
        seq![c]
    } else {
        seq!['\\', 'u', '{'] + hex_digits(c as u32 as nat) + seq!['}']
    }
}

/// The characters of `s`, each written as inside a string literal.
pub open spec fn escaped_text(s: Seq<char>) -> Seq<char>
    decreases s.len(),
{
    if s.len() == 0 {
        Seq::empty()
    } else {
        escaped_text(s.drop_last()) + escaped(s.last())
    }
}

/// The string literal that denotes `s`.
pub open spec fn string_literal(s: Seq<char>) -> Seq<char> {
    seq!['"'] + escaped_text(s) + seq!['"']
}

/// The attributes, one per line.
pub open spec fn attributes_text(attributes: Seq<Seq<char>>) -> Seq<char>
    decreases attributes.len(),
{
    if attributes.len() == 0 {
        Seq::empty()
    } else {
        attributes_text(attributes.drop_last()) + attributes.last() + "\n"@
    }
}

/// The statements that open a tracing span tagged with the display name and
/// keep it entered until the body is left.
pub open spec fn span_text(name_literal: Seq<char>) -> Seq<char> {
    "let __hemera_span = tracing::info_span!(\"hemera\", function = "@ + name_literal
        + ");\nlet __hemera_enter = __hemera_span.enter();\n"@
}

/// The statement that runs the original body and keeps its result: inline
/// for an ordinary function, awaited in place for a suspendable one.
pub open spec fn call_text(kind: FunctionKind, original: Seq<char>) -> Seq<char> {
    match kind {
        FunctionKind::Sync => "let __hemera_result = (|| "@ + original + ")();\n"@,
        FunctionKind::Async => "let __hemera_result = async move { "@ + original
            + " }.await;\n"@,
    }
}

/// The name of the constructor that makes a duration from a count of `unit`.
pub open spec fn constructor_name(unit: TimeUnit) -> Seq<char> {
    match unit {
        TimeUnit::Seconds => "from_secs"@,
        TimeUnit::Milliseconds => "from_millis"@,
        TimeUnit::Microseconds => "from_micros"@,
        TimeUnit::Nanoseconds => "from_nanos"@,
    }
}

/// The condition under which the log line is written, as an expression.
pub open spec fn gate_text(gate: Gate) -> Seq<char> {
    match gate {
        Gate::Always => "true"@,
        Gate::AtLeast(duration) => "__hemera_elapsed >= std::time::Duration::"@
            + constructor_name(duration.unit) + "("@ + decimal_digits(duration.magnitude as nat)
            + "u64)"@,
    }
}

/// The statement that writes the log line.
pub open spec fn print_text(channel: Channel, name_literal: Seq<char>) -> Seq<char> {
    (match channel {
        Channel::Stdout => "println!"@,
        Channel::Stderr => "eprintln!"@,
    }) + "(\"\u{23f1} Function `{}` executed in {:.3?}\", "@ + name_literal
        + ", __hemera_elapsed);\n"@
}

/// The synthesized body as a block.
pub open spec fn body_text(body: WrapperBodyView) -> Seq<char> {
    let name_literal = string_literal(body.display_name);
    "{\n"@ + (if body.span {
        span_text(name_literal)
    } else {
        Seq::empty()
    }) + "let __hemera_start = std::time::Instant::now();\n"@ + call_text(
        body.kind,
        body.original,
    ) + "let __hemera_elapsed = __hemera_start.elapsed();\nif "@ + gate_text(body.gate)
        + " {\n"@ + print_text(body.channel, name_literal) + "}\n__hemera_result\n}\n"@
}

/// The instrumented function as source text: the attributes, the visibility
/// and the signature as they were, around the synthesized body.
pub open spec fn emitted(function: TransformedFunctionView) -> Seq<char> {
    attributes_text(function.attributes) + function.visibility + " "@ + function.signature
        + " {\n"@ + body_text(function.body) + "}\n"@
}

/// Appends `c` to `out`, written as inside a string literal.
pub fn push_escaped(out: &mut String, c: char)
    ensures
        final(out)@ == old(out)@ + escaped(c),
{
    if c == '"' {
        push_char(out, '\\');
        push_char(out, '"');
    } else if c == '\\' {
        push_char(out, '\\');
        push_char(out, '\\');
    } else if c == '\n' {
        push_char(out, '\\');
        push_char(out, 'n');
    } else if c == '\r' {
        push_char(out, '\\');
        push_char(out, 'r');
    } else if c == '\t' {
        push_char(out, '\\');
        push_char(out, 't');
    } else if ' ' <= c && c <= '~' {
        push_char(out, c);
    } else {
        push_char(out, '\\');
        push_char(out, 'u');
        push_char(out, '{');
        assert(out@ == old(out)@ + seq!['\\', 'u', '{']);
        push_hex(out, c as u32);
        push_char(out, '}');
        assert(out@ == old(out)@ + (seq!['\\', 'u', '{'] + hex_digits(c as u32 as nat) + seq![
            '}',
        ]));
    }
    assert(out@ == old(out)@ + escaped(c));
}

/// Appends the string literal that denotes `s` to `out`.
pub fn push_string_literal(out: &mut String, s: &str)
    ensures
        final(out)@ == old(out)@ + string_literal(s@),
{
    push_char(out, '"');
    let n: usize = s.unicode_len();
    let mut i: usize = 0;
    assert(s@.take(0) == Seq::<char>::empty());
    assert(out@ == old(out)@ + seq!['"'] + escaped_text(s@.take(0)));
    while i < n
        invariant
            i <= n,
            n == s@.len(),
            out@ == old(out)@ + seq!['"'] + escaped_text(s@.take(i as int)),
        decreases n - i,
    {
        push_escaped(out, s.get_char(i));
        proof {
            let next = s@.take(i + 1);
            assert(next.drop_last() == s@.take(i as int));
            assert(next.last() == s@[i as int]);
            assert(out@ == old(out)@ + seq!['"'] + escaped_text(next));
        }
        i += 1;
    }
    assert(s@.take(n as int) == s@);
    push_char(out, '"');
    assert(out@ == old(out)@ + string_literal(s@));
}

/// Appends the attributes to `out`, one per line.
pub fn push_attributes(out: &mut String, attributes: &Vec<String>)
    ensures
        final(out)@ == old(out)@ + attributes_text(texts_view(attributes@)),
{
    let ghost texts = texts_view(attributes@);
    let mut i: usize = 0;
    assert(texts.take(0) == Seq::<Seq<char>>::empty());
    assert(out@ == old(out)@ + attributes_text(texts.take(0)));
    while i < attributes.len()
        invariant
            i <= attributes.len(),
            texts == texts_view(attributes@),
            out@ == old(out)@ + attributes_text(texts.take(i as int)),
        decreases attributes.len() - i,
    {
        out.append(attributes[i].as_str());
        out.append("\n");
        proof {
            let next = texts.take(i + 1);
            assert(next.drop_last() == texts.take(i as int));
            assert(next.last() == attributes[i as int]@);
            assert(out@ == old(out)@ + attributes_text(next));
        }
        i += 1;
    }
    assert(texts.take(i as int) == texts);
}

/// Appends the condition of `gate`, as an expression, to `out`.
pub fn push_gate(out: &mut String, gate: &Gate)
    ensures
        final(out)@ == old(out)@ + gate_text(*gate),
{
    match gate {
        Gate::Always => {
            out.append("true");
        },
        Gate::AtLeast(duration) => {
            let ghost before = old(out)@;
            let ghost head = "__hemera_elapsed >= std::time::Duration::"@;
            let ghost name = constructor_name(duration.unit);
            let ghost digits = decimal_digits(duration.magnitude as nat);
            out.append("__hemera_elapsed >= std::time::Duration::");
            match duration.unit {
                TimeUnit::Seconds => out.append("from_secs"),
                TimeUnit::Milliseconds => out.append("from_millis"),
                TimeUnit::Microseconds => out.append("from_micros"),
                TimeUnit::Nanoseconds => out.append("from_nanos"),
            }
            out.append("(");
            push_decimal(out, duration.magnitude);
            out.append("u64)");
            proof {
                lemma_concat_associative(before, head, name);
                lemma_concat_associative(before, head + name, "("@);
                lemma_concat_associative(before, head + name + "("@, digits);
                lemma_concat_associative(before, head + name + "("@ + digits, "u64)"@);
            }
        },
    }
}

/// Appends the statements that open a tracing span to `out`.
pub fn push_span(out: &mut String, display_name: &str)
    ensures
        final(out)@ == old(out)@ + span_text(string_literal(display_name@)),
{
    let ghost literal = string_literal(display_name@);
    let ghost head = "let __hemera_span = tracing::info_span!(\"hemera\", function = "@;
    let ghost tail = ");\nlet __hemera_enter = __hemera_span.enter();\n"@;
    out.append("let __hemera_span = tracing::info_span!(\"hemera\", function = ");
    push_string_literal(out, display_name);
    out.append(");\nlet __hemera_enter = __hemera_span.enter();\n");
    proof {
        lemma_concat_associative(old(out)@, head, literal);
        lemma_concat_associative(old(out)@, head + literal, tail);
    }
}

/// Appends the statement that runs the original body to `out`.
pub fn push_call(out: &mut String, kind: FunctionKind, original: &str)
    ensures
        final(out)@ == old(out)@ + call_text(kind, original@),
{
    match kind {
        FunctionKind::Sync => {
            out.append("let __hemera_result = (|| ");
            out.append(original);
            out.append(")();\n");
            proof {
                let head = "let __hemera_result = (|| "@;
                lemma_concat_associative(old(out)@, head, original@);
                lemma_concat_associative(old(out)@, head + original@, ")();\n"@);
            }
        },
        FunctionKind::Async => {
            out.append("let __hemera_result = async move { ");
            out.append(original);
            out.append(" }.await;\n");
            proof {
                let head = "let __hemera_result = async move { "@;
                lemma_concat_associative(old(out)@, head, original@);
                lemma_concat_associative(old(out)@, head + original@, " }.await;\n"@);
            }
        },
    }
}

/// Appends the statement that writes the log line to `out`.
pub fn push_print(out: &mut String, channel: Channel, display_name: &str)
    ensures
        final(out)@ == old(out)@ + print_text(channel, string_literal(display_name@)),
{
    let ghost literal = string_literal(display_name@);
    let ghost head = match channel {
        Channel::Stdout => "println!"@,
        Channel::Stderr => "eprintln!"@,
    };
    let ghost format = "(\"\u{23f1} Function `{}` executed in {:.3?}\", "@;
    match channel {
        Channel::Stdout => out.append("println!"),
        Channel::Stderr => out.append("eprintln!"),
    }
    out.append("(\"\u{23f1} Function `{}` executed in {:.3?}\", ");
    push_string_literal(out, display_name);
    out.append(", __hemera_elapsed);\n");
    proof {
        lemma_concat_associative(old(out)@, head, format);
        lemma_concat_associative(old(out)@, head + format, literal);
        lemma_concat_associative(old(out)@, head + format + literal, ", __hemera_elapsed);\n"@);
    }
}

/// Appends the synthesized body to `out`.
pub fn push_body(out: &mut String, body: &WrapperBody)
    ensures
        final(out)@ == old(out)@ + body_text(body@),
{
    let ghost before = old(out)@;
    let ghost literal = string_literal(body.display_name@);
    let ghost span = if body.span {
        span_text(literal)
    } else {
        Seq::<char>::empty()
    };
    let ghost t1 = "{\n"@ + span;
    let ghost t2 = t1 + "let __hemera_start = std::time::Instant::now();\n"@;
    let ghost t3 = t2 + call_text(body.kind, body.original@);
    let ghost t4 = t3 + "let __hemera_elapsed = __hemera_start.elapsed();\nif "@;
    let ghost t5 = t4 + gate_text(body.gate);
    let ghost t6 = t5 + " {\n"@;
    let ghost t7 = t6 + print_text(body.channel, literal);
    let ghost t8 = t7 + "}\n__hemera_result\n}\n"@;
    assert(t8 == body_text(body@));
    out.append("{\n");
    if body.span {
        push_span(out, body.display_name.as_str());
    } else {
        assert(out@ + span == out@);
    }
    proof {
        lemma_concat_associative(before, "{\n"@, span);
    }
    assert(out@ == before + t1);
    out.append("let __hemera_start = std::time::Instant::now();\n");
    proof {
        lemma_concat_associative(
            before,
            t1,
            "let __hemera_start = std::time::Instant::now();\n"@,
        );
    }
    assert(out@ == before + t2);
    push_call(out, body.kind, body.original.as_str());
    proof {
        lemma_concat_associative(before, t2, call_text(body.kind, body.original@));
    }
    assert(out@ == before + t3);
    out.append("let __hemera_elapsed = __hemera_start.elapsed();\nif ");
    proof {
        lemma_concat_associative(
            before,
            t3,
            "let __hemera_elapsed = __hemera_start.elapsed();\nif "@,
        );
    }
    assert(out@ == before + t4);
    push_gate(out, &body.gate);
    proof {
        lemma_concat_associative(before, t4, gate_text(body.gate));
    }
    assert(out@ == before + t5);
    out.append(" {\n");
    proof {
        lemma_concat_associative(before, t5, " {\n"@);
    }
    assert(out@ == before + t6);
    push_print(out, body.channel, body.display_name.as_str());
    proof {
        lemma_concat_associative(before, t6, print_text(body.channel, literal));
    }
    assert(out@ == before + t7);
    out.append("}\n__hemera_result\n}\n");
    proof {
        lemma_concat_associative(before, t7, "}\n__hemera_result\n}\n"@);
    }
}

/// Renders an instrumented function as source text. The attributes, the
/// visibility and the signature are written as they are; nothing is decided
/// here.
pub fn emit(function: &TransformedFunction) -> (code: String)
    ensures
        code@ == emitted(function@),
{
    let ghost view = function@;
    let ghost t1 = attributes_text(view.attributes);
    let ghost t2 = t1 + view.visibility;
    let ghost t3 = t2 + " "@;
    let ghost t4 = t3 + view.signature;
    let ghost t5 = t4 + " {\n"@;
    let ghost t6 = t5 + body_text(view.body);
    let mut out: String = String::new();
    push_attributes(&mut out, &function.attributes);
    assert(out@ == t1);
    out.append(function.visibility.as_str());
    out.append(" ");
    out.append(function.signature.as_str());
    out.append(" {\n");
    assert(out@ == t5);
    push_body(&mut out, &function.body);
    assert(out@ == t6);
    out.append("}\n");
    out
}

} // verus!
