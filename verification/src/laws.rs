//! What holds of the library as a whole.

use vstd::prelude::*;
use crate::digits::{decimal_digits, is_decimal_digit, lemma_decimal_round_trip};
use crate::duration::{
    duration_of,
    has_suffix,
    integer_of,
    split_unit,
    unit_suffix,
    unsigned_part,
    Duration,
    TimeUnit,
};
use crate::emit::{attributes_text, body_text, emitted};
use crate::error::{HemeraError, HemeraErrorView};
use crate::function::FunctionDescriptorView;
use crate::options::{
    arg_error,
    args_view,
    blamed,
    config_of,
    config_result_view,
    first_defect,
    first_error,
    last_setting,
    last_value,
    lemma_defect_has_error,
    lemma_first_error_at,
    sets,
    AttrArg,
    AttrArgView,
    ConfigView,
    HemeraConfig,
};
use crate::text::trimmed;
use crate::transform::{kind_of, transformed, Channel};

verus! {

/// A magnitude written in decimal digits and followed by the letters of a
/// unit is read back as that magnitude in that unit. In particular the `s`
/// that every unit ends in never makes seconds of another unit.
pub proof fn law_written_thresholds_parse(duration: Duration)
    ensures
        duration_of(decimal_digits(duration.magnitude as nat) + unit_suffix(duration.unit)) == Ok::<
            Duration,
            HemeraErrorView,
        >(duration),
{
    let digits = decimal_digits(duration.magnitude as nat);
    let suffix = unit_suffix(duration.unit);
    let text = digits + suffix;
    lemma_decimal_round_trip(duration.magnitude as nat);
    assert(is_decimal_digit(digits[0]));
    assert(is_decimal_digit(digits[digits.len() - 1]));
    assert(unsigned_part(digits) == digits);
    assert(integer_of(digits) == Some(duration.magnitude));
    assert(text.take(digits.len() as int) =~= digits);
    assert(text.subrange(digits.len() as int, text.len() as int) =~= suffix);
    match duration.unit {
        TimeUnit::Seconds => {
            let before = text.subrange(text.len() - 2, text.len() as int);
            if text.len() >= 2 {
                assert(before[0] == digits[digits.len() - 1]);
            }
            assert(!has_suffix(text, seq!['m', 's']));
            assert(!has_suffix(text, seq!['u', 's']));
            assert(!has_suffix(text, seq!['\u{b5}', 's']));
            assert(!has_suffix(text, seq!['n', 's']));
            assert(has_suffix(text, seq!['s']));
        },
        TimeUnit::Milliseconds => {
            assert(has_suffix(text, seq!['m', 's']));
        },
        TimeUnit::Microseconds => {
            assert(has_suffix(text, seq!['u', 's']));
            assert(text.subrange(text.len() - 2, text.len() as int)[0] == 'u');
            assert(!has_suffix(text, seq!['m', 's']));
        },
        TimeUnit::Nanoseconds => {
            assert(has_suffix(text, seq!['n', 's']));
            assert(text.subrange(text.len() - 2, text.len() as int)[0] == 'n');
            assert(!has_suffix(text, seq!['m', 's']));
            assert(!has_suffix(text, seq!['u', 's']));
            assert(!has_suffix(text, seq!['\u{b5}', 's']));
        },
    }
    assert(split_unit(text) == Some((digits, duration.unit)));
}

/// Without a threshold every call is logged, however long it took.
pub proof fn law_no_threshold_logs_every_call(
    tracing: bool,
    config: ConfigView,
    function: FunctionDescriptorView,
    elapsed_nanos: nat,
)
    requires
        config.threshold is None,
    ensures
        transformed(tracing, config, function).body.gate.admits(elapsed_nanos),
{
}

/// With a threshold a call is logged exactly when it took at least that
/// long, both measured in nanoseconds.
pub proof fn law_threshold_decides_logging(
    tracing: bool,
    config: ConfigView,
    function: FunctionDescriptorView,
    threshold: Duration,
    elapsed_nanos: nat,
)
    requires
        config.threshold == Some(threshold),
    ensures
        transformed(tracing, config, function).body.gate.admits(elapsed_nanos) <==> elapsed_nanos
            >= threshold.nanos(),
{
}

/// Arguments that are accepted leave `level` unset or set to `info` or
/// `debug`. Only `debug` sends the log line to standard error.
pub proof fn law_level_decides_channel(
    tracing: bool,
    args: Seq<AttrArgView>,
    function: FunctionDescriptorView,
)
    requires
        config_of(args) is Ok,
    ensures
        ({
            let channel = transformed(tracing, config_of(args)->Ok_0, function).body.channel;
            match last_value(args, "level"@) {
                None => channel == Channel::Stdout,
                Some(level) => (level == "info"@ && channel == Channel::Stdout) || (level
                    == "debug"@ && channel == Channel::Stderr),
            }
        }),
{
    reveal_strlit("debug");
    reveal_strlit("info");
    lemma_accepted_level(args);
}

/// Where no argument is defective, the last string given to `level`, if
/// there is one, is `debug` or `info`.
pub proof fn lemma_accepted_level(args: Seq<AttrArgView>)
    requires
        first_error(args) is None,
    ensures
        last_value(args, "level"@) matches Some(level) ==> level == "debug"@ || level == "info"@,
    decreases args.len(),
{
    if args.len() > 0 {
        if !sets(args.last(), "level"@) {
            lemma_accepted_level(args.drop_last());
        }
    }
}

/// A `level` that is neither `debug` nor `info` is rejected with its value,
/// where no earlier argument is defective.
pub proof fn law_other_level_is_rejected(args: Seq<AttrArgView>, i: int, level: Seq<char>)
    requires
        0 <= i < args.len(),
        first_error(args.take(i)) is None,
        args[i] == (AttrArgView::NameValue { key: Some("level"@), value: Some(level) }),
        level != "debug"@,
        level != "info"@,
    ensures
        config_of(args) == Err::<ConfigView, HemeraErrorView>(
            HemeraErrorView::InvalidLevelValue(level),
        ),
{
    lemma_first_error_at(args, i);
}

/// The instrumented function has the attributes, visibility, signature,
/// name and asyncness of the original, its wrapper runs the original body in
/// the original's execution model, and its source text begins with the
/// original's header, character for character. Only the body differs.
pub proof fn law_only_the_body_differs(
    tracing: bool,
    config: ConfigView,
    function: FunctionDescriptorView,
)
    ensures
        ({
            let result = transformed(tracing, config, function);
            &&& result.attributes == function.attributes
            &&& result.visibility == function.visibility
            &&& result.signature == function.signature
            &&& result.name == function.name
            &&& result.is_async == function.is_async
            &&& result.body.kind == kind_of(function.is_async)
            &&& result.body.original == function.body
            &&& emitted(result) == attributes_text(function.attributes) + function.visibility
                + " "@ + function.signature + " {\n"@ + body_text(result.body) + "}\n"@
            &&& (attributes_text(function.attributes) + function.visibility + " "@
                + function.signature).is_prefix_of(emitted(result))
        }),
{
    let result = transformed(tracing, config, function);
    let header = attributes_text(function.attributes) + function.visibility + " "@
        + function.signature;
    assert(emitted(result) == header + " {\n"@ + body_text(result.body) + "}\n"@);
    assert(emitted(result).subrange(0, header.len() as int) =~= header);
}

/// Parsing is repeatable: two outcomes that each meet the parser's contract
/// on lists of arguments with the same content are equal.
pub proof fn law_parsing_is_repeatable(
    first_args: Seq<AttrArg>,
    second_args: Seq<AttrArg>,
    first: Result<HemeraConfig, HemeraError>,
    second: Result<HemeraConfig, HemeraError>,
)
    requires
        args_view(first_args) == args_view(second_args),
        config_result_view(first) == config_of(args_view(first_args)),
        config_result_view(second) == config_of(args_view(second_args)),
    ensures
        config_result_view(first) == config_result_view(second),
{
}

/// No arguments, no options.
pub proof fn law_no_arguments_set_nothing()
    ensures
        config_of(Seq::<AttrArgView>::empty()) == Ok::<ConfigView, HemeraErrorView>(
            ConfigView::empty(),
        ),
{
}

/// Where a key is repeated, the last string given to it wins: a string that
/// no later argument replaces is the option's value.
pub proof fn law_last_occurrence_wins(args: Seq<AttrArgView>, key: Seq<char>, i: int)
    requires
        0 <= i < args.len(),
        sets(args[i], key),
        forall|j: int| i < j < args.len() ==> !sets(#[trigger] args[j], key),
    ensures
        last_value(args, key) == args[i]->value,
    decreases args.len(),
{
    if i < args.len() - 1 {
        law_last_occurrence_wins(args.drop_last(), key, i);
    }
}

/// A recognized key whose value is no string literal changes nothing: the
/// arguments amount to what they amount to without it.
pub proof fn law_value_without_string_is_ignored(args: Seq<AttrArgView>, key: Seq<char>)
    requires
        key == "name"@ || key == "level"@ || key == "threshold"@,
    ensures
        config_of(args.push(AttrArgView::NameValue { key: Some(key), value: None }))
            == config_of(args),
{
    let arg = AttrArgView::NameValue { key: Some(key), value: None };
    let longer = args.push(arg);
    assert(longer.drop_last() == args);
    assert(longer.last() == arg);
    assert(arg_error(arg) is None);
}

/// Where no argument is defective, none is, one by one.
pub proof fn lemma_sound_arguments(args: Seq<AttrArgView>)
    requires
        first_error(args) is None,
    ensures
        forall|j: int| 0 <= j < args.len() ==> arg_error(#[trigger] args[j]) is None,
    decreases args.len(),
{
    if args.len() > 0 {
        lemma_sound_arguments(args.drop_last());
        assert forall|j: int| 0 <= j < args.len() implies arg_error(#[trigger] args[j]) is None by {
            if j < args.len() - 1 {
                assert(args.drop_last()[j] == args[j]);
            }
        }
    }
}

/// The last argument that gives `key` a string is where `last_setting`
/// says, and its string is what `last_value` says.
pub proof fn lemma_last_setting(args: Seq<AttrArgView>, key: Seq<char>)
    ensures
        last_setting(args, key) is Some <==> last_value(args, key) is Some,
        last_setting(args, key) matches Some(position) ==> {
            &&& 0 <= position < args.len()
            &&& sets(args[position], key)
            &&& args[position]->value == last_value(args, key)
            &&& forall|j: int| position < j < args.len() ==> !sets(#[trigger] args[j], key)
        },
    decreases args.len(),
{
    if args.len() > 0 && !sets(args.last(), key) {
        lemma_last_setting(args.drop_last(), key);
        match last_setting(args, key) {
            Some(position) => {
                assert forall|j: int| position < j < args.len() implies !sets(
                    #[trigger] args[j],
                    key,
                ) by {
                    if j < args.len() - 1 {
                        assert(args.drop_last()[j] == args[j]);
                    }
                }
            },
            None => {},
        }
    }
}

/// An argument is blamed exactly where the arguments are rejected. It is
/// the first defective argument, and the error is its defect; or, where no
/// argument is defective, it is the last one that set the threshold, and
/// the error is that of its threshold.
pub proof fn law_blamed_argument(args: Seq<AttrArgView>)
    ensures
        blamed(args) is Some <==> config_of(args) is Err,
        blamed(args) matches Some(position) ==> {
            &&& 0 <= position < args.len()
            &&& arg_error(args[position]) matches Some(defect) ==> {
                &&& config_of(args) == Err::<ConfigView, HemeraErrorView>(defect)
                &&& forall|j: int| 0 <= j < position ==> arg_error(#[trigger] args[j]) is None
            }
            &&& arg_error(args[position]) is None ==> {
                &&& forall|j: int| 0 <= j < args.len() ==> arg_error(#[trigger] args[j]) is None
                &&& args[position] matches AttrArgView::NameValue {
                    key: Some(key),
                    value: Some(raw),
                }
                &&& key == "threshold"@
                &&& duration_of(trimmed(raw)) matches Err(error)
                &&& config_of(args) == Err::<ConfigView, HemeraErrorView>(error)
                &&& forall|j: int|
                    position < j < args.len() ==> !sets(#[trigger] args[j], "threshold"@)
            }
        },
{
    lemma_defect_has_error(args);
    lemma_last_setting(args, "threshold"@);
    match first_defect(args) {
        Some(position) => {
            lemma_first_error_at(args, position);
            lemma_sound_arguments(args.take(position));
            assert forall|j: int| 0 <= j < position implies arg_error(#[trigger] args[j])
                is None by {
                assert(args.take(position)[j] == args[j]);
            }
        },
        None => {
            lemma_sound_arguments(args);
        },
    }
}

} // verus!
