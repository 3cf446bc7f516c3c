//! The options of the attribute: `name`, `level` and `threshold`.

use vstd::prelude::*;
use vstd::string::*;
use crate::duration::{duration_of, parse_threshold, Duration};
use crate::error::{HemeraError, HemeraErrorView};
use crate::syntax::parse_meta_list;
use crate::text::{same_text, trimmed};

verus! {

/// Where the log line of an instrumented function is written.
#[derive(Clone, Copy, Debug, PartialEq, Eq, Structural)]
pub enum Level {
    /// Ordinary output; the default.
    Info,
    /// Diagnostic output, kept apart from what the program prints.
    Debug,
}

/// One argument of the attribute, as far as the options depend on it.
#[derive(Debug, PartialEq, Eq)]
pub enum AttrArg {
    /// An argument of the form `key = value`.
    NameValue {
        /// The key, where it is a single identifier.
        key: Option<String>,
        /// What the value holds, where it is a string literal.
        value: Option<String>,
    },
    /// Any other argument, such as a bare identifier or a nested list.
    Other,
}

/// The mathematical content of an [`AttrArg`].
pub enum AttrArgView {
    NameValue { key: Option<Seq<char>>, value: Option<Seq<char>> },
    Other,
}

/// The mathematical content of an optional string.
pub open spec fn text_view(text: Option<String>) -> Option<Seq<char>> {
    match text {
        Some(t) => Some(t@),
        None => None,
    }
}

impl View for AttrArg {
    type V = AttrArgView;

    open spec fn view(&self) -> AttrArgView {
        match self {
            AttrArg::NameValue { key, value } => AttrArgView::NameValue {
                key: text_view(*key),
                value: text_view(*value),
            },
            AttrArg::Other => AttrArgView::Other,
        }
    }
}

/// The mathematical content of a list of arguments.
pub open spec fn args_view(args: Seq<AttrArg>) -> Seq<AttrArgView> {
    Seq::new(args.len(), |i: int| args[i]@)
}

/// The validated options of one attribute. An absent name stands for the
/// function's own name, an absent level for `Info`, and an absent threshold
/// for logging every call.
#[derive(Debug, PartialEq, Eq)]
pub struct HemeraConfig {
    pub name: Option<String>,
    pub level: Option<Level>,
    pub threshold: Option<Duration>,
}

/// The mathematical content of a [`HemeraConfig`].
pub struct ConfigView {
    pub name: Option<Seq<char>>,
    pub level: Option<Level>,
    pub threshold: Option<Duration>,
}

impl View for HemeraConfig {
    type V = ConfigView;

    open spec fn view(&self) -> ConfigView {
        ConfigView { name: text_view(self.name), level: self.level, threshold: self.threshold }
    }
}

impl ConfigView {
    /// The options of an attribute without arguments.
    pub open spec fn empty() -> ConfigView {
        ConfigView { name: None, level: None, threshold: None }
    }
}

/// A parsing result with both sides replaced by their mathematical content.
pub open spec fn config_result_view(r: Result<HemeraConfig, HemeraError>) -> Result<
    ConfigView,
    HemeraErrorView,
> {
    match r {
        Ok(config) => Ok(config@),
        Err(error) => Err(error@),
    }
}

/// The defect of a single argument, if it has one: it is not a `key = value`
/// pair with an identifier for a key, or its key is not recognized, or it
/// sets `level` to a string other than `debug` and `info`.
pub open spec fn arg_error(arg: AttrArgView) -> Option<HemeraErrorView> {
    match arg {
        AttrArgView::Other => Some(HemeraErrorView::ExpectedNameValuePair),
        AttrArgView::NameValue { key: None, .. } => Some(HemeraErrorView::ExpectedNameValuePair),
        AttrArgView::NameValue { key: Some(key), value } => {
            if key == "level"@ {
                match value {
                    Some(v) if v != "debug"@ && v != "info"@ => Some(
                        HemeraErrorView::InvalidLevelValue(v),
                    ),
                    _ => None,
                }
            } else if key == "name"@ || key == "threshold"@ {
                None
            } else {
                Some(HemeraErrorView::UnknownOption(key))
            }
        },
    }
}

/// The defect of the first defective argument.
pub open spec fn first_error(args: Seq<AttrArgView>) -> Option<HemeraErrorView>
    decreases args.len(),
{
    if args.len() == 0 {
        None
    } else {
        match first_error(args.drop_last()) {
            Some(error) => Some(error),
            None => arg_error(args.last()),
        }
    }
}

/// Whether `arg` gives the option `key` a string.
pub open spec fn sets(arg: AttrArgView, key: Seq<char>) -> bool {
    arg matches AttrArgView::NameValue { key: Some(k), value: Some(_) } && k == key
}

/// The string that the last argument under `key` with a string for a value
/// gives it.
pub open spec fn last_value(args: Seq<AttrArgView>, key: Seq<char>) -> Option<Seq<char>>
    decreases args.len(),
{
    if args.len() == 0 {
        None
    } else if sets(args.last(), key) {
        args.last()->value
    } else {
        last_value(args.drop_last(), key)
    }
}

/// The position of the first defective argument.
pub open spec fn first_defect(args: Seq<AttrArgView>) -> Option<int>
    decreases args.len(),
{
    if args.len() == 0 {
        None
    } else {
        match first_defect(args.drop_last()) {
            Some(position) => Some(position),
            None => if arg_error(args.last()) is Some {
                Some(args.len() - 1)
            } else {
                None
            },
        }
    }
}

/// The position of the last argument that gives the option `key` a string.
pub open spec fn last_setting(args: Seq<AttrArgView>, key: Seq<char>) -> Option<int>
    decreases args.len(),
{
    if args.len() == 0 {
        None
    } else if sets(args.last(), key) {
        Some(args.len() - 1)
    } else {
        last_setting(args.drop_last(), key)
    }
}

/// The level that a validated `level` string names.
pub open spec fn level_of(value: Option<Seq<char>>) -> Option<Level> {
    match value {
        None => None,
        Some(v) => if v == "debug"@ {
            Some(Level::Debug)
        } else {
            Some(Level::Info)
        },
    }
}

/// The options that a list of arguments amounts to. The first defective
/// argument decides the error. Without one, each option has the value of its
/// last occurrence, and the threshold that is left is parsed.
pub open spec fn config_of(args: Seq<AttrArgView>) -> Result<ConfigView, HemeraErrorView> {
    match first_error(args) {
        Some(error) => Err(error),
        None => {
            let name = last_value(args, "name"@);
            let level = level_of(last_value(args, "level"@));
            match last_value(args, "threshold"@) {
                None => Ok(ConfigView { name, level, threshold: None }),
                Some(raw) => match duration_of(trimmed(raw)) {
                    Ok(threshold) => Ok(ConfigView { name, level, threshold: Some(threshold) }),
                    Err(error) => Err(error),
                },
            }
        },
    }
}

/// The position of the argument that is to blame where the arguments are
/// rejected: the first defective one, or else the one that set the
/// threshold.
pub open spec fn blamed(args: Seq<AttrArgView>) -> Option<int> {
    match first_defect(args) {
        Some(position) => Some(position),
        None => if config_of(args) is Err {
            last_setting(args, "threshold"@)
        } else {
            None
        },
    }
}

impl AttrArg {
    /// Reads the raw arguments of an attribute. Empty text holds no
    /// arguments. Other text is handed to the Rust parser; `None` tells that
    /// it could not read the text as a list of attribute arguments.
    pub fn parse_list(attr: &str) -> (parsed: Option<Vec<AttrArg>>)
        ensures
            attr@.len() == 0 ==> (parsed matches Some(args) && args@.len() == 0),
    {
        if attr.is_empty() {
            return Some(Vec::new());
        }
        match parse_meta_list(attr) {
            Ok(args) => Some(args),
            Err(_) => None,
        }
    }
}

impl HemeraConfig {
    /// The options of an attribute without arguments: nothing is set.
    pub fn new() -> (config: HemeraConfig)
        ensures
            config@ == ConfigView::empty(),
    {
        HemeraConfig { name: None, level: None, threshold: None }
    }

    /// Parses the raw arguments of an attribute.
    ///
    /// Empty text gives the options in which nothing is set. Other text is
    /// handed to the Rust parser, and what it reads is folded by
    /// [`HemeraConfig::from_args`]; text that it cannot read as a list of
    /// attribute arguments is reported as `ExpectedNameValuePair`. Either
    /// way the result is what some list of arguments amounts to.
    pub fn parse(attr: &str) -> (parsed: Result<HemeraConfig, HemeraError>)
        ensures
            exists|args: Seq<AttrArgView>|
                (attr@.len() == 0 ==> args.len() == 0) && #[trigger] config_of(args)
                    == config_result_view(parsed),
    {
        match AttrArg::parse_list(attr) {
            Some(args) => {
                assert(attr@.len() == 0 ==> args_view(args@).len() == 0);
                HemeraConfig::from_args(&args)
            },
            None => {
                proof {
                    let bad = seq![AttrArgView::Other];
                    assert(bad.drop_last() == Seq::<AttrArgView>::empty());
                    assert(first_error(bad.drop_last()) is None);
                    assert(config_of(bad) == Err::<ConfigView, HemeraErrorView>(
                        HemeraErrorView::ExpectedNameValuePair,
                    ));
                }
                Err(HemeraError::ExpectedNameValuePair)
            },
        }
    }

    /// Folds the arguments of an attribute into its options.
    ///
    /// The arguments are examined in order and the first defective one ends
    /// the parse: an argument that is not a `key = value` pair, an unknown
    /// key, or a `level` other than `"debug"` and `"info"`. A recognized key
    /// whose value is not a string literal changes nothing. Where a key
    /// occurs more than once, its last string wins. The threshold is parsed
    /// once all arguments have been accepted.
    pub fn from_args(args: &Vec<AttrArg>) -> (parsed: Result<HemeraConfig, HemeraError>)
        ensures
            config_result_view(parsed) == config_of(args_view(args@)),
    {
        match fold_args(args) {
            Ok(config) => Ok(config),
            Err((_, error)) => Err(error),
        }
    }

    /// Tells which argument is to blame where [`HemeraConfig::from_args`]
    /// rejects the arguments: the first defective one, or, where none is
    /// defective, the one whose threshold does not parse. Arguments that
    /// are accepted give `None`.
    pub fn blamed_argument(args: &Vec<AttrArg>) -> (position: Option<usize>)
        ensures
            match position {
                Some(p) => blamed(args_view(args@)) == Some(p as int),
                None => blamed(args_view(args@)) is None,
            },
    {
        match fold_args(args) {
            Ok(_) => None,
            Err((position, _)) => Some(position),
        }
    }
}

/// Folds the arguments into options, or finds the error together with the
/// position of the argument that is to blame.
fn fold_args(args: &Vec<AttrArg>) -> (folded: Result<HemeraConfig, (usize, HemeraError)>)
    ensures
        match folded {
            Ok(config) => config_of(args_view(args@)) == Ok::<ConfigView, HemeraErrorView>(
                config@,
            ) && blamed(args_view(args@)) is None,
            Err((position, error)) => config_of(args_view(args@)) == Err::<
                ConfigView,
                HemeraErrorView,
            >(error@) && blamed(args_view(args@)) == Some(position as int),
        },
{
    let mut name: Option<String> = None;
    let mut level: Option<Level> = None;
    let mut threshold: Option<String> = None;
    let mut threshold_at: usize = 0;
    let ghost views = args_view(args@);
    proof {
        reveal_strlit("name");
        reveal_strlit("level");
        reveal_strlit("threshold");
        reveal_strlit("debug");
        reveal_strlit("info");
    }
    let mut i: usize = 0;
    while i < args.len()
        invariant
            i <= args.len(),
            views == args_view(args@),
            "name"@.len() == 4,
            "level"@.len() == 5,
            "threshold"@.len() == 9,
            "debug"@.len() == 5,
            "info"@.len() == 4,
            first_error(views.take(i as int)) is None,
            text_view(name) == last_value(views.take(i as int), "name"@),
            level == level_of(last_value(views.take(i as int), "level"@)),
            text_view(threshold) == last_value(views.take(i as int), "threshold"@),
            last_setting(views.take(i as int), "threshold"@) == if threshold is Some {
                Some(threshold_at as int)
            } else {
                None
            },
        decreases args.len() - i,
    {
        proof {
            assert(views.take(i + 1).drop_last() == views.take(i as int));
            assert(views.take(i + 1).last() == args[i as int]@);
        }
        match &args[i] {
            AttrArg::NameValue { key: Some(key), value } => {
                if same_text(key.as_str(), "level") {
                    match value {
                        Some(v) => {
                            if same_text(v.as_str(), "debug") {
                                level = Some(Level::Debug);
                            } else if same_text(v.as_str(), "info") {
                                level = Some(Level::Info);
                            } else {
                                proof {
                                    lemma_first_error_at(views, i as int);
                                }
                                return Err((i, HemeraError::InvalidLevelValue(v.clone())));
                            }
                        },
                        None => {},
                    }
                } else if same_text(key.as_str(), "name") {
                    match value {
                        Some(v) => {
                            name = Some(v.clone());
                        },
                        None => {},
                    }
                } else if same_text(key.as_str(), "threshold") {
                    match value {
                        Some(v) => {
                            threshold = Some(v.clone());
                            threshold_at = i;
                        },
                        None => {},
                    }
                } else {
                    proof {
                        lemma_first_error_at(views, i as int);
                    }
                    return Err((i, HemeraError::UnknownOption(key.clone())));
                }
            },
            _ => {
                proof {
                    lemma_first_error_at(views, i as int);
                }
                return Err((i, HemeraError::ExpectedNameValuePair));
            },
        }
        i += 1;
    }
    proof {
        assert(views.take(i as int) == views);
        lemma_defect_has_error(views);
    }
    match threshold {
        None => Ok(HemeraConfig { name, level, threshold: None }),
        Some(raw) => match parse_threshold(raw.as_str()) {
            Ok(parsed) => Ok(HemeraConfig { name, level, threshold: Some(parsed) }),
            Err(error) => Err((threshold_at, error)),
        },
    }
}

/// There is a first defective argument exactly where there is a first
/// error, and the error is that argument's.
pub proof fn lemma_defect_has_error(args: Seq<AttrArgView>)
    ensures
        first_defect(args) is Some <==> first_error(args) is Some,
        first_defect(args) matches Some(position) ==> 0 <= position < args.len() && arg_error(
            args[position],
        ) == first_error(args) && first_error(args.take(position)) is None,
    decreases args.len(),
{
    if args.len() > 0 {
        let front = args.drop_last();
        lemma_defect_has_error(front);
        match first_defect(front) {
            Some(position) => {
                assert(front.take(position) == args.take(position));
            },
            None => {
                assert(args.take(args.len() - 1) == front);
            },
        }
    }
}

/// The first defective argument decides the error: where the arguments
/// before position `i` are sound and the one at `i` is not, its defect is
/// the defect of the whole list.
pub proof fn lemma_first_error_at(args: Seq<AttrArgView>, i: int)
    requires
        0 <= i < args.len(),
        first_error(args.take(i)) is None,
        arg_error(args[i]) is Some,
    ensures
        first_error(args) == arg_error(args[i]),
        first_defect(args) == Some(i),
        config_of(args) == Err::<ConfigView, HemeraErrorView>(arg_error(args[i])->0),
        blamed(args) == Some(i),
    decreases args.len(),
{
    if i == args.len() - 1 {
        assert(args.drop_last() == args.take(i));
        lemma_defect_has_error(args.drop_last());
    } else {
        assert(args.drop_last().take(i) == args.take(i));
        lemma_first_error_at(args.drop_last(), i);
    }
}

} // verus!
