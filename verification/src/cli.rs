//! The `--scene` command-line option: which scene file to start with.
//! Typos fail fast with a clear message instead of being ignored.

use crate::paths::{
    component_count, extension, join, path_component_count, path_extension, path_join,
    path_with_extension, with_extension,
};
use vstd::prelude::*;
use vstd::string::{StrSliceExecFns, StringExecFns};

verus! {

/// One step of reading the arguments.
#[derive(Debug)]
pub enum ArgStep {
    /// No arguments are left.
    Done,
    /// A `--scene` option with a usable value.
    Scene(String),
    /// `--scene` was the last argument.
    MissingValue,
    /// An argument that is not a `--scene` option.
    Unknown(String),
    /// A `--scene` value that is empty or starts with `-`.
    Invalid(String),
}

/// A scene value must be non-empty and must not look like an option.
pub open spec fn usable_value(v: Seq<char>) -> bool {
    v.len() > 0 && v[0] != '-'
}

pub open spec fn has_prefix(s: Seq<char>, prefix: Seq<char>) -> bool {
    s.len() >= prefix.len() && s.subrange(0, prefix.len() as int) == prefix
}

/// The step for a `--scene` value `v`.
pub open spec fn value_step(v: Seq<char>) -> ArgStepView {
    if usable_value(v) { ArgStepView::Scene(v) } else { ArgStepView::Invalid(v) }
}

/// `ArgStep` with its texts as character sequences.
pub enum ArgStepView {
    Done,
    Scene(Seq<char>),
    MissingValue,
    Unknown(Seq<char>),
    Invalid(Seq<char>),
}

pub open spec fn step_view(s: ArgStep) -> ArgStepView {
    match s {
        ArgStep::Done => ArgStepView::Done,
        ArgStep::Scene(v) => ArgStepView::Scene(v@),
        ArgStep::MissingValue => ArgStepView::MissingValue,
        ArgStep::Unknown(v) => ArgStepView::Unknown(v@),
        ArgStep::Invalid(v) => ArgStepView::Invalid(v@),
    }
}

/// What the argument at `i` means, and where the next one starts.
pub open spec fn scene_arg_at(args: Seq<Seq<char>>, i: int) -> (ArgStepView, int) {
    if i >= args.len() {
        (ArgStepView::Done, i)
    } else if args[i] == "--scene"@ {
        if i + 1 < args.len() {
            (value_step(args[i + 1]), i + 2)
        } else {
            (ArgStepView::MissingValue, i + 1)
        }
    } else if has_prefix(args[i], "--scene="@) {
        (value_step(args[i].skip("--scene="@.len() as int)), i + 1)
    } else {
        (ArgStepView::Unknown(args[i]), i + 1)
    }
}

pub open spec fn arg_texts(args: Seq<String>) -> Seq<Seq<char>> {
    Seq::new(args.len(), |k: int| args[k]@)
}

fn value_step_exec(v: String) -> (s: ArgStep)
    ensures
        step_view(s) == value_step(v@),
{
    let usable = v.as_str().unicode_len() > 0 && v.as_str().get_char(0) != '-';
    if usable {
        ArgStep::Scene(v)
    } else {
        ArgStep::Invalid(v)
    }
}

/// Read the argument at `i` (the program name excluded); returns the step and
/// the index of the next argument.
pub fn next_scene_arg(args: &Vec<String>, i: usize) -> (r: (ArgStep, usize))
    ensures
        (step_view(r.0), r.1 as int) == scene_arg_at(arg_texts(args@), i as int),
{
    let ghost texts = arg_texts(args@);
    if i >= args.len() {
        return (ArgStep::Done, i);
    }
    let arg = args[i].as_str();
    assert(texts[i as int] == arg@);
    let flag = String::from_str("--scene");
    if args[i] == flag {
        if i + 1 < args.len() {
            assert(texts[i + 1] == args@[i + 1]@);
            return (value_step_exec(args[i + 1].clone()), i + 2);
        } else {
            return (ArgStep::MissingValue, i + 1);
        }
    }
    proof {
        reveal_strlit("--scene=");
    }
    let len = arg.unicode_len();
    if len >= 8 {
        let head = String::from_str(arg.substring_char(0, 8));
        let prefix = String::from_str("--scene=");
        if head == prefix {
            let value = String::from_str(arg.substring_char(8, len));
            assert(value@ == arg@.skip(8));
            return (value_step_exec(value), i + 1);
        }
    }
    (ArgStep::Unknown(args[i].clone()), i + 1)
}

/// Where a scene value points: a value with an extension or more than one
/// path component is a path as given; a bare name is looked up as
/// `<name>.json` under `assets/scenes`.
pub open spec fn scene_path_spec(value: Seq<char>) -> Seq<char> {
    if path_extension(value) is Some || path_component_count(value) > 1 {
        value
    } else {
        path_with_extension(path_join("assets/scenes"@, value), "json"@)
    }
}

/// The scene file a usable `--scene` value names.
pub fn scene_path(value: &str) -> (p: String)
    ensures
        p@ == scene_path_spec(value@),
{
    if extension(value).is_some() || component_count(value) > 1 {
        String::from_str(value)
    } else {
        let joined = join("assets/scenes", value);
        proof {
            reveal_strlit("json");
        }
        with_extension(joined.as_str(), "json")
    }
}

} // verus!
