//! What a goodfile, the Lua script that says how to build a repository, may ask for.

use crate::paths::file_name;
use crate::paths::file_name_of;
use crate::paths::parent;
use crate::paths::parent_of;
use crate::text::decimal;
use crate::text::decimal_text;
use crate::text::same;
use crate::text::views;
use vstd::prelude::*;

verus! {

/// A value that a goodfile passed, with the text that stands for it in error messages.
pub struct LuaArg {
    pub kind: LuaKind,
    pub shown: String,
}

/// What a value is.
pub enum LuaKind {
    Nil,
    Text(String),
    /// A string that is not UTF-8.
    BadText,
    Table(LuaTable),
    Other,
}

/// A table: its items, which have the numbers from one on, and its named fields.
pub struct LuaTable {
    pub items: Vec<LuaArg>,
    pub fields: Vec<(String, LuaArg)>,
}

/// Why a command cannot be run.
pub enum RunFault {
    /// The goodfile is told so by an error with this message.
    Message(String),
    /// An item of the command is not UTF-8.
    ItemNotUtf8(usize),
    /// A parameter is not UTF-8.
    ParamNotUtf8(&'static str),
}

/// Why a command cannot be run, in texts.
pub enum FaultTexts {
    Message(Seq<char>),
    ItemNotUtf8(int),
    ParamNotUtf8(Seq<char>),
}

impl View for RunFault {
    type V = FaultTexts;

    open spec fn view(&self) -> FaultTexts {
        match self {
            RunFault::Message(message) => FaultTexts::Message(message@),
            RunFault::ItemNotUtf8(i) => FaultTexts::ItemNotUtf8(*i as int),
            RunFault::ParamNotUtf8(name) => FaultTexts::ParamNotUtf8(name@),
        }
    }
}

/// How a command is run.
pub struct RunParams {
    pub step: Option<String>,
    pub name: Option<String>,
    pub cwd: Option<String>,
}

/// The words of a command from item `i` on. The first item that is no text counts.
pub open spec fn words_from(items: Seq<LuaArg>, i: int) -> Result<Seq<Seq<char>>, FaultTexts>
    decreases items.len() - i,
{
    if i < 0 || i >= items.len() {
        Ok(Seq::empty())
    } else {
        match items[i].kind {
            LuaKind::Text(word) => match words_from(items, i + 1) {
                Ok(rest) => Ok(seq![word@] + rest),
                Err(fault) => Err(fault),
            },
            LuaKind::BadText => Err(FaultTexts::ItemNotUtf8(i)),
            _ => Err(
                FaultTexts::Message(
                    "argument "@ + decimal(i as nat) + " was not a string, was "@ + items[i].shown@,
                ),
            ),
        }
    }
}

/// The words of a command.
pub open spec fn words_of(command: LuaArg) -> Result<Seq<Seq<char>>, FaultTexts> {
    match command.kind {
        LuaKind::Table(table) => words_from(table.items@, 0),
        _ => Err(FaultTexts::Message("argument 1 was not a table: "@ + command.shown@)),
    }
}

/// A command that can be run has a word for each of its items.
pub proof fn commands_keep_their_words(items: Seq<LuaArg>, i: int)
    requires
        0 <= i <= items.len(),
        words_from(items, i) is Ok,
    ensures
        words_from(items, i)->Ok_0.len() == items.len() - i,
        forall|k: int|
            i <= k < items.len() ==> (#[trigger] items[k].kind) is Text && words_from(items, i)->Ok_0[k
                - i] == items[k].kind->Text_0@,
    decreases items.len() - i,
{
    if i < items.len() {
        commands_keep_their_words(items, i + 1);
        let rest = words_from(items, i + 1)->Ok_0;
        let words = words_from(items, i)->Ok_0;
        assert forall|k: int| i <= k < items.len() implies (#[trigger] items[k].kind) is Text
            && words[k - i] == items[k].kind->Text_0@ by {
            if k > i {
                assert(words[k - i] == rest[k - (i + 1)]);
            }
        }
    }
}

/// The words of a command.
pub fn command_words(command: &LuaArg) -> (r: Result<Vec<String>, RunFault>)
    ensures
        match r {
            Ok(words) => words_of(*command) == Ok::<Seq<Seq<char>>, FaultTexts>(views(words@)),
            Err(fault) => words_of(*command) == Err::<Seq<Seq<char>>, FaultTexts>(fault@),
        },
{
    let items: &Vec<LuaArg> = match &command.kind {
        LuaKind::Table(table) => &table.items,
        _ => {
            return Err(
                RunFault::Message(
                    "argument 1 was not a table: ".to_owned().concat(command.shown.as_str()),
                ),
            );
        },
    };
    let mut words: Vec<String> = Vec::new();
    let mut i: usize = 0;
    proof {
        assert(views(words@) =~= Seq::<Seq<char>>::empty());
        if words_from(items@, 0) is Ok {
            assert(views(words@) + words_from(items@, 0)->Ok_0 =~= words_from(items@, 0)->Ok_0);
        }
    }
    while i < items.len()
        invariant
            i <= items@.len(),
            words_of(*command) == words_from(items@, 0),
            match words_from(items@, i as int) {
                Ok(rest) => words_from(items@, 0) == Ok::<Seq<Seq<char>>, FaultTexts>(
                    views(words@) + rest,
                ),
                Err(fault) => words_from(items@, 0) == Err::<Seq<Seq<char>>, FaultTexts>(fault),
            },
        decreases items@.len() - i,
    {
        let ghost before = words@;
        match &items[i].kind {
            LuaKind::Text(word) => {
                words.push(word.clone());
                proof {
                    if words_from(items@, i + 1) is Ok {
                        let rest = words_from(items@, i + 1)->Ok_0;
                        assert(views(words@) + rest =~= views(before) + (seq![word@] + rest));
                    }
                }
            },
            LuaKind::BadText => {
                return Err(RunFault::ItemNotUtf8(i));
            },
            _ => {
                let number = decimal_text(i as u64);
                return Err(
                    RunFault::Message(
                        "argument ".to_owned().concat(number.as_str()).concat(
                            " was not a string, was ",
                        ).concat(items[i].shown.as_str()),
                    ),
                );
            },
        }
        i = i + 1;
    }
    assert(views(words@) + Seq::<Seq<char>>::empty() =~= views(words@));
    Ok(words)
}

/// The first field of a table under a name.
pub open spec fn field_of(fields: Seq<(String, LuaArg)>, i: int, name: Seq<char>) -> Option<LuaArg>
    decreases fields.len() - i,
{
    if i < 0 || i >= fields.len() {
        None
    } else if fields[i].0@ == name {
        Some(fields[i].1)
    } else {
        field_of(fields, i + 1, name)
    }
}

/// A parameter: a text, or nothing.
pub open spec fn param_of(table: LuaTable, name: Seq<char>) -> Result<
    Option<Seq<char>>,
    FaultTexts,
> {
    match field_of(table.fields@, 0, name) {
        Some(value) => match value.kind {
            LuaKind::Text(text) => Ok(Some(text@)),
            LuaKind::Nil => Ok(None),
            LuaKind::BadText => Err(FaultTexts::ParamNotUtf8(name)),
            _ => Err(FaultTexts::Message("params[\""@ + name + "\"] must be a string"@)),
        },
        None => Ok(None),
    }
}

fn field<'a>(fields: &'a Vec<(String, LuaArg)>, name: &str) -> (r: Option<&'a LuaArg>)
    ensures
        match r {
            Some(value) => field_of(fields@, 0, name@) == Some(*value),
            None => field_of(fields@, 0, name@) is None,
        },
{
    let mut i: usize = 0;
    while i < fields.len()
        invariant
            i <= fields@.len(),
            field_of(fields@, 0, name@) == field_of(fields@, i as int, name@),
        decreases fields@.len() - i,
    {
        if same(fields[i].0.as_str(), name) {
            return Some(&fields[i].1);
        }
        i = i + 1;
    }
    None
}

/// The text that may be there.
pub open spec fn text_of(s: Option<String>) -> Option<Seq<char>> {
    match s {
        Some(s) => Some(s@),
        None => None,
    }
}

fn param(table: &LuaTable, name: &'static str) -> (r: Result<Option<String>, RunFault>)
    ensures
        match r {
            Ok(value) => param_of(*table, name@) == Ok::<Option<Seq<char>>, FaultTexts>(
                text_of(value),
            ),
            Err(fault) => param_of(*table, name@) == Err::<Option<Seq<char>>, FaultTexts>(fault@),
        },
{
    match field(&table.fields, name) {
        Some(value) => match &value.kind {
            LuaKind::Text(text) => Ok(Some(text.clone())),
            LuaKind::Nil => Ok(None),
            LuaKind::BadText => Err(RunFault::ParamNotUtf8(name)),
            _ => Err(
                RunFault::Message(
                    "params[\"".to_owned().concat(name).concat("\"] must be a string"),
                ),
            ),
        },
        None => Ok(None),
    }
}

/// How a command is run, in texts: the step, the name and the directory.
pub open spec fn params_of(params: LuaArg) -> Result<
    (Option<Seq<char>>, Option<Seq<char>>, Option<Seq<char>>),
    FaultTexts,
> {
    match params.kind {
        LuaKind::Table(table) => match param_of(table, "step"@) {
            Ok(step) => match param_of(table, "name"@) {
                Ok(name) => match param_of(table, "cwd"@) {
                    Ok(cwd) => Ok((step, name, cwd)),
                    Err(fault) => Err(fault),
                },
                Err(fault) => Err(fault),
            },
            Err(fault) => Err(fault),
        },
        _ => Err(FaultTexts::Message("argument 2 was not a table: "@ + params.shown@)),
    }
}

/// How a command is run.
pub fn run_params(params: &LuaArg) -> (r: Result<RunParams, RunFault>)
    ensures
        match r {
            Ok(p) => params_of(*params) == Ok::<
                (Option<Seq<char>>, Option<Seq<char>>, Option<Seq<char>>),
                FaultTexts,
            >((text_of(p.step), text_of(p.name), text_of(p.cwd))),
            Err(fault) => params_of(*params) == Err::<
                (Option<Seq<char>>, Option<Seq<char>>, Option<Seq<char>>),
                FaultTexts,
            >(fault@),
        },
{
    let table: &LuaTable = match &params.kind {
        LuaKind::Table(table) => table,
        _ => {
            return Err(
                RunFault::Message(
                    "argument 2 was not a table: ".to_owned().concat(params.shown.as_str()),
                ),
            );
        },
    };
    let step: Option<String> = match param(table, "step") {
        Ok(step) => step,
        Err(fault) => {
            return Err(fault);
        },
    };
    let name: Option<String> = match param(table, "name") {
        Ok(name) => name,
        Err(fault) => {
            return Err(fault);
        },
    };
    let cwd: Option<String> = match param(table, "cwd") {
        Ok(cwd) => cwd,
        Err(fault) => {
            return Err(fault);
        },
    };
    Ok(RunParams { step, name, cwd })
}

/// What `Build.run` is asked to run, and how. What is wrong with the command counts before what is
/// wrong with the parameters.
pub fn run_request(command: &LuaArg, params: &LuaArg) -> (r: Result<
    (Vec<String>, RunParams),
    RunFault,
>)
    ensures
        match r {
            Ok((words, p)) => {
                &&& words_of(*command) == Ok::<Seq<Seq<char>>, FaultTexts>(views(words@))
                &&& params_of(*params) == Ok::<
                    (Option<Seq<char>>, Option<Seq<char>>, Option<Seq<char>>),
                    FaultTexts,
                >((text_of(p.step), text_of(p.name), text_of(p.cwd)))
            },
            Err(fault) => if words_of(*command) is Ok {
                params_of(*params) == Err::<
                    (Option<Seq<char>>, Option<Seq<char>>, Option<Seq<char>>),
                    FaultTexts,
                >(fault@)
            } else {
                words_of(*command) == Err::<Seq<Seq<char>>, FaultTexts>(fault@)
            },
        },
{
    let words: Vec<String> = match command_words(command) {
        Ok(words) => words,
        Err(fault) => {
            return Err(fault);
        },
    };
    match run_params(params) {
        Ok(params) => Ok((words, params)),
        Err(fault) => Err(fault),
    }
}

/// An artifact that `Build.artifact` is asked to send.
pub struct ArtifactPlan {
    pub name: String,
    pub desc: String,
    /// The file that holds it.
    pub source: String,
}

/// The name that an artifact has unless it is given one.
pub open spec fn default_name(path: Seq<char>) -> Option<Seq<char>> {
    match file_name_of(path) {
        Some(name) => Some(name),
        None => parent_of(path),
    }
}

/// The plan sends what lies at a path, under the given name or the one that the path gives.
pub open spec fn plans_artifact(
    plan: ArtifactPlan,
    path: Seq<char>,
    name: Option<Seq<char>>,
) -> bool {
    &&& default_name(path) is Some
    &&& plan.name@ == (match name {
        Some(name) => name,
        None => default_name(path)->0,
    })
    &&& plan.desc@ == plan.name@ + " (from "@ + path + ")"@
    &&& plan.source@ == "tmpdir/"@ + path
}

/// What `Build.artifact` is asked to send. A path that gives no name is refused, even where a name
/// is given.
pub fn artifact_plan(path: &str, name: Option<String>) -> (r: Result<ArtifactPlan, String>)
    ensures
        match r {
            Ok(plan) => plans_artifact(plan, path@, text_of(name)),
            Err(message) => default_name(path@) is None && message@
                == "cannot infer a default path name for "@ + path@,
        },
{
    let default_name: String = match file_name(path) {
        Some(name) => name,
        None => match parent(path) {
            Some(dir) => dir,
            None => {
                return Err("cannot infer a default path name for ".to_owned().concat(path));
            },
        },
    };
    let name: String = match name {
        Some(name) => name,
        None => default_name,
    };
    let desc = name.clone().concat(" (from ").concat(path).concat(")");
    Ok(ArtifactPlan { name, desc, source: "tmpdir/".to_owned().concat(path) })
}

/// The message of the error that `Build.error` raises.
pub fn explicit_error(message: &str) -> (r: String)
    ensures
        r@ == "explicit error: "@ + message@,
{
    "explicit error: ".to_owned().concat(message)
}

/// The file whose size `Build.environment.size` is asked for.
pub fn sized_file(name: &str) -> (r: String)
    ensures
        r@ == "tmpdir/"@ + name@,
{
    "tmpdir/".to_owned().concat(name)
}

/// A command cannot be run exactly if one of its items is no text, and then the first such item is
/// what is said: its number, and what it is where that can be told.
pub proof fn the_first_bad_item_counts(items: Seq<LuaArg>, from: int, k: int)
    requires
        0 <= from <= k < items.len(),
        forall|i: int| from <= i < k ==> (#[trigger] items[i]).kind is Text,
        items[k].kind !is Text,
    ensures
        words_from(items, from) == Err::<Seq<Seq<char>>, FaultTexts>(
            (if items[k].kind is BadText {
                FaultTexts::ItemNotUtf8(k)
            } else {
                FaultTexts::Message(
                    "argument "@ + decimal(k as nat) + " was not a string, was "@
                        + items[k].shown@,
                )
            }),
        ),
    decreases k - from,
{
    if from < k {
        the_first_bad_item_counts(items, from + 1, k);
        assert(items[from].kind is Text);
    }
}

/// A field of a table is the first under its name, and is missing exactly if none has the name.
pub proof fn fields_are_found_by_name(
    fields: Seq<(String, LuaArg)>,
    from: int,
    name: Seq<char>,
    k: int,
)
    requires
        0 <= from <= fields.len(),
    ensures
        from <= k < fields.len() && fields[k].0@ == name && (forall|i: int|
            from <= i < k ==> (#[trigger] fields[i]).0@ != name) ==> field_of(fields, from, name)
            == Some(fields[k].1),
        (forall|i: int| from <= i < fields.len() ==> (#[trigger] fields[i]).0@ != name) ==> field_of(
            fields,
            from,
            name,
        ) is None,
    decreases fields.len() - from,
{
    if from < fields.len() {
        fields_are_found_by_name(fields, from + 1, name, k);
    }
}

/// How a command is run is what the parameters say under the names `step`, `name` and `cwd`: a text
/// where there is one, and nothing where there is none; whatever else they say does not matter.
pub proof fn parameters_are_read_by_name(
    params: LuaArg,
    table: LuaTable,
    step: Option<Seq<char>>,
    name: Option<Seq<char>>,
    cwd: Option<Seq<char>>,
)
    requires
        params.kind == LuaKind::Table(table),
        params_of(params) == Ok::<
            (Option<Seq<char>>, Option<Seq<char>>, Option<Seq<char>>),
            FaultTexts,
        >((step, name, cwd)),
    ensures
        is_param(table, "step"@, step),
        is_param(table, "name"@, name),
        is_param(table, "cwd"@, cwd),
{
}

/// The table says the value under the name, or nothing.
pub open spec fn is_param(table: LuaTable, name: Seq<char>, value: Option<Seq<char>>) -> bool {
    match field_of(table.fields@, 0, name) {
        Some(field) => match value {
            Some(text) => field.kind matches LuaKind::Text(said) && said@ == text,
            None => field.kind is Nil,
        },
        None => value is None,
    }
}

/// An artifact is taken from where commands are run, under the path that the goodfile gives; its name
/// is the one that it gives, and else the last part of the path.
pub proof fn artifacts_are_taken_from_the_build(
    plan: ArtifactPlan,
    path: Seq<char>,
    name: Option<Seq<char>>,
)
    requires
        plans_artifact(plan, path, name),
    ensures
        plan.source@ == crate::runner::command_dir(None) + "/"@ + path,
        name matches Some(given) ==> plan.name@ == given,
        name is None && file_name_of(path) is Some ==> plan.name@ == file_name_of(path)->0,
        plan.name@.is_prefix_of(plan.desc@),
        (path + ")"@).is_suffix_of(plan.desc@),
{
    reveal_strlit("tmpdir");
    reveal_strlit("tmpdir/");
    reveal_strlit("/");
    assert("tmpdir/"@ =~= "tmpdir"@ + "/"@);
    assert(plan.source@ =~= "tmpdir"@ + "/"@ + path);
    let desc = plan.desc@;
    assert(plan.name@ =~= desc.take(plan.name@.len() as int));
    let tail = path + ")"@;
    assert(tail =~= desc.subrange(desc.len() - tail.len(), desc.len() as int));
}

} // verus!
