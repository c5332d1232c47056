//! The scripts that commands may name.
//!
//! A script is a file whose name reads `<name>.<kind>.ts`, where the kind is
//! `query` or `execute`: the name of the script is what stands before
//! `.<kind>.ts`. No other file is a script. The scripts of a directory are
//! listed once, by kind, and a command is routed only to a script that the
//! list holds under the command's own kind.

use vstd::prelude::*;
use vstd::string::{StrSliceExecFns, StringExecFns};
use crate::runtime::RuntimeMode;

verus! {

/// One entry of the scripts directory, as the file system reports it.
#[derive(Debug)]
pub struct DirectoryEntry {
    pub file_name: String,
    pub is_dir: bool,
}

/// A script that the node offers: where it lies, of which kind it is, and the
/// name by which commands call it. A command is routed to a script of its own
/// kind only.
#[derive(Debug)]
pub struct ScriptReference {
    pub path: String,
    pub kind: RuntimeMode,
    pub name: String,
}

/// The word for a kind of script, as file names and logs spell it.
pub open spec fn kind_word(kind: RuntimeMode) -> Seq<char> {
    match kind {
        RuntimeMode::Query => "query"@,
        RuntimeMode::Execute => "execute"@,
    }
}

/// What the file name of a script of `kind` ends in.
pub open spec fn ending(kind: RuntimeMode) -> Seq<char> {
    "."@ + kind_word(kind) + ".ts"@
}

/// Whether `file_name` is the file name of a script of `kind`: a name, which
/// may be empty, followed by the ending of the kind.
pub open spec fn is_script(file_name: Seq<char>, kind: RuntimeMode) -> bool {
    &&& ending(kind).len() <= file_name.len()
    &&& file_name.skip(file_name.len() - ending(kind).len()) == ending(kind)
}

/// The name of the script of `kind` in a file: the file name without the
/// ending of the kind.
pub open spec fn script_name(file_name: Seq<char>, kind: RuntimeMode) -> Seq<char> {
    file_name.take(file_name.len() - ending(kind).len())
}

/// The kind of the script in a file, if the file is a script.
pub open spec fn script_kind(file_name: Seq<char>) -> Option<RuntimeMode> {
    if is_script(file_name, RuntimeMode::Query) {
        Some(RuntimeMode::Query)
    } else if is_script(file_name, RuntimeMode::Execute) {
        Some(RuntimeMode::Execute)
    } else {
        None
    }
}

/// The name under which a directory entry is listed among the scripts of
/// `kind`, if it is listed there: directories are not.
pub open spec fn listed(entry: DirectoryEntry, kind: RuntimeMode) -> Option<Seq<char>> {
    if !entry.is_dir && script_kind(entry.file_name@) == Some(kind) {
        Some(script_name(entry.file_name@, kind))
    } else {
        None
    }
}

/// The names of the scripts of `kind` in a directory, in the order of its
/// entries.
pub open spec fn scripts_of(entries: Seq<DirectoryEntry>, kind: RuntimeMode) -> Seq<Seq<char>> {
    entries.filter_map(|entry: DirectoryEntry| listed(entry, kind))
}

/// A script's file name is its name followed by the ending of its kind.
pub proof fn lemma_script_file_name(file_name: Seq<char>, kind: RuntimeMode)
    requires
        is_script(file_name, kind),
    ensures
        file_name == script_name(file_name, kind) + ending(kind),
{
    let cut = file_name.len() - ending(kind).len();
    assert(file_name =~= file_name.take(cut) + file_name.skip(cut));
}

/// Spells a kind of script.
pub(crate) fn word(kind: RuntimeMode) -> (r: &'static str)
    ensures
        r@ == kind_word(kind),
{
    match kind {
        RuntimeMode::Query => "query",
        RuntimeMode::Execute => "execute",
    }
}

/// Takes the name off the file name of a script of `kind`, where `file_name`,
/// of `length` characters, is one.
fn name_of(file_name: &str, length: usize, kind: RuntimeMode) -> (r: Option<String>)
    requires
        length == file_name@.len(),
    ensures
        match r {
            Some(name) => is_script(file_name@, kind) && name@ == script_name(file_name@, kind),
            None => !is_script(file_name@, kind),
        },
{
    let mut end = String::from_str(".");
    end.append(word(kind));
    end.append(".ts");
    let width = end.as_str().unicode_len();
    if length < width {
        return None;
    }
    let cut = length - width;
    let tail = String::from_str(file_name.substring_char(cut, length));
    assert(file_name@.skip(cut as int) =~= file_name@.subrange(cut as int, length as int));
    if tail == end {
        assert(file_name@.take(cut as int) =~= file_name@.subrange(0, cut as int));
        Some(String::from_str(file_name.substring_char(0, cut)))
    } else {
        None
    }
}

/// Tells whether a file is a script, and if so, of which kind and under which
/// name.
pub fn classify(file_name: &str) -> (r: Option<(RuntimeMode, String)>)
    ensures
        match r {
            Some((kind, name)) => script_kind(file_name@) == Some(kind) && name@ == script_name(
                file_name@,
                kind,
            ),
            None => script_kind(file_name@) is None,
        },
{
    let length = file_name.unicode_len();
    match name_of(file_name, length, RuntimeMode::Query) {
        Some(name) => Some((RuntimeMode::Query, name)),
        None => match name_of(file_name, length, RuntimeMode::Execute) {
            Some(name) => Some((RuntimeMode::Execute, name)),
            None => None,
        },
    }
}

/// The scripts of a directory, by kind.
#[derive(Debug)]
pub struct ScriptTable {
    query: Vec<String>,
    execute: Vec<String>,
}

impl ScriptTable {
    /// The names listed under `kind`, in the order in which they were found.
    pub closed spec fn names(&self, kind: RuntimeMode) -> Seq<Seq<char>> {
        match kind {
            RuntimeMode::Query => self.query@.map_values(|name: String| name@),
            RuntimeMode::Execute => self.execute@.map_values(|name: String| name@),
        }
    }

    /// Tells whether `name` is listed under `kind`.
    pub fn contains(&self, kind: RuntimeMode, name: &str) -> (r: bool)
        ensures
            r == self.names(kind).contains(name@),
    {
        let names = match kind {
            RuntimeMode::Query => &self.query,
            RuntimeMode::Execute => &self.execute,
        };
        let wanted = String::from_str(name);
        let ghost listed = names@.map_values(|name: String| name@);
        let mut i: usize = 0;
        while i < names.len()
            invariant
                i <= names.len(),
                listed == names@.map_values(|name: String| name@),
                listed == self.names(kind),
                wanted@ == name@,
                forall|j: int| 0 <= j < i ==> listed[j] != name@,
            decreases names.len() - i,
        {
            if names[i] == wanted {
                assert(listed[i as int] == name@);
                return true;
            }
            i = i + 1;
        }
        false
    }
}

/// Lists the scripts among the entries of the scripts directory.
///
/// A directory is no script, whatever its name. Neither is a file whose name
/// does not end in `.query.ts` or `.execute.ts`.
pub fn load_scripts(entries: &Vec<DirectoryEntry>) -> (table: ScriptTable)
    ensures
        table.names(RuntimeMode::Query) == scripts_of(entries@, RuntimeMode::Query),
        table.names(RuntimeMode::Execute) == scripts_of(entries@, RuntimeMode::Execute),
{
    let mut table = ScriptTable { query: Vec::new(), execute: Vec::new() };
    let mut i: usize = 0;
    assert(entries@.take(0) =~= Seq::<DirectoryEntry>::empty());
    while i < entries.len()
        invariant
            i <= entries.len(),
            table.names(RuntimeMode::Query) == scripts_of(
                entries@.take(i as int),
                RuntimeMode::Query,
            ),
            table.names(RuntimeMode::Execute) == scripts_of(
                entries@.take(i as int),
                RuntimeMode::Execute,
            ),
        decreases entries.len() - i,
    {
        let entry = &entries[i];
        proof {
            entries@.lemma_filter_map_take_succ(
                |entry: DirectoryEntry| listed(entry, RuntimeMode::Query),
                i as int,
            );
            entries@.lemma_filter_map_take_succ(
                |entry: DirectoryEntry| listed(entry, RuntimeMode::Execute),
                i as int,
            );
        }
        let ghost before = table;
        if !entry.is_dir {
            match classify(entry.file_name.as_str()) {
                Some((RuntimeMode::Query, name)) => {
                    table.query.push(name);
                    assert(table.names(RuntimeMode::Query) =~= before.names(
                        RuntimeMode::Query,
                    ).push(name@));
                },
                Some((RuntimeMode::Execute, name)) => {
                    table.execute.push(name);
                    assert(table.names(RuntimeMode::Execute) =~= before.names(
                        RuntimeMode::Execute,
                    ).push(name@));
                },
                None => {},
            }
        }
        i = i + 1;
    }
    assert(entries@.take(i as int) =~= entries@);
    table
}


} // verus!
