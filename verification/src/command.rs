//! The list of saved quick-send commands.
use vstd::prelude::*;
use vstd::string::*;
use crate::config::{join_path, path_join, settings_dir, settings_directory};

verus! {

/// A saved command: a short name and the text it sends.
#[derive(Debug, Clone)]
pub struct CommandEntry {
    pub name: String,
    pub data: String,
}

/// The saved commands, in the order they were added.
#[derive(Debug, Clone)]
pub struct CommandList {
    pub commands: Vec<CommandEntry>,
}

impl View for CommandEntry {
    type V = (Seq<char>, Seq<char>);

    open spec fn view(&self) -> (Seq<char>, Seq<char>) {
        (self.name@, self.data@)
    }
}

impl View for CommandList {
    type V = Seq<(Seq<char>, Seq<char>)>;

    open spec fn view(&self) -> Seq<(Seq<char>, Seq<char>)> {
        self.commands@.map_values(|e: CommandEntry| e@)
    }
}

impl Default for CommandList {
    fn default() -> (res: Self)
        ensures
            res.commands@.len() == 0,
    {
        CommandList { commands: Vec::new() }
    }
}

impl CommandList {
    /// The directory of the command file under the given home directory.
    pub fn storage_dir(home: &str) -> (res: String)
        ensures
            res@ == settings_dir(home@),
    {
        settings_directory(home)
    }

    /// The command file under the given home directory.
    pub fn storage_path(home: &str) -> (res: String)
        ensures
            res@ == path_join(settings_dir(home@), "commands.json"@),
    {
        let dir = Self::storage_dir(home);
        join_path(dir.as_str(), "commands.json")
    }

    /// Appends a command at the end.
    pub fn add(&mut self, name: String, data: String)
        ensures
            final(self).commands@ == old(self).commands@.push(CommandEntry { name, data }),
    {
        self.commands.push(CommandEntry { name, data });
    }

    /// Removes and returns the command at `index`; `None`, with the list
    /// unchanged, where there is none.
    pub fn remove(&mut self, index: usize) -> (res: Option<CommandEntry>)
        ensures
            index < old(self).commands@.len() ==> res == Some(old(self).commands@[index as int])
                && final(self).commands@ == old(self).commands@.remove(index as int),
            index >= old(self).commands@.len() ==> res is None && final(self).commands@
                == old(self).commands@,
    {
        if index < self.commands.len() {
            Some(self.commands.remove(index))
        } else {
            None
        }
    }

    /// Replaces the command at `index`; `false`, with the list unchanged,
    /// where there is none.
    pub fn update(&mut self, index: usize, name: String, data: String) -> (res: bool)
        ensures
            res == (index < old(self).commands@.len()),
            res ==> final(self).commands@ == old(self).commands@.update(
                index as int,
                CommandEntry { name, data },
            ),
            !res ==> final(self).commands@ == old(self).commands@,
    {
        if index < self.commands.len() {
            self.commands.set(index, CommandEntry { name, data });
            true
        } else {
            false
        }
    }

    /// The number of commands.
    pub fn len(&self) -> (res: usize)
        ensures
            res == self.commands@.len(),
    {
        self.commands.len()
    }

    /// Whether there are no commands.
    pub fn is_empty(&self) -> (res: bool)
        ensures
            res == (self.commands@.len() == 0),
    {
        self.commands.len() == 0
    }
}

/// A change to the command list: adding a command, removing the one at
/// an index, or replacing the one at an index.
pub enum CommandOp {
    Add(CommandEntry),
    Remove(int),
    Update(int, CommandEntry),
}

/// The commands after one change, as `add`, `remove` and `update` make it.
pub open spec fn apply_op(l: Seq<CommandEntry>, op: CommandOp) -> Seq<CommandEntry> {
    match op {
        CommandOp::Add(e) => l.push(e),
        CommandOp::Remove(i) => if 0 <= i < l.len() { l.remove(i) } else { l },
        CommandOp::Update(i, e) => if 0 <= i < l.len() { l.update(i, e) } else { l },
    }
}

/// The commands after a series of changes, first to last.
pub open spec fn apply_ops(l: Seq<CommandEntry>, ops: Seq<CommandOp>) -> Seq<CommandEntry>
    decreases ops.len(),
{
    if ops.len() == 0 {
        l
    } else {
        apply_op(apply_ops(l, ops.drop_last()), ops.last())
    }
}

/// How many of the changes are additions.
pub open spec fn additions(ops: Seq<CommandOp>) -> nat
    decreases ops.len(),
{
    if ops.len() == 0 {
        0
    } else {
        additions(ops.drop_last()) + if ops.last() is Add { 1nat } else { 0nat }
    }
}

/// How many of the changes, applied to `l`, remove a command (a removal at
/// an index with no command removes nothing).
pub open spec fn removals(l: Seq<CommandEntry>, ops: Seq<CommandOp>) -> nat
    decreases ops.len(),
{
    if ops.len() == 0 {
        0
    } else {
        let before = apply_ops(l, ops.drop_last());
        removals(l, ops.drop_last()) + match ops.last() {
            CommandOp::Remove(i) => if 0 <= i < before.len() { 1nat } else { 0nat },
            _ => 0nat,
        }
    }
}

/// Law: after any series of additions, removals and replacements, the list
/// holds as many commands as it started with, plus the additions, less the
/// removals that found a command; replacements change no count.
pub proof fn law_command_count(l: Seq<CommandEntry>, ops: Seq<CommandOp>)
    ensures
        apply_ops(l, ops).len() + removals(l, ops) == l.len() + additions(ops),
    decreases ops.len(),
{
    if ops.len() > 0 {
        law_command_count(l, ops.drop_last());
    }
}

} // verus!
