//! The requests that plugins make while a session starts.

use vstd::prelude::*;
use crate::cli::words::opt_text;
use crate::server::key_tables::{
    action_from, action_of, binds_in, table_becomes, without_key, Bind, Key, KeyTables,
};
use crate::server::options::{
    is_longer_early, is_remembered, is_set, is_user_option, no_work, user_is_gone, user_is_longer, work_of,
    OptionWork, Options,
};
use crate::text::{starts_with, texts};

verus! {

/// A request that a plugin makes.
pub enum PluginReq {
    SetOption { option: String },
    AppendOption { option: String, value: String },
    UnsetOption { option: String },
    SetIfUnset { option: String },
    ShowOption { name: String },
    ShowWindowOption { name: String },
    ShowOptions,
    ShowWindowOptions,
    /// `key` is the key that the text denotes, `parts` are the commands that the command
    /// falls into, and `command` the one that it denotes as a whole.
    BindKey {
        table: String,
        key: Option<Key>,
        parts: Vec<String>,
        command: Option<String>,
        repeat: bool,
    },
    SourceFile { path: String },
    UnbindAll,
    UnbindAllInTable { table: String },
    UnbindKey { key: Option<Key>, in_table: Option<String> },
    /// A request that waits until the session runs, or is lost.
    Other,
}

/// What is left to do for a request.
pub enum PluginWork {
    Nothing,
    /// An option was set, or was not.
    Option(OptionWork),
    /// The value of an option is to be answered.
    AnswerOption { name: String },
    /// The value of an option of a window is to be answered.
    AnswerWindowOption { name: String },
    /// An empty answer is to be given.
    AnswerNothing,
    /// The options of the window are to be answered.
    AnswerWindowOptions,
    /// The keys that are bound by default are to be bound, the file is to be read, and
    /// the panes are to be resized.
    ReadFile { path: String },
}

/// What a session's start keeps.
pub struct PluginState {
    pub options: Options,
    pub keys: KeyTables,
}

/// What a request changes.
pub open spec fn drained(old: PluginState, new: PluginState, req: PluginReq) -> bool {
    match req {
        PluginReq::SetOption { option } => new.keys == old.keys && is_remembered(
            old.options,
            new.options,
            option@,
        ),
        PluginReq::AppendOption { option, value } => new.keys == old.keys && (if is_user_option(option@) {
            user_is_longer(old.options, new.options, option@, value@)
        } else {
            is_longer_early(old.options, new.options, option@, value@)
        }),
        PluginReq::UnsetOption { option } => new.keys == old.keys && (if is_user_option(option@) {
            user_is_gone(old.options, new.options, option@)
        } else {
            new.options == old.options
        }),
        PluginReq::SetIfUnset { option } => new.keys == old.keys && (if is_set(old.options, option@) {
            new.options == old.options
        } else {
            is_remembered(old.options, new.options, option@)
        }),
        PluginReq::BindKey { table, key, parts, command, repeat } => new.options == old.options && (
        if key is Some && action_of(parts, command) is Some {
            table_becomes(
                old.keys,
                new.keys,
                table@,
                without_key(binds_in(old.keys, table@), key->0).push(
                    Bind { key: key->0, action: action_of(parts, command)->0, repeat },
                ),
            )
        } else {
            new.keys == old.keys
        }),
        PluginReq::SourceFile { path } => new.options == old.options && new.keys.tables.map() == Map::<
            Seq<char>,
            Vec<Bind>,
        >::empty() && !new.keys.defaults_suppressed,
        PluginReq::UnbindAll => new.options == old.options && new.keys.tables.map() == Map::<
            Seq<char>,
            Vec<Bind>,
        >::empty() && new.keys.defaults_suppressed,
        PluginReq::UnbindAllInTable { table } => new.options == old.options && (
        if old.keys.tables.map().dom().contains(table@) {
            table_becomes(old.keys, new.keys, table@, Seq::empty())
        } else {
            new.keys == old.keys
        }),
        PluginReq::UnbindKey { key, in_table } => {
            let name = match opt_text(in_table) {
                Some(t) => t,
                None => "prefix"@,
            };
            new.options == old.options && (if key is Some && old.keys.tables.map().dom().contains(name) {
                table_becomes(old.keys, new.keys, name, without_key(binds_in(old.keys, name), key->0))
            } else {
                new.keys.tables.map() == old.keys.tables.map() && new.keys.defaults_suppressed
                    == old.keys.defaults_suppressed
            })
        },
        _ => new == old,
    }
}

/// What a request leaves to do.
pub open spec fn drain_work(old: PluginState, req: PluginReq) -> PluginWork {
    match req {
        PluginReq::SetOption { option } => PluginWork::Option(work_of(option@, false, true)),
        PluginReq::SetIfUnset { option } => PluginWork::Option(
            if is_set(old.options, option@) {
                no_work()
            } else {
                work_of(option@, false, false)
            },
        ),
        PluginReq::ShowOption { name } => PluginWork::AnswerOption { name },
        PluginReq::ShowWindowOption { name } => PluginWork::AnswerWindowOption { name },
        PluginReq::ShowOptions => PluginWork::AnswerNothing,
        PluginReq::ShowWindowOptions => PluginWork::AnswerWindowOptions,
        PluginReq::SourceFile { path } => PluginWork::ReadFile { path },
        _ => PluginWork::Nothing,
    }
}

impl PluginState {
    /// Whether the parts are well formed.
    pub open spec fn wf(self) -> bool {
        self.options.wf() && self.keys.wf()
    }

    /// Answers a request that a plugin makes while the session starts. Requests that a
    /// plugin does not make then are dropped.
    pub fn drain_plugin_req(&mut self, req: PluginReq) -> (w: PluginWork)
        requires
            old(self).wf(),
        ensures
            final(self).wf(),
            drained(*old(self), *final(self), req),
            w == drain_work(*old(self), req),
    {
        match req {
            PluginReq::SetOption { option } => {
                let work = self.options.set_option(option.as_str(), false);
                PluginWork::Option(work)
            },
            PluginReq::AppendOption { option, value } => {
                self.options.append_option_early(option.as_str(), value.as_str());
                PluginWork::Nothing
            },
            PluginReq::UnsetOption { option } => {
                if starts_with(option.as_str(), "@") {
                    self.options.unset_option(option.as_str());
                }
                PluginWork::Nothing
            },
            PluginReq::SetIfUnset { option } => {
                let work = self.options.set_if_unset(option.as_str(), false);
                PluginWork::Option(work)
            },
            PluginReq::ShowOption { name } => PluginWork::AnswerOption { name },
            PluginReq::ShowWindowOption { name } => PluginWork::AnswerWindowOption { name },
            PluginReq::ShowOptions => PluginWork::AnswerNothing,
            PluginReq::ShowWindowOptions => PluginWork::AnswerWindowOptions,
            PluginReq::BindKey { table, key, parts, command, repeat } => {
                let action = action_from(parts, command);
                self.keys.bind_key(table, key, action, repeat);
                PluginWork::Nothing
            },
            PluginReq::SourceFile { path } => {
                self.keys.start_over();
                PluginWork::ReadFile { path }
            },
            PluginReq::UnbindAll => {
                self.keys.unbind_all();
                PluginWork::Nothing
            },
            PluginReq::UnbindAllInTable { table } => {
                self.keys.unbind_all_in_table(table);
                PluginWork::Nothing
            },
            PluginReq::UnbindKey { key, in_table } => {
                self.keys.unbind_key(key, in_table);
                PluginWork::Nothing
            },
            PluginReq::Other => PluginWork::Nothing,
        }
    }
}

/// What the loop does next that answers plugins until their scripts have ended, or five
/// seconds have gone by.
#[derive(Clone, Copy, PartialEq, Eq, Structural, Debug)]
pub enum PluginWait {
    /// Answer what has come, and stop.
    Finish,
    /// Wait this long for a request, in milliseconds.
    Wait { ms: u64 },
}

/// How long the scripts of plugins are waited for, in milliseconds.
pub const PLUGIN_TIME_MS: u64 = 5000;

/// What the loop does next: `all_done` tells whether all scripts have ended, and
/// `elapsed_ms` how long they have been waited for.
pub fn wait_for_plugins(all_done: bool, elapsed_ms: u64) -> (r: PluginWait)
    ensures
        (all_done || elapsed_ms >= PLUGIN_TIME_MS) ==> r == PluginWait::Finish,
        !(all_done || elapsed_ms >= PLUGIN_TIME_MS) ==> r == (PluginWait::Wait {
            ms: if PLUGIN_TIME_MS - elapsed_ms < 50 {
                (PLUGIN_TIME_MS - elapsed_ms) as u64
            } else {
                50
            },
        }),
{
    if all_done || elapsed_ms >= PLUGIN_TIME_MS {
        return PluginWait::Finish;
    }
    let remaining: u64 = PLUGIN_TIME_MS - elapsed_ms;
    if remaining < 50 {
        PluginWait::Wait { ms: remaining }
    } else {
        PluginWait::Wait { ms: 50 }
    }
}

/// The program that runs the script of a plugin, and its arguments. `found` tells whether the
/// newer shell was found.
pub fn plugin_command(found: bool, script: &str) -> (r: (&'static str, Vec<String>))
    ensures
        r.0@ == (if found {
            "pwsh"@
        } else {
            "powershell"@
        }),
        texts(r.1@) == seq!["-NoProfile"@, "-ExecutionPolicy"@, "Bypass"@, "-File"@, script@],
{
    let mut args: Vec<String> = Vec::new();
    args.push("-NoProfile".to_owned());
    args.push("-ExecutionPolicy".to_owned());
    args.push("Bypass".to_owned());
    args.push("-File".to_owned());
    args.push(script.to_owned());
    assert(texts(args@) =~= seq!["-NoProfile"@, "-ExecutionPolicy"@, "Bypass"@, "-File"@, script@]);
    (
        if found {
            "pwsh"
        } else {
            "powershell"
        },
        args,
    )
}

} // verus!
