//! What is written down when a server cannot start.

use vstd::prelude::*;
use crate::text::{decimal, push_number};

verus! {

/// A variable of the environment, with the lengths of its name and value as the system counts
/// them.
pub struct EnvVar {
    pub name: String,
    pub name_len: usize,
    pub value_len: usize,
}

/// How large the environment is.
pub struct EnvSize {
    pub count: usize,
    /// The length of the whole block: each variable takes an equals sign and an end mark too.
    pub chars: usize,
    /// The name of the largest entry; empty where there is none.
    pub largest: String,
    pub largest_len: usize,
}

/// The length of an entry: its name, an equals sign and its value.
pub open spec fn entry_len(v: EnvVar) -> nat {
    (v.name_len + v.value_len + 1) as nat
}

/// The length of the block of an environment.
pub open spec fn block_len(vars: Seq<EnvVar>) -> nat
    decreases vars.len(),
{
    if vars.len() == 0 {
        0
    } else {
        block_len(vars.drop_last()) + entry_len(vars.last()) + 1
    }
}

/// The length of the largest entry.
pub open spec fn largest_len(vars: Seq<EnvVar>) -> nat
    decreases vars.len(),
{
    if vars.len() == 0 {
        0
    } else {
        let rest = largest_len(vars.drop_last());
        if entry_len(vars.last()) > rest {
            entry_len(vars.last())
        } else {
            rest
        }
    }
}

/// The name of the first of the largest entries.
pub open spec fn largest_name(vars: Seq<EnvVar>) -> Seq<char>
    decreases vars.len(),
{
    if vars.len() == 0 {
        Seq::empty()
    } else if entry_len(vars.last()) > largest_len(vars.drop_last()) {
        vars.last().name@
    } else {
        largest_name(vars.drop_last())
    }
}

proof fn lemma_block_len(vars: Seq<EnvVar>, k: int)
    requires
        0 <= k <= vars.len(),
    ensures
        block_len(vars.take(k)) <= block_len(vars),
    decreases vars.len() - k,
{
    if k == vars.len() {
        assert(vars.take(k) =~= vars);
    } else {
        lemma_block_len(vars, k + 1);
        assert(vars.take(k + 1).drop_last() =~= vars.take(k));
    }
}

/// Measures an environment.
pub fn measure_environment(vars: &Vec<EnvVar>) -> (r: EnvSize)
    requires
        block_len(vars@) <= usize::MAX,
    ensures
        r.count == vars@.len(),
        r.chars == block_len(vars@),
        r.largest@ == largest_name(vars@),
        r.largest_len == largest_len(vars@),
{
    let mut chars: usize = 0;
    let mut largest = String::new();
    let mut longest: usize = 0;
    let mut i: usize = 0;
    while i < vars.len()
        invariant
            i <= vars.len(),
            block_len(vars@) <= usize::MAX,
            chars == block_len(vars@.take(i as int)),
            largest@ == largest_name(vars@.take(i as int)),
            longest == largest_len(vars@.take(i as int)),
        decreases vars.len() - i,
    {
        proof {
            assert(vars@.take(i + 1).drop_last() =~= vars@.take(i as int));
            lemma_block_len(vars@, i + 1);
        }
        let total: usize = vars[i].name_len + vars[i].value_len + 1;
        chars = chars + total + 1;
        if total > longest {
            longest = total;
            largest = vars[i].name.clone();
        }
        i += 1;
    }
    assert(vars@.take(i as int) =~= vars@);
    EnvSize { count: vars.len(), chars, largest, largest_len: longest }
}

/// What is known of a server that could not start. Texts that may be missing come as they are
/// written down.
pub struct StartupFailure {
    pub version: String,
    /// When it was, in seconds since 1970 began.
    pub epoch_secs: u64,
    pub error: String,
    pub directory: String,
    pub home: String,
    pub shell: String,
    pub cloud_files: bool,
}

/// What is written down when a server cannot start.
pub open spec fn report_text(f: StartupFailure, e: EnvSize) -> Seq<char> {
    "psmux server startup error\n==========================\npsmux version : "@ + f.version@
        + "\nwhen (epoch s): "@ + decimal(f.epoch_secs as nat) + "\nos.family     : windows\n\nerror:\n"@
        + f.error@ + "\n\nspawn context:\nCWD                 : "@ + f.directory@
        + "\nUSERPROFILE         : "@ + f.home@ + "\nComSpec             : "@ + f.shell@
        + "\nOneDrive present    : "@ + (if f.cloud_files {
        "true"@
    } else {
        "false"@
    }) + "\nenv vars (count)    : "@ + decimal(e.count as nat) + "\nenv block size (wch): "@ + decimal(
        e.chars as nat,
    ) + " (Windows hard limit: 32767)\nlargest env entry   : "@ + e.largest@ + " ("@ + decimal(
        e.largest_len as nat,
    ) + " chars)\n\nworkarounds to try (in order):\n1. PSMUX_NO_PASSTHROUGH=1   (skip ConPTY passthrough mode)\n2. PSMUX_BARE_ENV=1         (spawn with minimal env block)\n3. switch to a local Windows account (Microsoft account\nprofiles often inherit a bloated environment)\n4. open an issue at https://github.com/psmux/psmux/issues/167\nand attach this file\n"@
}

/// What is written down when a server cannot start.
pub fn write_startup_error_log(f: &StartupFailure, e: &EnvSize) -> (s: String)
    ensures
        s@ == report_text(*f, *e),
{
    let mut s = "psmux server startup error\n==========================\npsmux version : ".to_owned();
    s.append(f.version.as_str());
    s.append("\nwhen (epoch s): ");
    push_number(&mut s, f.epoch_secs);
    s.append("\nos.family     : windows\n\nerror:\n");
    s.append(f.error.as_str());
    s.append("\n\nspawn context:\nCWD                 : ");
    s.append(f.directory.as_str());
    s.append("\nUSERPROFILE         : ");
    s.append(f.home.as_str());
    s.append("\nComSpec             : ");
    s.append(f.shell.as_str());
    s.append("\nOneDrive present    : ");
    if f.cloud_files {
        s.append("true");
    } else {
        s.append("false");
    }
    s.append("\nenv vars (count)    : ");
    push_number(&mut s, e.count as u64);
    s.append("\nenv block size (wch): ");
    push_number(&mut s, e.chars as u64);
    s.append(" (Windows hard limit: 32767)\nlargest env entry   : ");
    s.append(e.largest.as_str());
    s.append(" (");
    push_number(&mut s, e.largest_len as u64);
    s.append(" chars)\n\nworkarounds to try (in order):\n1. PSMUX_NO_PASSTHROUGH=1   (skip ConPTY passthrough mode)\n2. PSMUX_BARE_ENV=1         (spawn with minimal env block)\n3. switch to a local Windows account (Microsoft account\nprofiles often inherit a bloated environment)\n4. open an issue at https://github.com/psmux/psmux/issues/167\nand attach this file\n");
    s
}

/// No entry is larger than the one that is named.
pub proof fn no_entry_is_larger(vars: Seq<EnvVar>, i: int)
    requires
        0 <= i < vars.len(),
    ensures
        entry_len(vars[i]) <= largest_len(vars),
    decreases vars.len(),
{
    if i < vars.len() - 1 {
        no_entry_is_larger(vars.drop_last(), i);
    }
}

} // verus!
