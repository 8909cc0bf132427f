use vstd::prelude::*;

use crate::common::{starts_with, str_eq};

verus! {

/// Name of the server's crate, as it begins the module paths of its records.
pub const CRATE_NAME: &'static str = "rpi_server";

/// Module whose records are of no use below the level of warnings.
pub const NOISY_MODULE: &'static str = "zbus::connection";

/// The most detailed level that is logged.
#[derive(Clone, Copy, Debug, PartialEq, Eq, Structural)]
pub enum LevelFilter {
    Off,
    Error,
    Warn,
    Info,
    Debug,
    Trace,
}

/// Verbosity of a log record, from the most severe to the most detailed.
#[derive(Clone, Copy, Debug, PartialEq, Eq, Structural)]
pub enum Level {
    Error,
    Warn,
    Info,
    Debug,
    Trace,
}

impl Level {
    /// Rank of the level: the higher, the more detailed.
    pub open spec fn rank(self) -> int {
        match self {
            Level::Error => 1,
            Level::Warn => 2,
            Level::Info => 3,
            Level::Debug => 4,
            Level::Trace => 5,
        }
    }

    fn exec_rank(self) -> (rank: u8)
        ensures
            rank == self.rank(),
    {
        match self {
            Level::Error => 1,
            Level::Warn => 2,
            Level::Info => 3,
            Level::Debug => 4,
            Level::Trace => 5,
        }
    }
}

/// The module at `module` is `ancestor` or lies below it.
pub open spec fn within(module: Seq<char>, ancestor: Seq<char>) -> bool {
    module == ancestor || (ancestor + "::"@).is_prefix_of(module)
}

fn is_within(module: &str, ancestor: &str) -> (yes: bool)
    ensures
        yes == within(module@, ancestor@),
{
    if str_eq(module, ancestor) {
        return true;
    }
    let mut prefix = String::from_str(ancestor);
    prefix.append("::");
    starts_with(module, prefix.as_str())
}

/// Whether a record is dropped: it comes from the noisy module, or from
/// below it, and is more detailed than a warning.
pub fn is_blacklisted(module: Option<&str>, level: Level) -> (dropped: bool)
    ensures
        dropped == match module {
            Some(path) => within(path@, NOISY_MODULE@) && level.rank() > Level::Warn.rank(),
            None => false,
        },
{
    match module {
        Some(path) => is_within(path, NOISY_MODULE) && level.exec_rank() > Level::Warn.exec_rank(),
        None => false,
    }
}

/// What is put before a record's message: nothing for the crate's root
/// module, else the module path in angle brackets, without the crate's name
/// where it begins with it.
pub open spec fn spec_message_prefix(module: Seq<char>) -> Seq<char> {
    let own = CRATE_NAME@ + "::"@;
    if module == CRATE_NAME@ {
        Seq::empty()
    } else if own.is_prefix_of(module) {
        "<"@ + module.subrange(own.len() as int, module.len() as int) + "> "@
    } else {
        "<"@ + module + "> "@
    }
}

/// Builds the prefix of a record's message from its module path.
pub fn make_message_prefix(module: &str) -> (prefix: String)
    ensures
        prefix@ == spec_message_prefix(module@),
{
    if str_eq(module, CRATE_NAME) {
        return String::new();
    }
    let mut own = String::from_str(CRATE_NAME);
    own.append("::");
    let shown = if starts_with(module, own.as_str()) {
        module.substring_char(own.as_str().unicode_len(), module.unicode_len())
    } else {
        module
    };
    let mut prefix = String::from_str("<");
    prefix.append(shown);
    prefix.append("> ");
    prefix
}

} // verus!
