//! The one registered module: reports information about the bot.

use vstd::prelude::*;
use crate::modules::KModule;

verus! {

/// Module that displays information about the bot. Its command is `about`,
/// it answers to no aliases, and both lifecycle hooks do nothing yet.
pub struct About;

impl KModule for About {
    open spec fn spec_name(&self) -> Seq<char> {
        "About"@
    }

    open spec fn spec_info(&self) -> Seq<char> {
        "Displays information about the bot."@
    }

    open spec fn spec_command(&self) -> Seq<char> {
        "about"@
    }

    open spec fn spec_aliases(&self) -> Seq<Seq<char>> {
        Seq::empty()
    }

    fn name(&self) -> &str {
        "About"
    }

    fn info(&self) -> &str {
        "Displays information about the bot."
    }

    fn command(&self) -> &str {
        "about"
    }

    fn aliases(&self) -> Vec<&str> {
        Vec::new()
    }

    fn init(&self) {
    }

    fn action(&self) {
    }
}

} // verus!
