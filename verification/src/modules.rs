//! The module interface: a pluggable unit that implements one bot command.

use vstd::prelude::*;

pub mod about;

verus! {

/// A bot module: a named unit exposing a display name, a description, an
/// invocation keyword and a list of alias keywords, plus two lifecycle
/// hooks. `init` runs once at startup, before the connection opens;
/// `action` runs when the module is selected. Each implementor fixes its
/// four strings through the `spec_` functions, and the accessors promise to
/// return exactly those.
pub trait KModule {
    /// The module's display name, as a mathematical value.
    spec fn spec_name(&self) -> Seq<char>;

    /// The module's description, as a mathematical value.
    spec fn spec_info(&self) -> Seq<char>;

    /// The module's invocation keyword, as a mathematical value.
    spec fn spec_command(&self) -> Seq<char>;

    /// The module's alias keywords, as a mathematical value.
    spec fn spec_aliases(&self) -> Seq<Seq<char>>;

    /// Display name for status output.
    fn name(&self) -> (r: &str)
        ensures
            r@ == self.spec_name(),
    ;

    /// Human-readable description of what the module does.
    fn info(&self) -> (r: &str)
        ensures
            r@ == self.spec_info(),
    ;

    /// The keyword a message must carry to invoke this module.
    fn command(&self) -> (r: &str)
        ensures
            r@ == self.spec_command(),
    ;

    /// Alternative keywords that invoke this module as well.
    fn aliases(&self) -> (r: Vec<&str>)
        ensures
            r@.len() == self.spec_aliases().len(),
            forall|i: int| 0 <= i < r@.len() ==> (#[trigger] r@[i])@ == self.spec_aliases()[i],
    ;

    /// One-time initializer, run at startup before the connection opens.
    fn init(&self);

    /// The module's command action, run when the module is selected.
    fn action(&self);
}

} // verus!
