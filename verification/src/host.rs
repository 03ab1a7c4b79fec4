//! The script host: an embedded Lua interpreter that runs command text.

use vstd::prelude::*;
use mlua::Lua;

verus! {

/// `mlua::Lua`, the state of a Lua interpreter. It is carried around as it
/// is; nothing of its inside is visible here.
#[verifier::external_type_specification]
#[verifier::external_body]
pub struct ExLua(Lua);

/// `mlua::Lua::new`: a fresh interpreter with the safe subset of Lua's
/// standard libraries loaded. Nothing is claimed of the interpreter.
#[verifier::external_body]
fn new_interpreter() -> Lua {
    Lua::new()
}

/// `mlua::Lua::load` followed by `mlua::Chunk::exec`: compiles `text` as a
/// chunk and runs it in `lua`. The result says whether both went without an
/// error, be it in the syntax or while running. Nothing is claimed of it: it
/// depends on the text and on everything the interpreter has run before.
/// The chunk runs to its end before the call returns, so a chunk that loops
/// for ever, or that ends the process through Lua's `os` library, never
/// comes back.
#[verifier::external_body]
fn run_chunk(lua: &Lua, text: &str) -> (ok: bool) {
    lua.load(text).exec().is_ok()
}

/// A script host: one interpreter, kept for the life of a session, together
/// with the record of what it was asked to run.
pub struct ScriptHost {
    lua: Lua,
    history: Ghost<Seq<Seq<char>>>,
}

impl ScriptHost {
    /// The command texts handed to the interpreter so far, oldest first.
    pub closed spec fn history(&self) -> Seq<Seq<char>> {
        self.history@
    }

    /// A host with a fresh interpreter that has run nothing yet.
    pub fn new() -> (host: ScriptHost)
        ensures
            host.history() == Seq::<Seq<char>>::empty(),
    {
        ScriptHost { lua: new_interpreter(), history: Ghost(Seq::empty()) }
    }

    /// Runs `text` in the interpreter, once, and reports whether it ran
    /// without an error. What the text binds stays visible to later calls.
    /// An error is reported in the result and leaves the host usable.
    pub fn execute(&mut self, text: &str) -> (ok: bool)
        ensures
            final(self).history() == old(self).history().push(text@),
    {
        let ok = run_chunk(&self.lua, text);
        proof {
            self.history@ = self.history@.push(text@);
        }
        ok
    }
}

} // verus!
