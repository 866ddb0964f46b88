use vstd::prelude::*;

verus! {

/// A command descriptor: a command name plus its ordered argument list,
/// held as plain strings. A handle turns it into the client library's own
/// command object only at the moment the command is sent.
#[derive(Clone, Debug)]
pub struct Command {
    /// The command name, e.g. `SET` or `PING`.
    pub name: String,
    /// The ordered arguments that follow the name on the wire.
    pub args: Vec<String>,
}

impl Command {
    /// Start a command with the given name and no arguments.
    pub fn new(name: &str) -> (c: Command)
        ensures
            c.name@ == name@,
            c.args@ =~= Seq::<String>::empty(),
    {
        Command { name: name.to_owned(), args: Vec::new() }
    }

    /// Append one argument, returning the extended command.
    pub fn arg(self, a: &str) -> (c: Command)
        ensures
            c.name@ == self.name@,
            c.args.deep_view() =~= self.args.deep_view().push(a@),
    {
        let mut args = self.args;
        args.push(a.to_owned());
        Command { name: self.name, args }
    }
}

} // verus!
