//! The command line: what to do for the arguments given.

use vstd::prelude::*;

verus! {

/// What the program is asked to do.
#[derive(Debug)]
pub enum Action {
    /// Too many arguments: say how the program is used.
    Usage,
    /// Run the script at this path.
    RunFile(String),
    /// Read lines from the terminal and run each.
    RunPrompt,
}

/// What an [`Action`] denotes.
pub enum ActionView {
    Usage,
    RunFile(Seq<char>),
    RunPrompt,
}

impl View for Action {
    type V = ActionView;

    open spec fn view(&self) -> ActionView {
        match self {
            Action::Usage => ActionView::Usage,
            Action::RunFile(path) => ActionView::RunFile(path@),
            Action::RunPrompt => ActionView::RunPrompt,
        }
    }
}

/// The action for a list of arguments, of which the first is the name that
/// the program was called by: the script named by the one argument after it,
/// the prompt where there is none, and the usage note where there are more.
pub open spec fn action_for(args: Seq<String>) -> ActionView {
    if args.len() > 2 {
        ActionView::Usage
    } else if args.len() == 2 {
        ActionView::RunFile(args[1]@)
    } else {
        ActionView::RunPrompt
    }
}

/// The text that echoes a source.
pub open spec fn echo(source: Seq<char>) -> Seq<char> {
    "Got Source:\n"@ + source
}

/// The program's entry: the arguments it was started with.
#[derive(Debug)]
pub struct Lox {
    args: Vec<String>,
}

impl View for Lox {
    type V = Seq<String>;

    closed spec fn view(&self) -> Seq<String> {
        self.args@
    }
}

impl Lox {
    /// The entry for the given arguments.
    pub fn new(args: Vec<String>) -> (res: Lox)
        ensures
            res@ == args@,
    {
        Lox { args }
    }

    /// Decides what to do for the arguments.
    pub fn run_main(&self) -> (res: Action)
        ensures
            res@ == action_for(self@),
    {
        if self.args.len() > 2 {
            Action::Usage
        } else if self.args.len() == 2 {
            Action::RunFile(self.args[1].clone())
        } else {
            Action::RunPrompt
        }
    }

    /// The text to print for a source that has been read.
    pub fn run(&self, source: String) -> (res: String)
        ensures
            res@ == echo(source@),
    {
        let mut out = String::from_str("Got Source:\n");
        out.append(source.as_str());
        out
    }
}

} // verus!
