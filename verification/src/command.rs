//! The description of a program to run, and the handle of one that was
//! started.

use vstd::prelude::*;
use crate::text::texts;

verus! {

/// A program and the arguments it is given, in order.
#[derive(Clone, Debug)]
pub struct ProgramAndArgs {
    program: String,
    args: Vec<String>,
}

/// The mathematical content of a [`ProgramAndArgs`].
pub struct ProgramAndArgsView {
    pub program: Seq<char>,
    pub args: Seq<Seq<char>>,
}

impl View for ProgramAndArgs {
    type V = ProgramAndArgsView;

    closed spec fn view(&self) -> ProgramAndArgsView {
        ProgramAndArgsView { program: self.program@, args: texts(self.args@) }
    }
}

/// Each argument with a space before it, one after the other.
pub open spec fn spaced(args: Seq<Seq<char>>) -> Seq<char>
    decreases args.len(),
{
    if args.len() == 0 {
        Seq::empty()
    } else {
        spaced(args.drop_last()) + " "@ + args.last()
    }
}

/// The command line by which a program and its arguments are named in
/// messages: the program, then each argument after a space.
pub open spec fn command_line(command: ProgramAndArgsView) -> Seq<char> {
    command.program + spaced(command.args)
}

/// How a program is to be started. Nothing has been started yet.
#[derive(Debug)]
pub struct LaunchPlan {
    pub program: String,
    pub args: Vec<String>,
    /// Whether the child is to be killed when its handle is dropped before
    /// the child has ended.
    pub kill_on_drop: bool,
}

/// A copy of a list of strings.
fn clone_strings(strings: &Vec<String>) -> (copy: Vec<String>)
    ensures
        texts(copy@) == texts(strings@),
{
    let mut copy: Vec<String> = Vec::new();
    let mut i: usize = 0;
    while i < strings.len()
        invariant
            i <= strings.len(),
            copy@.len() == i,
            forall|j: int| 0 <= j < i ==> copy@[j]@ == strings@[j]@,
        decreases strings.len() - i,
    {
        copy.push(strings[i].clone());
        i += 1;
    }
    assert(texts(copy@) =~= texts(strings@));
    copy
}

impl ProgramAndArgs {
    /// The description of running `program` with `args`.
    pub fn new(program: String, args: Vec<String>) -> (command: Self)
        ensures
            command@ == (ProgramAndArgsView { program: program@, args: texts(args@) }),
    {
        ProgramAndArgs { program, args }
    }

    /// The program's path or name.
    pub fn program(&self) -> (program: &String)
        ensures
            program@ == self@.program,
    {
        &self.program
    }

    /// The arguments, in order.
    pub fn args(&self) -> (args: &Vec<String>)
        ensures
            texts(args@) == self@.args,
    {
        &self.args
    }

    /// The command line by which this program is named in messages.
    pub fn to_string(&self) -> (text: String)
        ensures
            text@ == command_line(self@),
    {
        let mut text = self.program.clone();
        let mut i: usize = 0;
        assert(texts(self.args@).subrange(0, 0) =~= Seq::<Seq<char>>::empty());
        assert(text@ =~= self.program@ + spaced(Seq::<Seq<char>>::empty()));
        while i < self.args.len()
            invariant
                i <= self.args.len(),
                text@ == self.program@ + spaced(texts(self.args@).subrange(0, i as int)),
            decreases self.args.len() - i,
        {
            let ghost before = texts(self.args@).subrange(0, i as int);
            let ghost after = texts(self.args@).subrange(0, i + 1);
            text.append(" ");
            text.append(self.args[i].as_str());
            assert(after.drop_last() =~= before);
            assert(after.last() == self.args@[i as int]@);
            assert(text@ =~= self.program@ + spaced(after));
            i += 1;
        }
        assert(texts(self.args@).subrange(0, i as int) =~= texts(self.args@));
        text
    }

    /// How this program is to be started: with its arguments in order, and
    /// always so that dropping the handle of the running child kills it.
    pub fn command(&self) -> (plan: LaunchPlan)
        ensures
            plan.program@ == self@.program,
            texts(plan.args@) == self@.args,
            plan.kill_on_drop,
    {
        LaunchPlan {
            program: self.program.clone(),
            args: clone_strings(&self.args),
            kill_on_drop: true,
        }
    }
}

/// The lookup of where the binary `program_to_locate` lies.
pub fn where_is(program_to_locate: &str) -> (command: ProgramAndArgs)
    ensures
        command@ == (ProgramAndArgsView {
            program: "/usr/bin/which"@,
            args: seq![program_to_locate@],
        }),
{
    let mut args: Vec<String> = Vec::new();
    args.push(program_to_locate.to_owned());
    assert(texts(args@) =~= seq![program_to_locate@]);
    ProgramAndArgs::new("/usr/bin/which".to_owned(), args)
}

/// The plain listing of the directory `path_to_ls`.
pub fn ls(path_to_ls: &str) -> (command: ProgramAndArgs)
    ensures
        command@ == (ProgramAndArgsView { program: "ls"@, args: seq![path_to_ls@] }),
{
    let mut args: Vec<String> = Vec::new();
    args.push(path_to_ls.to_owned());
    assert(texts(args@) =~= seq![path_to_ls@]);
    ProgramAndArgs::new("ls".to_owned(), args)
}

/// The long listing of the directory `path_to_ls`.
pub fn ls_l(path_to_ls: &str) -> (command: ProgramAndArgs)
    ensures
        command@ == (ProgramAndArgsView { program: "ls"@, args: seq!["-l"@, path_to_ls@] }),
{
    let mut args: Vec<String> = Vec::new();
    args.push("-l".to_owned());
    args.push(path_to_ls.to_owned());
    assert(texts(args@) =~= seq!["-l"@, path_to_ls@]);
    ProgramAndArgs::new("ls".to_owned(), args)
}

} // verus!
