use vstd::prelude::*;

verus! {

/// One part of the demonstration.
#[derive(Clone, Copy, Debug, PartialEq, Eq, Structural)]
pub enum Demo {
    /// Five distinct threads, one per traffic-control role.
    ThreadCreation,
    /// A shared vehicle counter updated without synchronisation.
    Unsynchronized,
    /// A shared vehicle counter updated under a mutex.
    Synchronized,
    /// Analysis workers with different nice values competing for one CPU.
    Scheduling,
}

/// What the command line asks for.
#[derive(Clone, Copy, Debug, PartialEq, Eq, Structural)]
pub enum Command {
    Creation,
    Unsync,
    Sync,
    Schedule,
    All,
    /// Show how the program is used.
    Usage,
}

/// The command that an argument list (program name first) selects.
pub open spec fn command_of(args: Seq<Seq<char>>) -> Command {
    if args.len() != 2 {
        Command::Usage
    } else if args[1] == "creation"@ {
        Command::Creation
    } else if args[1] == "unsync"@ {
        Command::Unsync
    } else if args[1] == "sync"@ {
        Command::Sync
    } else if args[1] == "schedule"@ {
        Command::Schedule
    } else if args[1] == "all"@ {
        Command::All
    } else {
        Command::Usage
    }
}

/// The demonstrations that a command runs, in order.
pub open spec fn demos_of(c: Command) -> Seq<Demo> {
    match c {
        Command::Creation => seq![Demo::ThreadCreation],
        Command::Unsync => seq![Demo::Unsynchronized],
        Command::Sync => seq![Demo::Synchronized],
        Command::Schedule => seq![Demo::Scheduling],
        Command::All => seq![Demo::ThreadCreation, Demo::Unsynchronized, Demo::Synchronized, Demo::Scheduling],
        Command::Usage => Seq::empty(),
    }
}

/// Reads the command from the argument list, whose first entry is the
/// program's name: exactly one argument naming a command selects it, and
/// anything else asks for the usage text.
pub fn parse_command(args: &Vec<String>) -> (c: Command)
    ensures
        c == command_of(args@.map_values(|a: String| a@)),
{
    let ghost views = args@.map_values(|a: String| a@);
    if args.len() != 2 {
        return Command::Usage;
    }
    let word = &args[1];
    assert(word@ == views[1]);
    if *word == String::from_str("creation") {
        Command::Creation
    } else if *word == String::from_str("unsync") {
        Command::Unsync
    } else if *word == String::from_str("sync") {
        Command::Sync
    } else if *word == String::from_str("schedule") {
        Command::Schedule
    } else if *word == String::from_str("all") {
        Command::All
    } else {
        Command::Usage
    }
}

impl Command {
    /// The demonstrations that the command runs, in order.
    pub fn demos(&self) -> (d: Vec<Demo>)
        ensures
            d@ == demos_of(*self),
    {
        let mut d: Vec<Demo> = Vec::new();
        match self {
            Command::Creation => d.push(Demo::ThreadCreation),
            Command::Unsync => d.push(Demo::Unsynchronized),
            Command::Sync => d.push(Demo::Synchronized),
            Command::Schedule => d.push(Demo::Scheduling),
            Command::All => {
                d.push(Demo::ThreadCreation);
                d.push(Demo::Unsynchronized);
                d.push(Demo::Synchronized);
                d.push(Demo::Scheduling);
            },
            Command::Usage => {},
        }
        proof {
            assert(d@ =~= demos_of(*self));
        }
        d
    }
}

fn command_line(program_name: &str, word: &str) -> (line: String)
    ensures
        line@ == program_name@ + " "@ + word@,
{
    let mut line = String::from_str(program_name);
    line.append(" ");
    line.append(word);
    line
}

/// The lines of the usage text, for a program started as `program_name`.
pub fn usage_lines(program_name: &str) -> (lines: Vec<String>)
    ensures
        lines@.len() == 9,
        lines@[0]@ == Seq::<char>::empty(),
        lines@[1]@ == "SMART TRAFFIC MANAGEMENT SYSTEM"@,
        lines@[2]@ == Seq::<char>::empty(),
        lines@[3]@ == "Usage:"@,
        lines@[4]@ == program_name@ + " "@ + "creation"@,
        lines@[5]@ == program_name@ + " "@ + "unsync"@,
        lines@[6]@ == program_name@ + " "@ + "sync"@,
        lines@[7]@ == program_name@ + " "@ + "schedule"@,
        lines@[8]@ == program_name@ + " "@ + "all"@,
{
    let mut lines: Vec<String> = Vec::new();
    lines.push(String::new());
    lines.push(String::from_str("SMART TRAFFIC MANAGEMENT SYSTEM"));
    lines.push(String::new());
    lines.push(String::from_str("Usage:"));
    lines.push(command_line(program_name, "creation"));
    lines.push(command_line(program_name, "unsync"));
    lines.push(command_line(program_name, "sync"));
    lines.push(command_line(program_name, "schedule"));
    lines.push(command_line(program_name, "all"));
    lines
}


/// Each single-demonstration command runs exactly the demonstration of its
/// name, `all` runs the four in the order creation, unsynchronised,
/// synchronised, scheduling, and the usage text runs none.
pub proof fn lemma_commands_run_their_demos(c: Command)
    ensures
        c == Command::Creation ==> demos_of(c) == seq![Demo::ThreadCreation],
        c == Command::Unsync ==> demos_of(c) == seq![Demo::Unsynchronized],
        c == Command::Sync ==> demos_of(c) == seq![Demo::Synchronized],
        c == Command::Schedule ==> demos_of(c) == seq![Demo::Scheduling],
        c == Command::All ==> demos_of(c).len() == 4 && demos_of(c)[0] == Demo::ThreadCreation
            && demos_of(c)[1] == Demo::Unsynchronized && demos_of(c)[2] == Demo::Synchronized
            && demos_of(c)[3] == Demo::Scheduling,
        c == Command::Usage ==> demos_of(c).len() == 0,
        c != Command::All && c != Command::Usage ==> demos_of(c).len() == 1,
{
}

/// The word after the program's name selects the command of that name,
/// whatever the program is called; any other word, or any other number of
/// arguments, asks for the usage text.
pub proof fn lemma_words_select_commands(program: Seq<char>, word: Seq<char>, extra: Seq<Seq<char>>)
    ensures
        command_of(seq![program, "creation"@]) == Command::Creation,
        command_of(seq![program, "unsync"@]) == Command::Unsync,
        command_of(seq![program, "sync"@]) == Command::Sync,
        command_of(seq![program, "schedule"@]) == Command::Schedule,
        command_of(seq![program, "all"@]) == Command::All,
        word != "creation"@ && word != "unsync"@ && word != "sync"@ && word != "schedule"@
            && word != "all"@ ==> command_of(seq![program, word]) == Command::Usage,
        command_of(seq![program]) == Command::Usage,
        extra.len() > 0 ==> command_of(seq![program, word] + extra) == Command::Usage,
{
    reveal_strlit("creation");
    reveal_strlit("unsync");
    reveal_strlit("sync");
    reveal_strlit("schedule");
    reveal_strlit("all");
    assert("unsync"@.len() != "creation"@.len());
    assert("sync"@.len() != "creation"@.len());
    assert("sync"@.len() != "unsync"@.len());
    assert("schedule"@[0] != "creation"@[0]);
    assert("schedule"@.len() != "unsync"@.len());
    assert("schedule"@.len() != "sync"@.len());
    assert("all"@.len() != "creation"@.len());
    assert("all"@.len() != "unsync"@.len());
    assert("all"@.len() != "sync"@.len());
    assert("all"@.len() != "schedule"@.len());
    assert((seq![program, word] + extra).len() != 2 || extra.len() == 0);
}

} // verus!
