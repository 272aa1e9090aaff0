//! The link collection, and the commands that open a link.

use vstd::prelude::*;
use vstd::string::*;

verus! {

/// A named link with what is known about it.
#[derive(Debug, Clone, PartialEq, Eq, PartialOrd, Ord, Hash)]
pub struct Link {
    pub name: String,
    pub link: String,
    pub file: Option<String>,
    pub desc: Option<String>,
    pub artist: Option<String>,
    pub color: Option<String>,
}

impl Link {
    /// A link of which only the name and the target are known.
    pub fn new(name: &str, link: &str) -> (made: Link)
        ensures
            made.name@ == name@,
            made.link@ == link@,
            made.file is None,
            made.desc is None,
            made.artist is None,
            made.color is None,
    {
        Link {
            name: String::from_str(name),
            link: String::from_str(link),
            file: None,
            desc: None,
            artist: None,
            color: None,
        }
    }

    /// A link with nothing filled in.
    pub fn stub() -> (made: Link)
        ensures
            made.name@.len() == 0,
            made.link@.len() == 0,
            made.file is None,
            made.desc is None,
            made.artist is None,
            made.color is None,
    {
        Link::default()
    }
}

impl Default for Link {
    fn default() -> (made: Link)
        ensures
            made.name@.len() == 0,
            made.link@.len() == 0,
            made.file is None,
            made.desc is None,
            made.artist is None,
            made.color is None,
    {
        Link {
            name: String::new(),
            link: String::new(),
            file: None,
            desc: None,
            artist: None,
            color: None,
        }
    }
}

/// The link collection: tabs in display order.
#[derive(Debug, Clone, PartialEq, Eq)]
pub struct Luma {
    /// First element is the name second is the links
    pub tabs: Vec<(String, Vec<Link>)>,
}

impl Luma {
    /// True if `tab` names a tab and `index` a link in it.
    pub open spec fn has(&self, tab: int, index: int) -> bool {
        0 <= tab < self.tabs@.len() && 0 <= index < self.tabs@[tab].1@.len()
    }

    /// The link under the cursor, if the cursor is on one.  After the last
    /// link of a tab has gone the cursor is on none.
    pub fn selected(&self, tab: usize, index: usize) -> (link: Option<&Link>)
        ensures
            link is Some <==> self.has(tab as int, index as int),
            link matches Some(found) ==> *found == self.tabs@[tab as int].1@[index as int],
    {
        if tab < self.tabs.len() {
            let links = &self.tabs[tab].1;
            if index < links.len() {
                return Some(&links[index]);
            }
        }
        None
    }
}

impl Default for Luma {
    fn default() -> (made: Luma)
        ensures
            made.tabs@.len() == 0,
    {
        Luma { tabs: Vec::new() }
    }
}

/// A program that opens links, with the arguments that go before the link.
#[derive(Debug)]
pub struct OpenCommand {
    pub name: &'static str,
    pub args: &'static [&'static str],
}

/// The program could not be started.
#[derive(Debug)]
pub struct OpenCommandError;

impl OpenCommandError {
    /// What to tell the user.
    pub fn message(&self) -> (text: String)
        ensures
            text@ == "failed to spawn command"@,
    {
        String::from_str("failed to spawn command")
    }
}

impl OpenCommand {
    pub fn new(name: &'static str, args: &'static [&'static str]) -> (command: Self)
        ensures
            command.name == name,
            command.args == args,
    {
        Self { name, args }
    }

    /// The arguments with which the program is started for `target`: its
    /// own, in order, and then the target.
    pub fn arguments<'a>(&self, target: &'a str) -> (argv: Vec<&'a str>)
        ensures
            argv@ == self.args@.push(target),
    {
        let mut argv: Vec<&'a str> = Vec::new();
        let mut i: usize = 0;
        while i < self.args.len()
            invariant
                i <= self.args@.len(),
                argv@ == self.args@.take(i as int),
            decreases self.args@.len() - i,
        {
            argv.push(self.args[i]);
            assert(self.args@.take(i as int + 1) =~= self.args@.take(i as int).push(
                self.args@[i as int],
            ));
            i += 1;
        }
        argv.push(target);
        argv
    }
}

} // verus!
