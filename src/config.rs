use vstd::prelude::*;
use vstd::string::StringExecFns;

use crate::command::Command;

verus! {

/// The operating system family, which decides the default speech command.
#[derive(Clone, Copy, Debug, PartialEq, Eq, Structural)]
pub enum Platform {
    MacOs,
    Windows,
    Other,
}

/// The user's settings: the interface language and the speech command.
pub struct Config {
    pub language: String,
    pub command: Command,
}

/// The default speech command of `platform`, as program and arguments, if the
/// platform has one.
pub open spec fn default_command(platform: Platform) -> Option<(Seq<char>, Seq<Seq<char>>)> {
    match platform {
        Platform::MacOs => Some(("say"@, seq!["-v"@, "Samantha"@, "{text}"@])),
        Platform::Windows => Some(("wsay"@, seq!["-v"@, "1"@, "{text}"@])),
        Platform::Other => None,
    }
}

impl Config {
    /// The settings written when none exist yet: Japanese as the language and
    /// the platform's own speech command. `None` where the platform has no
    /// speech command to offer.
    pub fn new(platform: Platform) -> (r: Option<Config>)
        ensures
            r is Some <==> default_command(platform) is Some,
            r matches Some(c) ==> {
                &&& c.language@ == "ja"@
                &&& Some((c.command.program@, c.command.args_view())) == default_command(platform)
            },
    {
        let (program, voice) = match platform {
            Platform::MacOs => (String::from_str("say"), String::from_str("Samantha")),
            Platform::Windows => (String::from_str("wsay"), String::from_str("1")),
            Platform::Other => {
                return None;
            },
        };
        let args = vec![String::from_str("-v"), voice, String::from_str("{text}")];
        let c = Config { language: String::from_str("ja"), command: Command::new(program, args) };
        assert(c.command.args_view() =~= default_command(platform)->Some_0.1);
        Some(c)
    }
}

} // verus!
