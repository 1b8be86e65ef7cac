//! The launcher: what it starts the game with, and what it says when it cannot.

use vstd::prelude::*;

verus! {

/// The game's number in the store.
pub const STEAM_APP_ID: &'static str = "1245620";

/// The game's program.
pub const GAME_EXE: &'static str = "eldenring.exe";

pub const NO_LOCATION: &'static str = "Could not determine the launcher's own location.";

/// A variable that is set for the game.
#[derive(Debug)]
pub struct EnvVar {
    pub name: String,
    pub value: String,
}

/// The characters of a variable.
pub struct EnvView {
    pub name: Seq<char>,
    pub value: Seq<char>,
}

impl View for EnvVar {
    type V = EnvView;

    open spec fn view(&self) -> EnvView {
        EnvView { name: self.name@, value: self.value@ }
    }
}

/// The variables that are set for the game: the mark that the mod looks for, and who it is in the store.
pub fn game_env(marker: &str) -> (vars: Vec<EnvVar>)
    ensures
        vars@.len() == 3,
        vars@[0]@ == (EnvView { name: marker@, value: "1"@ }),
        vars@[1]@ == (EnvView { name: "SteamAppId"@, value: STEAM_APP_ID@ }),
        vars@[2]@ == (EnvView { name: "SteamGameId"@, value: STEAM_APP_ID@ }),
{
    let mut vars: Vec<EnvVar> = Vec::new();
    vars.push(EnvVar { name: marker.to_owned(), value: "1".to_owned() });
    vars.push(EnvVar { name: "SteamAppId".to_owned(), value: STEAM_APP_ID.to_owned() });
    vars.push(EnvVar { name: "SteamGameId".to_owned(), value: STEAM_APP_ID.to_owned() });
    vars
}

/// Why the game is not started, if it is not: the launcher does not know where it is itself (`None`), or
/// the game is not beside it. `game` is where the game should be, and whether it is there.
pub fn refusal(game: Option<(&str, bool)>) -> (message: Option<String>)
    ensures
        match game {
            None => message is Some && message->0@ == NO_LOCATION@,
            Some(g) => message is None == g.1 && (!g.1 ==> message->0@ == GAME_EXE@
                + " was not found next to the launcher:\n"@ + g.0@
                + "\n\nPut the mod files in your 'ELDEN RING/Game' folder."@),
        },
{
    match game {
        None => Some(NO_LOCATION.to_owned()),
        Some(g) => {
            let (path, there) = g;
            if there {
                return None;
            }
            let mut out = GAME_EXE.to_owned();
            out.append(" was not found next to the launcher:\n");
            out.append(path);
            out.append("\n\nPut the mod files in your 'ELDEN RING/Game' folder.");
            Some(out)
        },
    }
}

/// What is said when the game could not be started.
pub fn launch_failed(error: &str) -> (message: String)
    ensures
        message@ == "Failed to launch "@ + GAME_EXE@ + ":\n"@ + error@,
{
    let mut out = "Failed to launch ".to_owned();
    out.append(GAME_EXE);
    out.append(":\n");
    out.append(error);
    out
}

/// What is told of a variable is its name and its value.
pub proof fn variables_are_told_as_they_are(var: EnvVar)
    ensures
        var@.name == var.name@,
        var@.value == var.value@,
{
}

} // verus!
