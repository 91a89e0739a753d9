//! The help overlay's text: four titled sections, in a fixed order.

use vstd::prelude::*;

verus! {

/// The help sections as (title, lines) pairs: usage, the global shortcuts,
/// the bookmark keys, and the internal command grammar.
pub fn get_help() -> (r: Vec<(String, Vec<String>)>)
    ensures
        r@.len() == 4,
        r@[0].0@ == "Usage"@,
        r@[1].0@ == "Shortcuts"@,
        r@[2].0@ == "Bookmarks"@,
        r@[3].0@ == "Commands"@,
        r@[0].1@.len() == 2,
        r@[1].1@.len() == 9,
        r@[2].1@.len() == 4,
        r@[3].1@.len() == 3,
{
    let mut usage: Vec<String> = Vec::new();
    usage.push("ijqrs [FILE_NAME]".to_owned());
    usage.push("If file name is omitted, will read from STDIN".to_owned());

    let mut shortcuts: Vec<String> = Vec::new();
    shortcuts.push("\t - Ctrl+q: Quit".to_owned());
    shortcuts.push("\t - Ctrl+w: Switch panel".to_owned());
    shortcuts.push("\t - Esc: Switch mode".to_owned());
    shortcuts.push("\t - /: Start pattern search (in content panels)".to_owned());
    shortcuts.push("\t - Enter: Apply search pattern (in content panels search mode)".to_owned());
    shortcuts.push("\t - n: Next match (in content panels search mode)".to_owned());
    shortcuts.push("\t - N: Previous match (in content panels search mode)".to_owned());
    shortcuts.push("\t - Ctrl+l: Clear search (in content panels search mode)".to_owned());
    shortcuts.push("\t - ?: Show help".to_owned());

    let mut bookmarks: Vec<String> = Vec::new();
    bookmarks.push("\t - Ctrl+s: Open/Close bookmarks interface".to_owned());
    bookmarks.push("\t - Ctrl+d|Del: Delete bookmark".to_owned());
    bookmarks.push("\t - Enter: Use bookmark".to_owned());
    bookmarks.push("\t - Up/Down: Select bookmark".to_owned());

    let mut commands: Vec<String> = Vec::new();
    commands.push("\t - :wc [FILE_NAME]: write the jq command string to file".to_owned());
    commands.push("\t - :w [FILE_NAME]: write the command output to file".to_owned());
    commands.push("\t - :r: (re)-run the jq command string".to_owned());

    let mut r: Vec<(String, Vec<String>)> = Vec::new();
    r.push(("Usage".to_owned(), usage));
    r.push(("Shortcuts".to_owned(), shortcuts));
    r.push(("Bookmarks".to_owned(), bookmarks));
    r.push(("Commands".to_owned(), commands));
    r
}

} // verus!
