use vstd::prelude::*;
use vstd::string::StringExecFns;
use crate::platform::HostOs;
use crate::strategy::IdeType;

verus! {

/// The path of the entry `name` inside the directory `dir`.
pub open spec fn child_of(dir: Seq<char>, name: Seq<char>) -> Seq<char> {
    dir + seq!['/'] + name
}

/// The path of the entry `name` inside the directory `dir`. Paths are written
/// with `/`, which every supported host accepts.
pub fn child_path(dir: &str, name: &str) -> (r: String)
    ensures
        r@ == child_of(dir@, name@),
{
    let mut r = String::from_str(dir);
    r.push('/');
    r.append(name);
    r
}

/// Where an editor keeps its extensions, below the user's home directory.
pub open spec fn extensions_tail(ide: IdeType, os: HostOs) -> Seq<char> {
    match ide {
        IdeType::VsCode => ".vscode/extensions"@,
        IdeType::Cursor => match os {
            HostOs::Windows => "AppData/Roaming/Cursor/User/extensions"@,
            HostOs::MacOs => "Library/Application Support/Cursor/User/extensions"@,
            HostOs::Linux => ".config/Cursor/User/extensions"@,
        },
    }
}

/// The extensions directory of an editor on a host whose user's home
/// directory is `home`.
pub open spec fn extensions_dir_of(ide: IdeType, os: HostOs, home: Seq<char>) -> Seq<char> {
    child_of(home, extensions_tail(ide, os))
}

/// The extensions directory of `ide` on an `os` host whose user's home
/// directory is `home`.
pub fn extensions_dir(ide: &IdeType, os: HostOs, home: &str) -> (r: String)
    ensures
        r@ == extensions_dir_of(*ide, os, home@),
{
    let tail = match ide {
        IdeType::VsCode => ".vscode/extensions",
        IdeType::Cursor => match os {
            HostOs::Windows => "AppData/Roaming/Cursor/User/extensions",
            HostOs::MacOs => "Library/Application Support/Cursor/User/extensions",
            HostOs::Linux => ".config/Cursor/User/extensions",
        },
    };
    child_path(home, tail)
}

/// The part of an editor's extensions directory that names the editor.
pub open spec fn editor_dir_fragment(ide: IdeType) -> Seq<char> {
    match ide {
        IdeType::VsCode => ".vscode"@,
        IdeType::Cursor => "Cursor"@,
    }
}

/// Whether `needle` occurs in `hay`.
pub open spec fn contains_text(hay: Seq<char>, needle: Seq<char>) -> bool {
    exists|i: int|
        0 <= i && i + needle.len() <= hay.len() && #[trigger] hay.subrange(i, i + needle.len())
            == needle
}

/// Every extensions directory ends in `extensions` and names its editor,
/// whatever the host and the home directory.
pub proof fn extensions_dir_names_editor(ide: IdeType, os: HostOs, home: Seq<char>)
    ensures
        contains_text(extensions_dir_of(ide, os, home), editor_dir_fragment(ide)),
        contains_text(extensions_dir_of(ide, os, home), "extensions"@),
{
    reveal_strlit(".vscode/extensions");
    reveal_strlit("AppData/Roaming/Cursor/User/extensions");
    reveal_strlit("Library/Application Support/Cursor/User/extensions");
    reveal_strlit(".config/Cursor/User/extensions");
    reveal_strlit(".vscode");
    reveal_strlit("Cursor");
    reveal_strlit("extensions");
    let p = extensions_dir_of(ide, os, home);
    let tail = extensions_tail(ide, os);
    let start = home.len() as int + 1;
    assert(p.subrange(start, p.len() as int) =~= tail);
    let at = match ide {
        IdeType::VsCode => 0int,
        IdeType::Cursor => match os {
            HostOs::Windows => 16int,
            HostOs::MacOs => 28int,
            HostOs::Linux => 8int,
        },
    };
    let frag = editor_dir_fragment(ide);
    assert(p.subrange(start + at, start + at + frag.len()) =~= frag);
    let last = p.len() as int - 10;
    assert(p.subrange(last, last + 10) =~= "extensions"@);
}

} // verus!
