//! Opening URLs in a browser: which system the tool runs on, which program
//! opens a URL there, and the menu of configured URLs.
use crate::ini::{
    ini_new, ini_parse, ini_read, ini_section_entries, opt_view, to_lowercase, unicode_lowercase,
};
use crate::text::{
    chars_of, contains_seq, contains_chars, owned, str_equals, string_from_chars, trim_end,
    trim_end_chars,
};
use vstd::prelude::*;
use vstd::utf8::encode_utf8;

verus! {

/// The kernel release file whose text tells WSL apart.
pub const OSRELEASE: &'static str = "/proc/sys/kernel/osrelease";

/// Microsoft Edge on Windows.
pub const EDGE_PATH_WIN: &'static str =
    "\\Program Files (x86)\\Microsoft\\Edge\\Application\\msedge.exe";

/// Microsoft Edge as seen from WSL.
pub const EDGE_PATH_WSL: &'static str =
    "/mnt/c/Program Files (x86)/Microsoft/Edge/Application/msedge.exe";

/// The width of the key column in the URL menu.
pub const URL_KEY_WIDTH: usize = 20;

/// The operating-system family the tool runs on.
#[derive(Debug)]
pub struct RuntimeOS {
    pub family: String,
}

/// A kernel release text marks WSL when its lowercase holds `wsl`.
pub open spec fn is_wsl_release(release: Seq<char>) -> bool {
    contains_seq(unicode_lowercase(release), seq!['w', 's', 'l'])
}

/// Whether the kernel release text `release` (the contents of
/// `/proc/sys/kernel/osrelease`) is that of WSL.
pub fn is_wsl(release: &str) -> (b: bool)
    ensures
        b == is_wsl_release(release@),
{
    let lower = to_lowercase(release);
    let chars = chars_of(lower.as_str());
    let pat: Vec<char> = vec!['w', 's', 'l'];
    assert(pat@ =~= seq!['w', 's', 'l']);
    contains_chars(&chars, &pat)
}

/// The program that opens a URL on a family: `xdg-open` on `linux`, `wslview`
/// on `wsl`, `open` on `darwin`; none on any other, where the tool exits with
/// code 1.
pub open spec fn browser_program_spec(family: Seq<char>) -> Option<Seq<char>> {
    if family == "linux"@ {
        Some("xdg-open"@)
    } else if family == "wsl"@ {
        Some("wslview"@)
    } else if family == "darwin"@ {
        Some("open"@)
    } else {
        None
    }
}

impl RuntimeOS {
    /// The family: `wsl` under WSL, else the name of the operating system the
    /// tool was built for.
    pub fn get_family(is_wsl: bool, os: &str) -> (r: RuntimeOS)
        ensures
            r.family@ == if is_wsl {
                "wsl"@
            } else {
                os@
            },
    {
        if is_wsl {
            RuntimeOS { family: owned("wsl") }
        } else {
            RuntimeOS { family: owned(os) }
        }
    }

    /// The program that opens URLs on this family.
    pub fn browser_program(&self) -> (p: Option<&'static str>)
        ensures
            match p {
                Some(s) => browser_program_spec(self.family@) == Some(s@),
                None => browser_program_spec(self.family@) is None,
            },
    {
        let f = self.family.as_str();
        if str_equals(f, "linux") {
            Some("xdg-open")
        } else if str_equals(f, "wsl") {
            Some("wslview")
        } else if str_equals(f, "darwin") {
            Some("open")
        } else {
            None
        }
    }
}

/// What the user chose in the URL menu.
#[derive(Debug)]
pub enum MenuChoice {
    /// Leave the program.
    Exit,
    /// Open the URL stored under this key.
    Key(String),
}

/// The choice a typed line makes: without its trailing whitespace, `exit`
/// leaves and anything else names a key.
pub open spec fn menu_choice_spec(line: Seq<char>) -> Option<Seq<char>> {
    if trim_end(line) == seq!['e', 'x', 'i', 't'] {
        None
    } else {
        Some(trim_end(line))
    }
}

/// Reads the line typed at the URL menu.
pub fn menu_choice(line: &str) -> (c: MenuChoice)
    ensures
        match c {
            MenuChoice::Exit => menu_choice_spec(line@) is None,
            MenuChoice::Key(k) => menu_choice_spec(line@) == Some(k@),
        },
{
    let chars = chars_of(line);
    let trimmed = trim_end_chars(&chars);
    let key = string_from_chars(&trimmed);
    proof {
        reveal_strlit("exit");
        assert("exit"@ =~= seq!['e', 'x', 'i', 't']);
    }
    if str_equals(key.as_str(), "exit") {
        MenuChoice::Exit
    } else {
        MenuChoice::Key(key)
    }
}

/// A line of the URL menu: the key, padded with spaces to the key width, then
/// `=`, a tab and the URL.
pub open spec fn url_line_spec(key: Seq<char>, key_bytes: nat, url: Seq<char>) -> Seq<char> {
    key + Seq::new((URL_KEY_WIDTH - key_bytes) as nat, |i: int| ' ') + seq!['=', '\t'] + url
}

/// The menu line for `key` and `url`; the padding counts the key's bytes, so
/// a key of more than 20 bytes is out of the menu's reach.
pub fn url_map_line(key: &str, url: &str) -> (line: String)
    requires
        key.len() <= URL_KEY_WIDTH,
    ensures
        line@ == url_line_spec(key@, key.len() as nat, url@),
{
    let pad = URL_KEY_WIDTH - key.len();
    let mut v: Vec<char> = Vec::new();
    let mut i: usize = 0;
    while i < pad
        invariant
            i <= pad,
            v@ =~= Seq::new(i as nat, |j: int| ' '),
        decreases pad - i,
    {
        v.push(' ');
        i = i + 1;
    }
    v.push('=');
    v.push('\t');
    let mut line = owned(key);
    let tail = string_from_chars(&v);
    line.append(tail.as_str());
    line.append(url);
    assert(line@ =~= url_line_spec(key@, key.len() as nat, url@));
    line
}

/// The menu of configured URLs.
#[derive(Debug, Clone, Copy)]
pub struct Browser {}

/// A URL entry can be shown: its key fits the key column and it has a URL.
pub open spec fn url_entry_shown(e: (String, Option<String>)) -> bool {
    encode_utf8(e.0@).len() <= URL_KEY_WIDTH && e.1 is Some
}

impl Browser {
    /// The lines of the URL menu: a three-line banner, one line per entry in
    /// the order given, and an empty line.
    pub fn url_map_lines(self, entries: &Vec<(String, Option<String>)>) -> (lines: Vec<String>)
        requires
            forall|i: int| 0 <= i < entries@.len() ==> url_entry_shown(#[trigger] entries@[i]),
        ensures
            lines@.len() == entries@.len() + 4,
            lines@[0]@ == "####################"@,
            lines@[1]@ == "## Available URLs ##"@,
            lines@[2]@ == "####################"@,
            forall|i: int|
                0 <= i < entries@.len() ==> #[trigger] lines@[i + 3]@ == url_line_spec(
                    entries@[i].0@,
                    encode_utf8(entries@[i].0@).len(),
                    entries@[i].1->0@,
                ),
            lines@[entries@.len() + 3int]@.len() == 0,
    {
        let mut lines: Vec<String> = Vec::new();
        lines.push(owned("####################"));
        lines.push(owned("## Available URLs ##"));
        lines.push(owned("####################"));
        let mut i: usize = 0;
        while i < entries.len()
            invariant
                i <= entries@.len(),
                lines@.len() == i + 3,
                forall|k: int| 0 <= k < entries@.len() ==> url_entry_shown(#[trigger] entries@[k]),
                lines@[0]@ == "####################"@,
                lines@[1]@ == "## Available URLs ##"@,
                lines@[2]@ == "####################"@,
                forall|k: int|
                    0 <= k < i ==> #[trigger] lines@[k + 3]@ == url_line_spec(
                        entries@[k].0@,
                        encode_utf8(entries@[k].0@).len(),
                        entries@[k].1->0@,
                    ),
            decreases entries@.len() - i,
        {
            let key = entries[i].0.as_str();
            let url = match &entries[i].1 {
                Some(u) => u.as_str(),
                None => "",
            };
            assert(url_entry_shown(entries@[i as int]));
            let line = url_map_line(key, url);
            lines.push(line);
            i = i + 1;
        }
        lines.push(String::new());
        lines
    }
}

/// The entries of the `url` section of a URL config text, each key once with
/// its value in an order the contract leaves open; `None` where the text does
/// not parse or has no `url` section.
pub fn url_entries(text: String) -> (r: Option<Vec<(String, Option<String>)>>)
    ensures
        r is Some <==> (ini_parse(text@) is Some && ini_parse(text@)->0.contains_key("url"@)),
        r matches Some(v) ==> v@.len() == ini_parse(text@)->0["url"@].dom().len(),
        r matches Some(v) ==> forall|i: int|
            0 <= i < v@.len() ==> #[trigger] ini_parse(text@)->0["url"@].contains_key(v@[i].0@)
                && ini_parse(text@)->0["url"@][v@[i].0@] == opt_view(v@[i].1),
        r matches Some(v) ==> forall|i: int, j: int|
            0 <= i < j < v@.len() ==> #[trigger] v@[i].0@ != #[trigger] v@[j].0@,
{
    let mut doc = ini_new();
    if !ini_read(&mut doc, text) {
        return None;
    }
    ini_section_entries(&doc, "url")
}

/// Where `key` first stands among `entries`.
pub open spec fn first_key_index(entries: Seq<(String, Option<String>)>, key: Seq<char>) -> int {
    choose|i: int|
        0 <= i < entries.len() && entries[i].0@ == key && forall|j: int|
            0 <= j < i ==> entries[j].0@ != key
}

/// The value of the first entry whose key is `key`; `None` where no entry
/// has that key.
pub fn url_for_key(entries: &Vec<(String, Option<String>)>, key: &str) -> (r: Option<
    Option<String>,
>)
    ensures
        r is Some <==> exists|i: int| 0 <= i < entries@.len() && #[trigger] entries@[i].0@ == key@,
        r matches Some(u) ==> {
            let i = first_key_index(entries@, key@);
            &&& 0 <= i < entries@.len()
            &&& entries@[i].0@ == key@
            &&& forall|j: int| 0 <= j < i ==> entries@[j].0@ != key@
            &&& opt_view(u) == opt_view(entries@[i].1)
        },
{
    let mut i: usize = 0;
    while i < entries.len()
        invariant
            i <= entries@.len(),
            forall|j: int| 0 <= j < i ==> entries@[j].0@ != key@,
        decreases entries@.len() - i,
    {
        if str_equals(entries[i].0.as_str(), key) {
            assert(entries@[i as int].0@ == key@ && forall|j: int|
                0 <= j < i ==> entries@[j].0@ != key@);
            let value = match &entries[i].1 {
                Some(u) => Some(owned(u.as_str())),
                None => None,
            };
            return Some(value);
        }
        i = i + 1;
    }
    None
}

} // verus!
